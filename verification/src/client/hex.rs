//! Bytes written in hexadecimal, two characters each.

use crate::text;
use vstd::prelude::*;
use vstd::string::StringExecFns;

verus! {

/// The value of a hexadecimal digit, in ASCII.
pub open spec fn hex_digit(c: u8) -> Option<u8> {
    if 48 <= c <= 57 {
        Some((c - 48) as u8)
    } else if 65 <= c <= 70 {
        Some((c - 55) as u8)
    } else if 97 <= c <= 102 {
        Some((c - 87) as u8)
    } else {
        None
    }
}

/// The byte that two characters write: two digits, or a plus sign and one digit.
pub open spec fn hex_pair(high: u8, low: u8) -> Option<u8> {
    if high == 43 {
        hex_digit(low)
    } else {
        match (hex_digit(high), hex_digit(low)) {
            (Some(h), Some(l)) => Some((16 * h + l) as u8),
            _ => None,
        }
    }
}

/// Pair `k` of a text, as a byte.
pub open spec fn pair_value(bytes: Seq<u8>, k: int) -> Option<u8> {
    hex_pair(bytes[2 * k], bytes[2 * k + 1])
}

/// The first `count` pairs of a text are bytes.
pub open spec fn pairs_valid(bytes: Seq<u8>, count: int) -> bool {
    forall|k: int| 0 <= k < count ==> #[trigger] pair_value(bytes, k) is Some
}

/// The bytes that the pairs of a text write.
pub open spec fn pair_values(bytes: Seq<u8>) -> Seq<u8> {
    Seq::new(bytes.len() / 2, |k: int| pair_value(bytes, k).unwrap())
}

/// The pairs of a text can be cut out of it one by one, up to the first that is
/// not a byte: each lies between two character boundaries.
pub open spec fn pairs_separable(text: Seq<char>) -> bool {
    let bytes = vstd::utf8::encode_utf8(text);
    bytes.len() % 2 == 0 ==> forall|k: int|
        0 <= k < bytes.len() / 2 && #[trigger] pairs_valid(bytes, k) ==> {
            &&& vstd::utf8::is_char_boundary(bytes, 2 * k)
            &&& vstd::utf8::is_char_boundary(bytes, 2 * k + 2)
        }
}

/// What a text in hexadecimal stands for, or the complaint about it.
pub open spec fn hex_value(text: Seq<char>) -> Result<Seq<u8>, Seq<char>> {
    let bytes = vstd::utf8::encode_utf8(text);
    if bytes.len() % 2 != 0 {
        Err("hex string must have even length: "@ + text)
    } else if pairs_valid(bytes, bytes.len() as int / 2) {
        Ok(pair_values(bytes))
    } else {
        Err("invalid hex '"@ + text + "': invalid digit found in string"@)
    }
}

/// The value of a hexadecimal digit.
fn digit_value(c: u8) -> (value: Option<u8>)
    ensures
        value == hex_digit(c),
{
    if 48 <= c && c <= 57 {
        Some(c - 48)
    } else if 65 <= c && c <= 70 {
        Some(c - 55)
    } else if 97 <= c && c <= 102 {
        Some(c - 87)
    } else {
        None
    }
}

/// The byte that two characters write.
fn pair_byte(high: u8, low: u8) -> (value: Option<u8>)
    ensures
        value == hex_pair(high, low),
{
    if high == 43 {
        digit_value(low)
    } else {
        match (digit_value(high), digit_value(low)) {
            (Some(h), Some(l)) => Some(16 * h + l),
            _ => None,
        }
    }
}

/// Tells whether the pairs of a text can be cut out of it one by one, as
/// [`parse_hex`] asks.
pub fn is_separable(s: &str) -> (separable: bool)
    ensures
        separable == pairs_separable(s@),
{
    let bytes: &[u8] = s.as_bytes();
    let ghost text_bytes = vstd::utf8::encode_utf8(s@);
    if bytes.len() % 2 != 0 {
        return true;
    }
    let mut k: usize = 0;
    while k < bytes.len() / 2
        invariant
            bytes@ == text_bytes,
            text_bytes == vstd::utf8::encode_utf8(s@),
            bytes@.len() % 2 == 0,
            k <= bytes@.len() / 2,
            pairs_valid(text_bytes, k as int),
            forall|j: int|
                0 <= j < k && #[trigger] pairs_valid(text_bytes, j) ==> {
                    &&& vstd::utf8::is_char_boundary(text_bytes, 2 * j)
                    &&& vstd::utf8::is_char_boundary(text_bytes, 2 * j + 2)
                },
        decreases bytes@.len() / 2 - k,
    {
        if !s.is_char_boundary(2 * k) || !s.is_char_boundary(2 * k + 2) {
            assert(pairs_valid(text_bytes, k as int));
            return false;
        }
        match pair_byte(bytes[2 * k], bytes[2 * k + 1]) {
            Some(_) => {},
            None => {
                assert(pair_value(text_bytes, k as int) is None);
                return true;
            },
        }
        k += 1;
    }
    true
}

/// Reads bytes that are written in hexadecimal. Where the text has an odd number
/// of bytes, or holds a pair that is no byte, returns the complaint about it.
pub fn parse_hex(s: &str) -> (result: Result<Vec<u8>, String>)
    requires
        pairs_separable(s@),
    ensures
        result matches Ok(v) ==> hex_value(s@) == Ok::<Seq<u8>, Seq<char>>(v@),
        result matches Err(e) ==> hex_value(s@) == Err::<Seq<u8>, Seq<char>>(e@),
{
    let bytes: &[u8] = s.as_bytes();
    let ghost text_bytes = vstd::utf8::encode_utf8(s@);
    if bytes.len() % 2 != 0 {
        let mut complaint: String = "hex string must have even length: ".to_owned();
        complaint.append(s);
        return Err(complaint);
    }
    let mut values: Vec<u8> = Vec::new();
    let mut k: usize = 0;
    while k < bytes.len() / 2
        invariant
            bytes@ == text_bytes,
            text_bytes == vstd::utf8::encode_utf8(s@),
            bytes@.len() % 2 == 0,
            k <= bytes@.len() / 2,
            pairs_valid(text_bytes, k as int),
            values@ == pair_values(text_bytes).take(k as int),
        decreases bytes@.len() / 2 - k,
    {
        match pair_byte(bytes[2 * k], bytes[2 * k + 1]) {
            Some(value) => {
                assert(pair_value(text_bytes, k as int) == Some(value));
                values.push(value);
                assert(values@ =~= pair_values(text_bytes).take(k + 1));
            },
            None => {
                assert(pair_value(text_bytes, k as int) is None);
                let mut complaint: String = "invalid hex '".to_owned();
                complaint.append(s);
                complaint.append("': invalid digit found in string");
                return Err(complaint);
            },
        }
        k += 1;
    }
    assert(values@ =~= pair_values(text_bytes));
    Ok(values)
}

/// A text is encoded one part after the other.
proof fn lemma_encode_concat(a: Seq<char>, b: Seq<char>)
    ensures
        vstd::utf8::encode_utf8(a + b) == vstd::utf8::encode_utf8(a) + vstd::utf8::encode_utf8(b),
    decreases a.len(),
{
    if a.len() == 0 {
        assert(a + b =~= b);
        assert(vstd::utf8::encode_utf8(a) =~= seq![]);
        assert(vstd::utf8::encode_utf8(a) + vstd::utf8::encode_utf8(b)
            =~= vstd::utf8::encode_utf8(b));
    } else {
        assert((a + b).drop_first() =~= a.drop_first() + b);
        lemma_encode_concat(a.drop_first(), b);
        let head = vstd::utf8::encode_scalar(a[0] as u32);
        assert(head + (vstd::utf8::encode_utf8(a.drop_first()) + vstd::utf8::encode_utf8(b))
            =~= (head + vstd::utf8::encode_utf8(a.drop_first())) + vstd::utf8::encode_utf8(b));
    }
}

/// Two texts, one after the other, are hexadecimal where each of them is, and then
/// stand for the bytes of the first and then those of the second. The first has an
/// even number of bytes, so that no pair belongs to both.
pub proof fn law_hex_concat(a: Seq<char>, b: Seq<char>)
    requires
        vstd::utf8::encode_utf8(a).len() % 2 == 0,
    ensures
        hex_value(a + b) is Ok <==> hex_value(a) is Ok && hex_value(b) is Ok,
        hex_value(a + b) is Ok ==> hex_value(a + b) == Ok::<Seq<u8>, Seq<char>>(
            hex_value(a)->Ok_0 + hex_value(b)->Ok_0,
        ),
{
    lemma_encode_concat(a, b);
    let x = vstd::utf8::encode_utf8(a);
    let y = vstd::utf8::encode_utf8(b);
    let split = x.len() as int / 2;
    let all = (x + y).len() as int / 2;
    assert forall|k: int| 0 <= k < all implies #[trigger] pair_value(x + y, k) == if k < split {
        pair_value(x, k)
    } else {
        pair_value(y, k - split)
    } by {}
    if hex_value(a) is Ok && hex_value(b) is Ok {
        assert forall|k: int| 0 <= k < all implies #[trigger] pair_value(x + y, k) is Some by {
            if k >= split {
                assert(pair_value(y, k - split) is Some);
            }
        }
    }
    if hex_value(a + b) is Ok {
        assert forall|k: int| 0 <= k < split implies #[trigger] pair_value(x, k) is Some by {
            assert(pair_value(x + y, k) is Some);
        }
        assert forall|k: int| 0 <= k < y.len() as int / 2 implies #[trigger] pair_value(
            y,
            k,
        ) is Some by {
            assert(pair_value(x + y, k + split) is Some);
        }
        assert(pair_values(x + y) =~= pair_values(x) + pair_values(y));
    }
}

/// A text writes bytes in hexadecimal, two digits each, each digit in either case.
pub open spec fn writes(chars: Seq<char>, bytes: Seq<u8>) -> bool {
    &&& chars.len() == 2 * bytes.len()
    &&& forall|i: int|
        0 <= i < chars.len() ==> #[trigger] chars[i] == text::hex_text(bytes, true)[i] || chars[i]
            == text::hex_text(bytes, false)[i]
}

/// Bytes written in hexadecimal, in upper case, in lower case or in both, are read
/// back.
pub proof fn law_hex_reads_back(chars: Seq<char>, bytes: Seq<u8>)
    requires
        writes(chars, bytes),
    ensures
        hex_value(chars) == Ok::<Seq<u8>, Seq<char>>(bytes),
{
    assert(vstd::utf8::is_ascii_chars(chars));
    vstd::utf8::is_ascii_chars_encode_utf8(chars);
    let encoded = vstd::utf8::encode_utf8(chars);
    assert forall|k: int| 0 <= k < bytes.len() implies #[trigger] pair_value(encoded, k) == Some(
        bytes[k],
    ) by {
        assert(encoded[2 * k] == chars[2 * k] as u8);
        assert(encoded[2 * k + 1] == chars[2 * k + 1] as u8);
        assert(chars[2 * k] == text::hex_char(bytes[k] / 16, true) || chars[2 * k]
            == text::hex_char(bytes[k] / 16, false));
        assert(chars[2 * k + 1] == text::hex_char(bytes[k] % 16, true) || chars[2 * k + 1]
            == text::hex_char(bytes[k] % 16, false));
    }
    assert(pair_values(encoded) =~= bytes);
}

/// The pairs of an ASCII text can always be cut out of it.
pub proof fn law_ascii_is_separable(text: Seq<char>)
    requires
        vstd::utf8::is_ascii_chars(text),
    ensures
        pairs_separable(text),
{
    let bytes = vstd::utf8::encode_utf8(text);
    vstd::utf8::is_ascii_chars_encode_utf8(text);
    vstd::utf8::encode_utf8_valid_utf8(text);
    assert forall|i: int| 0 <= i <= bytes.len() implies #[trigger] vstd::utf8::is_char_boundary(
        bytes,
        i,
    ) by {
        if i < bytes.len() {
            assert(bytes[i] == text[i] as u8);
            assert(!vstd::utf8::is_continuation_byte(bytes[i]));
            vstd::utf8::is_char_boundary_iff_not_is_continuation_byte(bytes, i);
        } else {
            vstd::utf8::is_char_boundary_start_end_of_seq(bytes);
        }
    }
}

/// A character is the hexadecimal digit of a value, in either case.
pub open spec fn is_digit(c: char, value: int) -> bool {
    &&& 0 <= value < 16
    &&& c == "0123456789abcdef"@[value] || c == "0123456789ABCDEF"@[value]
}

/// Two characters write a byte: its two digits, the more significant one first, or
/// a plus sign and the one digit that it needs.
pub open spec fn pair_writes(high: char, low: char, byte: u8) -> bool {
    ||| is_digit(high, byte as int / 16) && is_digit(low, byte as int % 16)
    ||| high == '+' && is_digit(low, byte as int)
}

/// The pairs of a text write bytes, one after the other.
pub open spec fn pairs_write(chars: Seq<char>, bytes: Seq<u8>) -> bool {
    &&& chars.len() == 2 * bytes.len()
    &&& forall|k: int|
        0 <= k < bytes.len() ==> pair_writes(chars[2 * k], chars[2 * k + 1], #[trigger] bytes[k])
}

/// A hexadecimal digit is read as its value, and nothing else is read as one.
proof fn lemma_digit_is_read(c: char, value: u8)
    ensures
        is_digit(c, value as int) <==> (c as int) < 0x80 && hex_digit(c as u8) == Some(value),
        '\0' <= c,
{
    reveal_strlit("0123456789abcdef");
    reveal_strlit("0123456789ABCDEF");
    if value < 16 {
        text::lemma_hex_char_is_digit(value);
    }
}

/// A pair of ASCII characters is read as the byte that it writes.
proof fn lemma_pair_is_read(high: char, low: char, byte: u8)
    requires
        (high as int) < 0x80,
        (low as int) < 0x80,
    ensures
        pair_writes(high, low, byte) <==> hex_pair(high as u8, low as u8) == Some(byte),
{
    lemma_digit_is_read(high, byte / 16);
    lemma_digit_is_read(low, byte % 16);
    lemma_digit_is_read(low, byte);
    if !(is_digit(high, byte as int / 16) && is_digit(low, byte as int % 16)) {
        if let (Some(h), Some(l)) = (hex_digit(high as u8), hex_digit(low as u8)) {
            assert((16 * h + l) / 16 == h && (16 * h + l) % 16 == l);
        }
    }
}

/// How many bytes a character takes.
pub open spec fn width(c: char) -> int {
    if (c as int) < 0x80 {
        1
    } else if (c as int) < 0x800 {
        2
    } else if (c as int) < 0x10000 {
        3
    } else {
        4
    }
}

/// A character is encoded with a leading byte and continuation bytes after it.
proof fn lemma_scalar_bytes(c: char)
    ensures
        '\0' <= c,
        ({
            let e = vstd::utf8::encode_scalar(c as u32);
            &&& e.len() == width(c)
            &&& (c as int) < 0x80 ==> e[0] == c as u8
            &&& c as int >= 0x80 ==> e[0] >= 0xc0
            &&& forall|i: int|
                1 <= i < e.len() ==> vstd::utf8::is_continuation_byte(#[trigger] e[i])
        }),
{
    let s = c as u32;
    if s < 0x80 {
        assert((s & 0x7F) as u8 == s as u8) by (bit_vector)
            requires
                s < 0x80,
        ;
    } else {
        assert(0xC0u8 | ((s >> 6) & 0x1F) as u8 >= 0xC0u8) by (bit_vector);
        assert(0xE0u8 | ((s >> 12) & 0x0F) as u8 >= 0xC0u8) by (bit_vector);
        assert(0xF0u8 | ((s >> 18) & 0x7) as u8 >= 0xC0u8) by (bit_vector);
        assert(0x80u8 <= 0x80u8 | (s & 0x3F) as u8 <= 0xBFu8) by (bit_vector);
        assert(0x80u8 <= 0x80u8 | ((s >> 6) & 0x3F) as u8 <= 0xBFu8) by (bit_vector);
        assert(0x80u8 <= 0x80u8 | ((s >> 12) & 0x3F) as u8 <= 0xBFu8) by (bit_vector);
    }
}

/// A text of ASCII bytes is a text of ASCII characters.
proof fn lemma_ascii_bytes(chars: Seq<char>)
    requires
        forall|i: int|
            0 <= i < vstd::utf8::encode_utf8(chars).len() ==> #[trigger] vstd::utf8::encode_utf8(
                chars,
            )[i] < 0x80,
    ensures
        vstd::utf8::is_ascii_chars(chars),
    decreases chars.len(),
{
    if chars.len() > 0 {
        let all = vstd::utf8::encode_utf8(chars);
        let head = vstd::utf8::encode_scalar(chars[0] as u32);
        let rest = vstd::utf8::encode_utf8(chars.drop_first());
        lemma_scalar_bytes(chars[0]);
        assert(all == head + rest);
        assert(all[0] == head[0]);
        assert forall|i: int| 0 <= i < rest.len() implies #[trigger] rest[i] < 0x80 by {
            assert(all[head.len() + i] == rest[i]);
        }
        lemma_ascii_bytes(chars.drop_first());
        assert forall|i: int| 0 <= i < chars.len() implies '\0' <= #[trigger] chars[i]
            <= '\u{7f}' by {
            if i > 0 {
                assert(chars.drop_first()[i - 1] == chars[i]);
            }
        }
    }
}

/// A text is read as those bytes that its pairs write, and as no others. Where its
/// pairs write no bytes, it is not read.
pub proof fn law_hex_is_what_the_pairs_write(chars: Seq<char>, bytes: Seq<u8>)
    ensures
        hex_value(chars) == Ok::<Seq<u8>, Seq<char>>(bytes) <==> pairs_write(chars, bytes),
{
    let encoded = vstd::utf8::encode_utf8(chars);
    if pairs_write(chars, bytes) {
        assert forall|i: int| 0 <= i < chars.len() implies '\0' <= #[trigger] chars[i]
            <= '\u{7f}' by {
            let k = i / 2;
            let byte = bytes[k];
            assert(pair_writes(chars[2 * k], chars[2 * k + 1], byte));
            lemma_digit_is_read(chars[2 * k], byte / 16);
            lemma_digit_is_read(chars[2 * k + 1], byte % 16);
            lemma_digit_is_read(chars[2 * k + 1], byte);
        }
        vstd::utf8::is_ascii_chars_encode_utf8(chars);
        assert forall|k: int| 0 <= k < bytes.len() implies #[trigger] pair_value(encoded, k)
            == Some(bytes[k]) by {
            assert(encoded[2 * k] == chars[2 * k] as u8);
            assert(encoded[2 * k + 1] == chars[2 * k + 1] as u8);
            lemma_pair_is_read(chars[2 * k], chars[2 * k + 1], bytes[k]);
        }
        assert(pair_values(encoded) =~= bytes);
    }
    if hex_value(chars) == Ok::<Seq<u8>, Seq<char>>(bytes) {
        assert forall|i: int| 0 <= i < encoded.len() implies #[trigger] encoded[i] < 0x80 by {
            assert(pair_value(encoded, i / 2) is Some);
        }
        lemma_ascii_bytes(chars);
        vstd::utf8::is_ascii_chars_encode_utf8(chars);
        assert forall|k: int| 0 <= k < bytes.len() implies pair_writes(
            chars[2 * k],
            chars[2 * k + 1],
            #[trigger] bytes[k],
        ) by {
            assert(pair_value(encoded, k) == Some(bytes[k]));
            assert(encoded[2 * k] == chars[2 * k] as u8);
            assert(encoded[2 * k + 1] == chars[2 * k + 1] as u8);
            lemma_pair_is_read(chars[2 * k], chars[2 * k + 1], bytes[k]);
        }
    }
}

/// A text that is not read is complained about: with an odd number of bytes for its
/// length, else for its digits.
pub proof fn law_hex_complaints(chars: Seq<char>)
    ensures
        vstd::utf8::encode_utf8(chars).len() % 2 == 1 ==> hex_value(chars) is Err,
        hex_value(chars) is Err ==> hex_value(chars)->Err_0 == if vstd::utf8::encode_utf8(
            chars,
        ).len() % 2 == 1 {
            "hex string must have even length: "@ + chars
        } else {
            "invalid hex '"@ + chars + "': invalid digit found in string"@
        },
{
}

/// A text with an odd number of bytes, or that is read, has no pair that splits a
/// character.
pub proof fn law_readable_is_separable(chars: Seq<char>)
    requires
        vstd::utf8::encode_utf8(chars).len() % 2 == 1 || hex_value(chars) is Ok,
    ensures
        pairs_separable(chars),
{
    if hex_value(chars) is Ok {
        let encoded = vstd::utf8::encode_utf8(chars);
        assert forall|i: int| 0 <= i < encoded.len() implies #[trigger] encoded[i] < 0x80 by {
            assert(pair_value(encoded, i / 2) is Some);
        }
        lemma_ascii_bytes(chars);
        law_ascii_is_separable(chars);
    }
}

/// The first pair that is not read splits a character unless it is a character of
/// two bytes or two characters of one byte. The pairs of the text can be cut out of
/// it where that pair splits none.
pub proof fn law_split_characters_are_told(a: Seq<char>, b: Seq<char>)
    requires
        hex_value(a) is Ok,
        vstd::utf8::encode_utf8(a + b).len() % 2 == 0,
        b.len() > 0,
        b.len() > 1 ==> hex_value(b.take(2)) is Err,
    ensures
        pairs_separable(a + b) <==> width(b[0]) == 2 || width(b[0]) == 1 && width(b[1]) == 1,
{
    lemma_encode_concat(a, b);
    let x = vstd::utf8::encode_utf8(a);
    let y = vstd::utf8::encode_utf8(b);
    let bytes = x + y;
    let at = x.len() as int / 2;
    vstd::utf8::encode_utf8_valid_utf8(a + b);
    lemma_scalar_bytes(b[0]);
    let head = vstd::utf8::encode_scalar(b[0] as u32);
    let rest = vstd::utf8::encode_utf8(b.drop_first());
    assert(y == head + rest);
    assert(y[0] == head[0]);
    if width(b[0]) == 1 {
        assert(b.len() > 1) by {
            if b.len() == 1 {
                assert(rest =~= seq![]);
            }
        }
    }
    if b.len() > 1 {
        let second = vstd::utf8::encode_scalar(b[1] as u32);
        let third = vstd::utf8::encode_utf8(b.drop_first().drop_first());
        lemma_scalar_bytes(b[1]);
        assert(b.drop_first()[0] == b[1]);
        assert(rest == second + third);
        assert(y =~= head + second + third);
        if b.len() > 2 {
            lemma_scalar_bytes(b[2]);
            assert(b.drop_first().drop_first()[0] == b[2]);
            assert(third[0] == vstd::utf8::encode_scalar(b[2] as u32)[0]);
        } else {
            assert(third =~= seq![]);
        }
    } else {
        assert(rest =~= seq![]);
    }
    // The first pair of `b` is not read.
    assert(pair_value(y, 0) is None) by {
        if pair_value(y, 0) is Some {
            assert(y[0] < 0x80 && y[1] < 0x80);
            assert(width(b[0]) == 1 && width(b[1]) == 1);
            lemma_pair_is_read(b[0], b[1], pair_value(y, 0).unwrap());
            let pair = b.take(2);
            let byte = seq![pair_value(y, 0).unwrap()];
            assert(pairs_write(pair, byte));
            law_hex_is_what_the_pairs_write(pair, byte);
        }
    }
    assert forall|k: int| 0 <= k < at implies #[trigger] pair_value(bytes, k) == pair_value(x, k) by {}
    assert(pair_value(bytes, at) == pair_value(y, 0));
    assert(pairs_valid(bytes, at));
    assert forall|k: int| at < k implies !#[trigger] pairs_valid(bytes, k) by {
        assert(pair_value(bytes, at) is None);
    }
    assert forall|i: int| 0 <= i <= 2 * at implies #[trigger] vstd::utf8::is_char_boundary(
        bytes,
        i,
    ) by {
        if i < 2 * at {
            assert(pair_value(x, i / 2) is Some);
            assert(bytes[i] == x[i]);
        } else {
            assert(bytes[i] == y[0]);
        }
        assert(!vstd::utf8::is_continuation_byte(bytes[i]));
        vstd::utf8::is_char_boundary_iff_not_is_continuation_byte(bytes, i);
    }
    let end = 2 * at + 2;
    if end < bytes.len() {
        assert(bytes[end] == y[2]);
        vstd::utf8::is_char_boundary_iff_not_is_continuation_byte(bytes, end);
    } else {
        vstd::utf8::is_char_boundary_start_end_of_seq(bytes);
    }
    assert(pairs_separable(a + b) <==> vstd::utf8::is_char_boundary(bytes, end));
}

} // verus!
