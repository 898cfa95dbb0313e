//! Text as it is shown to the user and compared with what the user typed.
//!
//! Contracts speak of a string as its sequence of characters.

use vstd::prelude::*;
use vstd::string::StringExecFns;

verus! {

/// The character of a decimal digit.
pub open spec fn decimal_digit(d: nat) -> char
    recommends
        d < 10,
{
    (48 + d) as char
}

/// A number written in decimal, without leading zeros.
pub open spec fn decimal(n: nat) -> Seq<char>
    decreases n,
{
    if n < 10 {
        seq![decimal_digit(n)]
    } else {
        decimal(n / 10).push(decimal_digit(n % 10))
    }
}

/// The character of a hexadecimal digit.
pub open spec fn hex_char(d: u8, upper: bool) -> char
    recommends
        d < 16,
{
    if d < 10 {
        (48 + d) as char
    } else if upper {
        (55 + d) as char
    } else {
        (87 + d) as char
    }
}

/// Bytes written in hexadecimal, two digits each.
pub open spec fn hex_text(bytes: Seq<u8>, upper: bool) -> Seq<char> {
    Seq::new(
        2 * bytes.len(),
        |i: int|
            if i % 2 == 0 {
                hex_char(bytes[i / 2] / 16, upper)
            } else {
                hex_char(bytes[i / 2] % 16, upper)
            },
    )
}

/// Writes a number in decimal.
pub fn decimal_text(n: usize) -> (text: String)
    ensures
        text@ == decimal(n as nat),
    decreases n,
{
    let mut text: String = if n < 10 {
        String::new()
    } else {
        decimal_text(n / 10)
    };
    let digit: &str = digit_text(n % 10);
    text.append(digit);
    text
}

/// A single decimal digit as text.
fn digit_text(d: usize) -> (text: &'static str)
    requires
        d < 10,
    ensures
        text@ == seq![decimal_digit(d as nat)],
{
    proof {
        reveal_strlit("0");
        reveal_strlit("1");
        reveal_strlit("2");
        reveal_strlit("3");
        reveal_strlit("4");
        reveal_strlit("5");
        reveal_strlit("6");
        reveal_strlit("7");
        reveal_strlit("8");
        reveal_strlit("9");
    }
    match d {
        0 => "0",
        1 => "1",
        2 => "2",
        3 => "3",
        4 => "4",
        5 => "5",
        6 => "6",
        7 => "7",
        8 => "8",
        _ => "9",
    }
}

/// Tells whether a character occurs in a text.
pub fn contains_char(text: &str, wanted: char) -> (found: bool)
    ensures
        found == text@.contains(wanted),
{
    let mut rest = text.chars();
    let ghost mut seen: int = 0;
    assert(vstd::std_specs::iter::IteratorSpec::remaining(&rest) =~= text@.skip(0));
    loop
        invariant
            0 <= seen <= text@.len(),
            vstd::std_specs::iter::IteratorSpec::remaining(&rest) == text@.skip(seen),
            vstd::std_specs::iter::IteratorSpec::obeys_prophetic_iter_laws(&rest),
            forall|i: int| 0 <= i < seen ==> text@[i] != wanted,
        decreases text@.len() - seen,
    {
        match rest.next() {
            None => {
                return false;
            },
            Some(c) => {
                assert(c == text@[seen]);
                if c == wanted {
                    return true;
                }
                assert(text@.skip(seen).drop_first() =~= text@.skip(seen + 1));
                proof {
                    seen = seen + 1;
                }
            },
        }
    }
}

/// Tells whether a text begins with another one.
pub fn starts_with(text: &str, prefix: &str) -> (holds: bool)
    ensures
        holds == prefix@.is_prefix_of(text@),
{
    let mut rest = text.chars();
    let mut wanted = prefix.chars();
    let ghost mut seen: int = 0;
    assert(vstd::std_specs::iter::IteratorSpec::remaining(&rest) =~= text@.skip(0));
    assert(vstd::std_specs::iter::IteratorSpec::remaining(&wanted) =~= prefix@.skip(0));
    loop
        invariant
            0 <= seen <= text@.len(),
            seen <= prefix@.len(),
            vstd::std_specs::iter::IteratorSpec::remaining(&rest) == text@.skip(seen),
            vstd::std_specs::iter::IteratorSpec::remaining(&wanted) == prefix@.skip(seen),
            vstd::std_specs::iter::IteratorSpec::obeys_prophetic_iter_laws(&rest),
            vstd::std_specs::iter::IteratorSpec::obeys_prophetic_iter_laws(&wanted),
            forall|i: int| 0 <= i < seen ==> text@[i] == prefix@[i],
        decreases text@.len() - seen,
    {
        let next_wanted: Option<char> = wanted.next();
        match next_wanted {
            None => {
                assert(prefix@ =~= text@.subrange(0, prefix@.len() as int));
                return true;
            },
            Some(w) => {
                match rest.next() {
                    None => {
                        return false;
                    },
                    Some(c) => {
                        if c != w {
                            assert(text@[seen] != prefix@[seen]);
                            return false;
                        }
                    },
                }
            },
        }
        assert(text@.skip(seen).drop_first() =~= text@.skip(seen + 1));
        assert(prefix@.skip(seen).drop_first() =~= prefix@.skip(seen + 1));
        proof {
            seen = seen + 1;
        }
    }
}

/// The number that decimal digits write.
pub open spec fn number(digits: Seq<char>) -> int
    decreases digits.len(),
{
    if digits.len() == 0 {
        0
    } else {
        10 * number(digits.drop_last()) + (digits.last() as int - '0' as int)
    }
}

/// A number is written with decimal digits that give it back, and it begins with
/// a zero only where it is zero.
pub proof fn law_decimal_reads_back(n: nat)
    ensures
        number(decimal(n)) == n,
        decimal(n).len() > 0,
        forall|i: int| 0 <= i < decimal(n).len() ==> '0' <= #[trigger] decimal(n)[i] <= '9',
        decimal(n).len() > 1 ==> decimal(n)[0] != '0',
    decreases n,
{
    reveal_with_fuel(number, 2);
    if n < 10 {
        assert(decimal(n).drop_last() =~= seq![]);
    } else {
        law_decimal_reads_back(n / 10);
        assert(decimal(n).drop_last() =~= decimal(n / 10));
        if n < 100 {
            assert(decimal(n / 10) == seq![decimal_digit(n / 10)]);
        }
    }
}

/// Bytes are written in hexadecimal with two digits each, the more significant one
/// first.
pub proof fn law_hex_text_is_digits(bytes: Seq<u8>, upper: bool, i: int)
    requires
        0 <= i < bytes.len(),
    ensures
        hex_text(bytes, upper).len() == 2 * bytes.len(),
        !upper ==> hex_text(bytes, upper)[2 * i] == "0123456789abcdef"@[bytes[i] as int / 16],
        !upper ==> hex_text(bytes, upper)[2 * i + 1] == "0123456789abcdef"@[bytes[i] as int % 16],
        upper ==> hex_text(bytes, upper)[2 * i] == "0123456789ABCDEF"@[bytes[i] as int / 16],
        upper ==> hex_text(bytes, upper)[2 * i + 1] == "0123456789ABCDEF"@[bytes[i] as int % 16],
{
    lemma_hex_char_is_digit(bytes[i] / 16);
    lemma_hex_char_is_digit(bytes[i] % 16);
}

/// The character of a hexadecimal digit is the one at its value.
pub proof fn lemma_hex_char_is_digit(d: u8)
    requires
        d < 16,
    ensures
        hex_char(d, false) == "0123456789abcdef"@[d as int],
        hex_char(d, true) == "0123456789ABCDEF"@[d as int],
{
    reveal_strlit("0123456789abcdef");
    reveal_strlit("0123456789ABCDEF");
}

} // verus!
