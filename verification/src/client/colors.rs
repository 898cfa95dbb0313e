//! Colors given on the command line, one for each pixel.

use crate::client::hex::{self, is_separable, parse_hex};
use crate::text::{self, decimal_text};
use vstd::prelude::*;
use vstd::string::StringExecFns;

verus! {

/// Bytes of one pixel: red, green and blue, and white too unless told otherwise.
pub open spec fn pixel_bytes(rgb: bool) -> nat {
    if rgb {
        3
    } else {
        4
    }
}

/// Bytes of one pixel.
pub fn bytes_per_pixel(rgb: bool) -> (bytes: usize)
    ensures
        bytes == pixel_bytes(rgb),
{
    if rgb {
        3
    } else {
        4
    }
}

/// What one color stands for, or the complaint about it.
pub open spec fn color_value(rgb: bool, color: Seq<char>) -> Result<Seq<u8>, Seq<char>> {
    let len = vstd::utf8::encode_utf8(color).len();
    if len != 2 * pixel_bytes(rgb) {
        Err(
            "error: expected "@ + text::decimal(2 * pixel_bytes(rgb)) + " hex chars, got "@
                + text::decimal(len) + ": "@ + color,
        )
    } else {
        match hex::hex_value(color) {
            Ok(bytes) => Ok(bytes),
            Err(complaint) => Err("error: "@ + complaint),
        }
    }
}

/// What the first `count` colors stand for, one after the other, or the complaint
/// about the first of them that stands for nothing.
pub open spec fn colors_value(rgb: bool, colors: Seq<String>, count: nat) -> Result<
    Seq<u8>,
    Seq<char>,
>
    decreases count,
{
    if count == 0 {
        Ok(seq![])
    } else {
        match colors_value(rgb, colors, (count - 1) as nat) {
            Err(complaint) => Err(complaint),
            Ok(raw) => match color_value(rgb, colors[count - 1]@) {
                Err(complaint) => Err(complaint),
                Ok(bytes) => Ok(raw + bytes),
            },
        }
    }
}

/// A color has the right length, so that its pairs are looked at.
pub open spec fn color_fits(rgb: bool, color: Seq<char>) -> bool {
    vstd::utf8::encode_utf8(color).len() == 2 * pixel_bytes(rgb)
}

/// The pairs of each color can be cut out of it, up to the first color that
/// stands for nothing.
pub open spec fn colors_separable(rgb: bool, colors: Seq<String>) -> bool {
    forall|i: int|
        0 <= i < colors.len() && colors_value(rgb, colors, i as nat) is Ok && color_fits(
            rgb,
            #[trigger] colors[i]@,
        ) ==> hex::pairs_separable(colors[i]@)
}

/// Reads one color.
fn parse_color(rgb: bool, color: &str) -> (result: Result<Vec<u8>, String>)
    requires
        color_fits(rgb, color@) ==> hex::pairs_separable(color@),
    ensures
        result matches Ok(v) ==> color_value(rgb, color@) == Ok::<Seq<u8>, Seq<char>>(v@),
        result matches Err(e) ==> color_value(rgb, color@) == Err::<Seq<u8>, Seq<char>>(e@),
{
    let hex_len: usize = bytes_per_pixel(rgb) * 2;
    let len: usize = color.as_bytes().len();
    if len != hex_len {
        let mut complaint: String = "error: expected ".to_owned();
        complaint.append(decimal_text(hex_len).as_str());
        complaint.append(" hex chars, got ");
        complaint.append(decimal_text(len).as_str());
        complaint.append(": ");
        complaint.append(color);
        return Err(complaint);
    }
    match parse_hex(color) {
        Ok(bytes) => Ok(bytes),
        Err(e) => {
            let mut complaint: String = "error: ".to_owned();
            complaint.append(e.as_str());
            Err(complaint)
        },
    }
}

/// Tells whether the colors can be taken apart, as [`parse_colors`] asks.
pub fn are_separable(rgb: bool, colors: &Vec<String>) -> (separable: bool)
    ensures
        separable == colors_separable(rgb, colors@),
{
    let mut i: usize = 0;
    while i < colors.len()
        invariant
            i <= colors@.len(),
            colors_value(rgb, colors@, i as nat) is Ok,
            forall|j: int|
                0 <= j < i && color_fits(rgb, #[trigger] colors@[j]@) ==> hex::pairs_separable(
                    colors@[j]@,
                ),
        decreases colors@.len() - i,
    {
        let color: &str = colors[i].as_str();
        let fits: bool = color.as_bytes().len() == bytes_per_pixel(rgb) * 2;
        if fits && !is_separable(color) {
            assert(!hex::pairs_separable(colors@[i as int]@));
            return false;
        }
        match parse_color(rgb, color) {
            Ok(_) => {},
            Err(_) => {
                proof {
                    lemma_failure_stays(rgb, colors@, i + 1);
                    assert forall|j: int|
                        0 <= j < colors@.len() && colors_value(rgb, colors@, j as nat) is Ok
                            && color_fits(
                            rgb,
                            #[trigger] colors@[j]@,
                        ) implies hex::pairs_separable(colors@[j]@) by {
                        if j > i {
                            assert(colors_value(rgb, colors@, j as nat) is Err);
                        }
                    }
                }
                return true;
            },
        }
        i += 1;
    }
    true
}

/// Once a color stands for nothing, so do the colors up to any later one.
proof fn lemma_failure_stays(rgb: bool, colors: Seq<String>, count: int)
    requires
        0 <= count,
        colors_value(rgb, colors, count as nat) is Err,
    ensures
        forall|n: int|
            count <= n ==> #[trigger] colors_value(rgb, colors, n as nat) == colors_value(
                rgb,
                colors,
                count as nat,
            ),
{
    assert forall|n: int| count <= n implies #[trigger] colors_value(rgb, colors, n as nat)
        == colors_value(rgb, colors, count as nat) by {
        lemma_failure_stays_at(rgb, colors, count as nat, n as nat);
    }
}

proof fn lemma_failure_stays_at(rgb: bool, colors: Seq<String>, count: nat, n: nat)
    requires
        count <= n,
        colors_value(rgb, colors, count) is Err,
    ensures
        colors_value(rgb, colors, n) == colors_value(rgb, colors, count),
    decreases n,
{
    if count < n {
        lemma_failure_stays_at(rgb, colors, count, (n - 1) as nat);
    }
}

/// Reads the colors and puts their bytes one after the other. Where one of them
/// has the wrong length or is not hexadecimal, returns the complaint about the
/// first such color.
pub fn parse_colors(rgb: bool, colors: &Vec<String>) -> (result: Result<Vec<u8>, String>)
    requires
        colors_separable(rgb, colors@),
    ensures
        result matches Ok(v) ==> colors_value(rgb, colors@, colors@.len()) == Ok::<
            Seq<u8>,
            Seq<char>,
        >(v@),
        result matches Err(e) ==> colors_value(rgb, colors@, colors@.len()) == Err::<
            Seq<u8>,
            Seq<char>,
        >(e@),
{
    let mut raw: Vec<u8> = Vec::new();
    let mut i: usize = 0;
    assert(raw@ =~= seq![]);
    while i < colors.len()
        invariant
            i <= colors@.len(),
            colors_separable(rgb, colors@),
            colors_value(rgb, colors@, i as nat) == Ok::<Seq<u8>, Seq<char>>(raw@),
        decreases colors@.len() - i,
    {
        assert(color_fits(rgb, colors@[i as int]@) ==> hex::pairs_separable(colors@[i as int]@));
        match parse_color(rgb, colors[i].as_str()) {
            Ok(bytes) => {
                let ghost before = raw@;
                raw.extend_from_slice(bytes.as_slice());
                assert(raw@ =~= before + bytes@);
            },
            Err(e) => {
                proof {
                    lemma_failure_stays(rgb, colors@, i + 1);
                }
                return Err(e);
            },
        }
        i += 1;
    }
    Ok(raw)
}

/// Colors that all stand for something give each pixel its bytes, in their order:
/// the bytes of color `i` are those of pixel `i`, and there are no others.
pub proof fn law_colors_fill_pixels(rgb: bool, colors: Seq<String>, count: nat)
    requires
        count <= colors.len(),
        colors_value(rgb, colors, count) is Ok,
    ensures
        colors_value(rgb, colors, count)->Ok_0.len() == count * pixel_bytes(rgb),
        colors_value(rgb, colors, count)->Ok_0.len() / pixel_bytes(rgb) == count,
        forall|i: int|
            #![trigger colors[i]]
            0 <= i < count ==> color_value(rgb, colors[i]@) == Ok::<Seq<u8>, Seq<char>>(
                colors_value(rgb, colors, count)->Ok_0.subrange(
                    i * pixel_bytes(rgb),
                    (i + 1) * pixel_bytes(rgb),
                ),
            ),
    decreases count,
{
    let width = pixel_bytes(rgb) as int;
    if count > 0 {
        let before = (count - 1) as nat;
        law_colors_fill_pixels(rgb, colors, before);
        let raw = colors_value(rgb, colors, before)->Ok_0;
        let last = color_value(rgb, colors[before as int]@)->Ok_0;
        let all = colors_value(rgb, colors, count)->Ok_0;
        assert(all == raw + last);
        assert(last.len() == width);
        assert(count * width == before * width + width) by (nonlinear_arith)
            requires
                count == before + 1,
        ;
        assert forall|i: int| #![trigger colors[i]] 0 <= i < count implies color_value(
            rgb,
            colors[i]@,
        ) == Ok::<Seq<u8>, Seq<char>>(all.subrange(i * width, (i + 1) * width)) by {
            if i < before {
                assert(0 <= i * width && (i + 1) * width <= before * width && i * width <= (i + 1)
                    * width) by (nonlinear_arith)
                    requires
                        0 <= i < before,
                        width >= 0,
                ;
                assert(all.subrange(i * width, (i + 1) * width) =~= raw.subrange(
                    i * width,
                    (i + 1) * width,
                ));
            } else {
                assert(all.subrange(i * width, (i + 1) * width) =~= last);
            }
        }
    }
    assert((count * width) / width == count) by (nonlinear_arith)
        requires
            width == 3 || width == 4,
    ;
}

/// A complaint is about the first color that stands for nothing.
pub proof fn law_first_complaint(rgb: bool, colors: Seq<String>, count: nat) -> (first: int)
    requires
        count <= colors.len(),
        colors_value(rgb, colors, count) is Err,
    ensures
        0 <= first < count,
        color_value(rgb, colors[first]@) == Err::<Seq<u8>, Seq<char>>(
            colors_value(rgb, colors, count)->Err_0,
        ),
        forall|i: int|
            #![trigger colors[i]]
            0 <= i < first ==> color_value(rgb, colors[i]@) is Ok,
    decreases count,
{
    let before = (count - 1) as nat;
    if colors_value(rgb, colors, before) is Err {
        law_first_complaint(rgb, colors, before)
    } else {
        law_colors_fill_pixels(rgb, colors, before);
        before as int
    }
}

/// A color stands for the bytes that its pairs write, where they are those of one
/// pixel, and for no others.
pub proof fn law_color_is_what_it_writes(rgb: bool, color: Seq<char>, bytes: Seq<u8>)
    ensures
        color_value(rgb, color) == Ok::<Seq<u8>, Seq<char>>(bytes) <==> hex::pairs_write(
            color,
            bytes,
        ) && bytes.len() == if rgb {
            3int
        } else {
            4
        },
{
    hex::law_hex_is_what_the_pairs_write(color, bytes);
}

/// A color that stands for nothing is complained about: with the wrong number of
/// bytes for its length, else for its digits.
pub proof fn law_color_complaints(rgb: bool, color: Seq<char>)
    ensures
        ({
            let len = vstd::utf8::encode_utf8(color).len();
            let fits = len == if rgb {
                6int
            } else {
                8
            };
            &&& !fits ==> color_value(rgb, color) is Err
            &&& color_value(rgb, color) is Err ==> color_value(rgb, color)->Err_0 == if !fits {
                "error: expected "@ + (if rgb {
                    "6"@
                } else {
                    "8"@
                }) + " hex chars, got "@ + text::decimal(len) + ": "@ + color
            } else {
                "error: "@ + ("invalid hex '"@ + color + "': invalid digit found in string"@)
            }
        }),
{
    reveal_strlit("6");
    reveal_strlit("8");
    assert(text::decimal(6) =~= "6"@);
    assert(text::decimal(8) =~= "8"@);
    hex::law_hex_complaints(color);
}

/// Colors stand for something up to a place just where each of them does.
proof fn lemma_all_or_none(rgb: bool, colors: Seq<String>, count: nat)
    requires
        count <= colors.len(),
    ensures
        colors_value(rgb, colors, count) is Ok <==> forall|i: int|
            #![trigger colors[i]]
            0 <= i < count ==> color_value(rgb, colors[i]@) is Ok,
{
    if colors_value(rgb, colors, count) is Ok {
        law_colors_fill_pixels(rgb, colors, count);
    } else {
        let first = law_first_complaint(rgb, colors, count);
        assert(color_value(rgb, colors[first]@) is Err);
    }
}

/// Colors whose pairs write the bytes of pixels stand for those bytes, in the order
/// of the colors.
pub proof fn law_colors_are_what_they_write(
    rgb: bool,
    colors: Seq<String>,
    pixels: Seq<Seq<u8>>,
    width: int,
)
    requires
        width == if rgb {
            3int
        } else {
            4
        },
        pixels.len() == colors.len(),
        forall|i: int|
            #![trigger colors[i]]
            #![trigger pixels[i]]
            0 <= i < colors.len() ==> hex::pairs_write(colors[i]@, pixels[i]) && pixels[i].len()
                == width,
    ensures
        colors_value(rgb, colors, colors.len()) is Ok,
        colors_value(rgb, colors, colors.len())->Ok_0.len() == colors.len() * width,
        forall|i: int|
            #![trigger pixels[i]]
            0 <= i < pixels.len() ==> colors_value(rgb, colors, colors.len())->Ok_0.subrange(
                i * width,
                (i + 1) * width,
            ) == pixels[i],
{
    assert forall|i: int| #![trigger colors[i]] 0 <= i < colors.len() implies color_value(
        rgb,
        colors[i]@,
    ) == Ok::<Seq<u8>, Seq<char>>(pixels[i]) by {
        law_color_is_what_it_writes(rgb, colors[i]@, pixels[i]);
    }
    lemma_all_or_none(rgb, colors, colors.len());
    law_colors_fill_pixels(rgb, colors, colors.len());
    assert forall|i: int| #![trigger pixels[i]] 0 <= i < pixels.len() implies colors_value(
        rgb,
        colors,
        colors.len(),
    )->Ok_0.subrange(i * width, (i + 1) * width) == pixels[i] by {
        assert(color_value(rgb, colors[i]@) == Ok::<Seq<u8>, Seq<char>>(pixels[i]));
    }
}

/// Where one color stands for nothing and all before it stand for something, the
/// complaint about the colors is the one about that color, whatever comes after.
pub proof fn law_first_bad_color_is_told(rgb: bool, colors: Seq<String>, first: int)
    requires
        0 <= first < colors.len(),
        color_value(rgb, colors[first]@) is Err,
        forall|i: int|
            #![trigger colors[i]]
            0 <= i < first ==> color_value(rgb, colors[i]@) is Ok,
    ensures
        colors_value(rgb, colors, colors.len()) == color_value(rgb, colors[first]@),
{
    lemma_all_or_none(rgb, colors, colors.len());
    assert(colors_value(rgb, colors, colors.len()) is Err) by {
        assert(color_value(rgb, colors[first]@) is Err);
    }
    let told = law_first_complaint(rgb, colors, colors.len());
    assert(color_value(rgb, colors[told]@) is Err);
}

/// The colors can be taken apart just where the pairs can be cut out of each color
/// of the right length that comes before any color that stands for nothing, or is
/// the first such color.
pub proof fn law_colors_are_taken_apart(rgb: bool, colors: Seq<String>)
    ensures
        colors_separable(rgb, colors) <==> forall|i: int|
            #![trigger colors[i]]
            0 <= i < colors.len() && (forall|j: int|
                #![trigger colors[j]]
                0 <= j < i ==> color_value(rgb, colors[j]@) is Ok)
                && vstd::utf8::encode_utf8(colors[i]@).len() == (if rgb {
                6int
            } else {
                8
            }) ==> hex::pairs_separable(colors[i]@),
{
    assert forall|i: int| #![trigger colors[i]] 0 <= i < colors.len() implies (colors_value(
        rgb,
        colors,
        i as nat,
    ) is Ok <==> forall|j: int|
        #![trigger colors[j]]
        0 <= j < i ==> color_value(rgb, colors[j]@) is Ok) by {
        lemma_all_or_none(rgb, colors, i as nat);
    }
}

} // verus!
