use spect::client::colors::{are_separable, bytes_per_pixel, parse_colors};

fn strings(colors: &[&str]) -> Vec<String> {
    colors.iter().map(|c| c.to_string()).collect()
}

#[test]
fn pixels_have_three_or_four_bytes() {
    assert_eq!(bytes_per_pixel(true), 3);
    assert_eq!(bytes_per_pixel(false), 4);
}

#[test]
fn colors_fill_pixels_in_order() {
    let colors = strings(&["010203", "a0b0c0"]);
    assert_eq!(parse_colors(true, &colors), Ok(vec![1, 2, 3, 0xa0, 0xb0, 0xc0]));
    let colors = strings(&["01020304", "FFFFFFFF"]);
    assert_eq!(parse_colors(false, &colors), Ok(vec![1, 2, 3, 4, 255, 255, 255, 255]));
}

#[test]
fn no_colors_are_no_bytes() {
    assert_eq!(parse_colors(true, &vec![]), Ok(vec![]));
    assert!(are_separable(true, &vec![]));
}

#[test]
fn colors_of_the_wrong_length_are_refused() {
    assert_eq!(
        parse_colors(true, &strings(&["01020304"])),
        Err("error: expected 6 hex chars, got 8: 01020304".to_string()),
    );
    assert_eq!(
        parse_colors(false, &strings(&["010203"])),
        Err("error: expected 8 hex chars, got 6: 010203".to_string()),
    );
    assert_eq!(
        parse_colors(false, &strings(&[""])),
        Err("error: expected 8 hex chars, got 0: ".to_string()),
    );
}

#[test]
fn length_is_counted_in_bytes() {
    assert_eq!(
        parse_colors(true, &strings(&["ééé0"])),
        Err("error: expected 6 hex chars, got 7: ééé0".to_string()),
    );
}

#[test]
fn colors_that_are_not_hexadecimal_are_refused() {
    assert_eq!(
        parse_colors(true, &strings(&["01020x"])),
        Err("error: invalid hex '01020x': invalid digit found in string".to_string()),
    );
}

#[test]
fn complaint_is_about_the_first_bad_color() {
    let colors = strings(&["010203", "zzzzzz", "1"]);
    assert_eq!(
        parse_colors(true, &colors),
        Err("error: invalid hex 'zzzzzz': invalid digit found in string".to_string()),
    );
    let colors = strings(&["010203", "1", "zzzzzz"]);
    assert_eq!(
        parse_colors(true, &colors),
        Err("error: expected 6 hex chars, got 1: 1".to_string()),
    );
}

#[test]
fn colors_that_split_a_character_are_told() {
    assert!(!are_separable(true, &strings(&["010203", "0é000"])));
    assert!(are_separable(true, &strings(&["1", "0é000"])));
    assert!(are_separable(true, &strings(&["0é0"])));
    assert!(are_separable(true, &strings(&["zz0é0", "0é000"])));
    assert!(are_separable(true, &strings(&["010203"])));
}
