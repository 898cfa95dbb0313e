use spect::text::{contains_char, decimal_text, starts_with};

#[test]
fn numbers_are_written_in_decimal() {
    assert_eq!(decimal_text(0), "0");
    assert_eq!(decimal_text(9), "9");
    assert_eq!(decimal_text(10), "10");
    assert_eq!(decimal_text(6144), "6144");
    assert_eq!(decimal_text(usize::MAX), usize::MAX.to_string());
}

#[test]
fn characters_are_found() {
    assert!(contains_char("AA:BB", ':'));
    assert!(contains_char("é:", ':'));
    assert!(!contains_char("Spect", ':'));
    assert!(!contains_char("", ':'));
}

#[test]
fn prefixes_are_recognised() {
    assert!(starts_with("Spect-Strip", "Spect"));
    assert!(starts_with("Spect", "Spect"));
    assert!(starts_with("Spect", ""));
    assert!(!starts_with("Spect", "Spect-Strip"));
    assert!(!starts_with("Spect-Strip", "Strip"));
    assert!(!starts_with("é", "è"));
}
