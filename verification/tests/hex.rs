use spect::client::hex::{is_separable, parse_hex};

#[test]
fn digits_of_both_cases_are_read() {
    assert_eq!(parse_hex("00fFA9"), Ok(vec![0x00, 0xff, 0xa9]));
    assert_eq!(parse_hex("0123456789abcdefABCDEF"), Ok(vec![
        0x01, 0x23, 0x45, 0x67, 0x89, 0xab, 0xcd, 0xef, 0xab, 0xcd, 0xef,
    ]));
}

#[test]
fn empty_text_is_no_bytes() {
    assert_eq!(parse_hex(""), Ok(vec![]));
}

#[test]
fn odd_length_is_refused() {
    assert_eq!(parse_hex("abc"), Err("hex string must have even length: abc".to_string()));
    assert_eq!(parse_hex("z"), Err("hex string must have even length: z".to_string()));
}

#[test]
fn other_characters_are_refused() {
    let complaint = "invalid hex '12gg': invalid digit found in string".to_string();
    assert_eq!(parse_hex("12gg"), Err(complaint));
    let complaint = "invalid hex '-1': invalid digit found in string".to_string();
    assert_eq!(parse_hex("-1"), Err(complaint));
    let complaint = "invalid hex '1+': invalid digit found in string".to_string();
    assert_eq!(parse_hex("1+"), Err(complaint));
    let complaint = "invalid hex '++': invalid digit found in string".to_string();
    assert_eq!(parse_hex("++"), Err(complaint));
    let complaint = "invalid hex ' 1': invalid digit found in string".to_string();
    assert_eq!(parse_hex(" 1"), Err(complaint));
}

#[test]
fn neighbours_of_digits_are_refused() {
    for c in ["/", ":", "@", "G", "`", "g"] {
        let text = format!("0{c}");
        let complaint = format!("invalid hex '{text}': invalid digit found in string");
        assert_eq!(parse_hex(&text), Err(complaint));
    }
}

#[test]
fn plus_sign_and_one_digit_is_a_byte() {
    assert_eq!(parse_hex("+f+0"), Ok(vec![15, 0]));
}

#[test]
fn whole_character_of_two_bytes_is_refused() {
    assert!(is_separable("é"));
    let complaint = "invalid hex 'é': invalid digit found in string".to_string();
    assert_eq!(parse_hex("é"), Err(complaint));
}

#[test]
fn pairs_that_split_a_character_are_told() {
    assert!(!is_separable("0é0"));
    assert!(!is_separable("€0"));
    assert!(is_separable("0é"));
    assert!(is_separable("zz0é0"));
    assert!(is_separable("00ff"));
    assert!(is_separable(""));
}

#[test]
fn pairs_after_a_bad_one_are_not_looked_at() {
    assert!(is_separable("zz0é0"));
    let complaint = "invalid hex 'zz0é0': invalid digit found in string".to_string();
    assert_eq!(parse_hex("zz0é0"), Err(complaint));
}

#[test]
fn texts_are_read_one_after_the_other() {
    let mut both = parse_hex("0102").unwrap();
    both.extend(parse_hex("ff").unwrap());
    assert_eq!(parse_hex("0102ff"), Ok(both));
    assert!(parse_hex("0102fg").is_err());
    assert!(parse_hex("01g2ff").is_err());
}

#[test]
fn written_bytes_are_read_back() {
    let bytes: Vec<u8> = (0..=255).collect();
    let lower: String = bytes.iter().map(|b| format!("{b:02x}")).collect();
    let upper: String = bytes.iter().map(|b| format!("{b:02X}")).collect();
    assert_eq!(parse_hex(&lower), Ok(bytes.clone()));
    assert_eq!(parse_hex(&upper), Ok(bytes.clone()));
    let mixed: String = lower
        .chars()
        .zip(upper.chars())
        .enumerate()
        .map(|(i, (l, u))| if i % 3 == 0 { l } else { u })
        .collect();
    assert_eq!(parse_hex(&mixed), Ok(bytes));
}

#[test]
fn pairs_are_read_as_the_standard_library_reads_them() {
    for high in 0u8..128 {
        for low in 0u8..128 {
            let text = String::from_utf8(vec![high, low]).unwrap();
            let expected = u8::from_str_radix(&text, 16)
                .map(|b| vec![b])
                .map_err(|e| format!("invalid hex '{}': {}", text, e));
            assert!(is_separable(&text));
            assert_eq!(parse_hex(&text), expected);
        }
    }
}
