use serial_exchange::baud::valid_baud;

fn rejected(text: &str) -> String {
    format!("Invalid baud rate '{}' specified", text)
}

#[test]
fn baud_of_plain_digits() {
    assert_eq!(valid_baud("9600"), Ok(9600));
    assert_eq!(valid_baud("115200"), Ok(115200));
    assert_eq!(valid_baud("0"), Ok(0));
    assert_eq!(valid_baud("7"), Ok(7));
}

#[test]
fn baud_with_leading_zeros() {
    assert_eq!(valid_baud("0009600"), Ok(9600));
    assert_eq!(valid_baud("00000000000000000001"), Ok(1));
}

#[test]
fn baud_with_plus_sign() {
    assert_eq!(valid_baud("+9600"), Ok(9600));
    assert_eq!(valid_baud("+0"), Ok(0));
}

#[test]
fn baud_at_the_upper_limit() {
    assert_eq!(valid_baud("4294967295"), Ok(u32::MAX));
    assert_eq!(valid_baud("4294967296"), Err(rejected("4294967296")));
    assert_eq!(valid_baud("4294967300"), Err(rejected("4294967300")));
    assert_eq!(valid_baud("99999999999999999999"), Err(rejected("99999999999999999999")));
}

#[test]
fn baud_of_empty_text_is_rejected() {
    assert_eq!(valid_baud(""), Err("Invalid baud rate '' specified".to_string()));
}

#[test]
fn baud_of_sign_alone_is_rejected() {
    assert_eq!(valid_baud("+"), Err(rejected("+")));
    assert_eq!(valid_baud("-"), Err(rejected("-")));
    assert_eq!(valid_baud("++1"), Err(rejected("++1")));
}

#[test]
fn baud_of_negative_number_is_rejected() {
    assert_eq!(valid_baud("-9600"), Err(rejected("-9600")));
    assert_eq!(valid_baud("-0"), Err(rejected("-0")));
}

#[test]
fn baud_with_other_characters_is_rejected() {
    assert_eq!(valid_baud("96o0"), Err(rejected("96o0")));
    assert_eq!(valid_baud(" 9600"), Err(rejected(" 9600")));
    assert_eq!(valid_baud("9600 "), Err(rejected("9600 ")));
    assert_eq!(valid_baud("9_600"), Err(rejected("9_600")));
    assert_eq!(valid_baud("9600\n"), Err(rejected("9600\n")));
    assert_eq!(valid_baud("0x10"), Err(rejected("0x10")));
    assert_eq!(valid_baud("1e3"), Err(rejected("1e3")));
    assert_eq!(valid_baud("9600.0"), Err(rejected("9600.0")));
}

#[test]
fn baud_outside_ascii_is_rejected() {
    assert_eq!(valid_baud("９６００"), Err(rejected("９６００")));
    assert_eq!(valid_baud("96é"), Err(rejected("96é")));
    assert_eq!(valid_baud("+٣"), Err(rejected("+٣")));
}

#[test]
fn baud_agrees_with_the_standard_parser() {
    let samples = [
        "", "0", "1", "42", "+42", "-42", "+", "-", "+-1", "00", "+007", "4294967295",
        "4294967296", "42949672950", "18446744073709551616", "12a", "a12", " 12", "12 ", "1 2",
        "١٢", "1_000", "+ 1", "2400", "19200", "57600", "/", ":", "09", "+09",
    ];
    for text in samples {
        let expected = text.parse::<u32>().map_err(|_| rejected(text));
        assert_eq!(valid_baud(text), expected);
    }
}
