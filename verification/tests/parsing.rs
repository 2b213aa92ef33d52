use vulgar_fractions::parsing::parse_arguments;
use vulgar_fractions::parsing::parse_i64;

#[test]
fn parses_plain_numbers() {
    assert_eq!(parse_i64("0"), Ok(0));
    assert_eq!(parse_i64("42"), Ok(42));
    assert_eq!(parse_i64("007"), Ok(7));
}

#[test]
fn parses_signed_numbers() {
    assert_eq!(parse_i64("-5"), Ok(-5));
    assert_eq!(parse_i64("+5"), Ok(5));
    assert_eq!(parse_i64("-0"), Ok(0));
}

#[test]
fn parses_the_extreme_values() {
    assert_eq!(parse_i64("9223372036854775807"), Ok(i64::MAX));
    assert_eq!(parse_i64("-9223372036854775808"), Ok(i64::MIN));
}

#[test]
fn rejects_malformed_numbers() {
    assert_eq!(parse_i64(""), Err(()));
    assert_eq!(parse_i64("-"), Err(()));
    assert_eq!(parse_i64("+"), Err(()));
    assert_eq!(parse_i64("12a"), Err(()));
    assert_eq!(parse_i64("1.5"), Err(()));
    assert_eq!(parse_i64(" 1"), Err(()));
    assert_eq!(parse_i64("½"), Err(()));
}

#[test]
fn rejects_values_out_of_range() {
    assert_eq!(parse_i64("9223372036854775808"), Err(()));
    assert_eq!(parse_i64("-9223372036854775809"), Err(()));
    assert_eq!(parse_i64("99999999999999999999"), Err(()));
}

#[test]
fn agrees_with_the_standard_decimal_parse() {
    let samples = [
        "0", "-0", "+0", "17", "-17", "+17", "007", "-007", "1234567890",
        "9223372036854775807", "9223372036854775808", "-9223372036854775808",
        "-9223372036854775809", "", "-", "+", "+-1", "--1", "1 ", "0x10", "½",
    ];
    for sample in samples {
        assert_eq!(parse_i64(sample).ok(), sample.parse::<i64>().ok(), "on {:?}", sample);
    }
}

#[test]
fn reads_the_two_positional_arguments() {
    let arguments = vec!["frac".to_string(), "3".to_string(), "-4".to_string()];
    assert_eq!(parse_arguments(&arguments), Ok((3, -4)));
}

#[test]
fn ignores_arguments_after_the_second() {
    let arguments = vec![
        "frac".to_string(),
        "1".to_string(),
        "2".to_string(),
        "extra".to_string(),
    ];
    assert_eq!(parse_arguments(&arguments), Ok((1, 2)));
}

#[test]
fn rejects_missing_arguments() {
    assert_eq!(parse_arguments(&vec![]), Err(()));
    assert_eq!(parse_arguments(&vec!["frac".to_string()]), Err(()));
    assert_eq!(
        parse_arguments(&vec!["frac".to_string(), "3".to_string()]),
        Err(())
    );
}

#[test]
fn rejects_malformed_arguments() {
    let arguments = vec!["frac".to_string(), "three".to_string(), "4".to_string()];
    assert_eq!(parse_arguments(&arguments), Err(()));
    let arguments = vec!["frac".to_string(), "3".to_string(), "4.0".to_string()];
    assert_eq!(parse_arguments(&arguments), Err(()));
}
