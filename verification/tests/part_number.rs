use part_upload::part_number::extract_part_number;

#[test]
fn part_number_is_read_from_the_query() {
    assert_eq!(extract_part_number("https://x/y?partNumber=3&sig=abc"), Some(3));
}

#[test]
fn url_without_query_has_no_part_number() {
    assert_eq!(extract_part_number("https://x/y"), None);
}

#[test]
fn empty_url_has_no_part_number() {
    assert_eq!(extract_part_number(""), None);
    assert_eq!(extract_part_number("?"), None);
}

#[test]
fn part_number_may_stand_anywhere_in_the_query() {
    assert_eq!(extract_part_number("https://x/y?sig=abc&partNumber=12"), Some(12));
    assert_eq!(extract_part_number("https://x/y?a=1&partNumber=7&b=2"), Some(7));
    assert_eq!(extract_part_number("?partNumber=1"), Some(1));
    assert_eq!(extract_part_number("/bucket/key?uploadId=u1&partNumber=10000"), Some(10000));
}

#[test]
fn query_without_the_key_has_no_part_number() {
    assert_eq!(extract_part_number("https://x/y?sig=abc"), None);
    assert_eq!(extract_part_number("https://x/y?"), None);
    assert_eq!(extract_part_number("https://x/y?&&"), None);
}

#[test]
fn key_must_match_exactly() {
    assert_eq!(extract_part_number("https://x/y?partnumber=3"), None);
    assert_eq!(extract_part_number("https://x/y?PartNumber=3"), None);
    assert_eq!(extract_part_number("https://x/y?partNumbers=3"), None);
    assert_eq!(extract_part_number("https://x/y?xpartNumber=3"), None);
    assert_eq!(extract_part_number("https://x/y?partNumbe=3"), None);
    assert_eq!(extract_part_number("https://x/y?v=partNumber=3"), None);
}

#[test]
fn part_number_in_the_path_is_not_read() {
    assert_eq!(extract_part_number("https://x/partNumber=3"), None);
    assert_eq!(extract_part_number("https://x/partNumber=3?sig=abc"), None);
}

#[test]
fn value_that_is_no_number_gives_none() {
    assert_eq!(extract_part_number("https://x/y?partNumber=abc"), None);
    assert_eq!(extract_part_number("https://x/y?partNumber="), None);
    assert_eq!(extract_part_number("https://x/y?partNumber"), None);
    assert_eq!(extract_part_number("https://x/y?partNumber=3a"), None);
    assert_eq!(extract_part_number("https://x/y?partNumber=3.0"), None);
    assert_eq!(extract_part_number("https://x/y?partNumber= 3"), None);
    assert_eq!(extract_part_number("https://x/y?partNumber=+"), None);
    assert_eq!(extract_part_number("https://x/y?partNumber=-"), None);
    assert_eq!(extract_part_number("https://x/y?partNumber=--3"), None);
    assert_eq!(extract_part_number("https://x/y?partNumber=3=4"), None);
    assert_eq!(extract_part_number("https://x/y?partNumber=\u{663}"), None);
}

#[test]
fn value_may_have_a_sign_and_leading_zeros() {
    assert_eq!(extract_part_number("https://x/y?partNumber=+3"), Some(3));
    assert_eq!(extract_part_number("https://x/y?partNumber=-3"), Some(-3));
    assert_eq!(extract_part_number("https://x/y?partNumber=0"), Some(0));
    assert_eq!(extract_part_number("https://x/y?partNumber=-0"), Some(0));
    assert_eq!(extract_part_number("https://x/y?partNumber=0007"), Some(7));
    assert_eq!(
        extract_part_number("https://x/y?partNumber=00000000000000000000042"),
        Some(42)
    );
}

#[test]
fn value_must_fit_an_i32() {
    assert_eq!(extract_part_number("https://x/y?partNumber=2147483647"), Some(i32::MAX));
    assert_eq!(extract_part_number("https://x/y?partNumber=2147483648"), None);
    assert_eq!(extract_part_number("https://x/y?partNumber=-2147483648"), Some(i32::MIN));
    assert_eq!(extract_part_number("https://x/y?partNumber=-2147483649"), None);
    assert_eq!(extract_part_number("https://x/y?partNumber=+2147483648"), None);
    assert_eq!(extract_part_number("https://x/y?partNumber=99999999999999999999999"), None);
}

#[test]
fn first_part_number_token_decides() {
    assert_eq!(extract_part_number("https://x/y?partNumber=1&partNumber=2"), Some(1));
    assert_eq!(extract_part_number("https://x/y?partNumber=x&partNumber=2"), None);
}

#[test]
fn only_the_first_question_mark_starts_the_query() {
    assert_eq!(extract_part_number("https://x/y?a=b?partNumber=3"), None);
    assert_eq!(extract_part_number("https://x/y?a=b&partNumber=3?x"), None);
    assert_eq!(extract_part_number("https://x/y??partNumber=3"), None);
    assert_eq!(extract_part_number("https://x/y?partNumber=3&c=d?e"), Some(3));
}

#[test]
fn characters_beyond_ascii_are_passed_over() {
    assert_eq!(extract_part_number("https://x/\u{e9}t\u{e9}?n=\u{1f600}&partNumber=5"), Some(5));
}

#[test]
fn extraction_agrees_with_the_standard_integer_parser() {
    let values = [
        "1", "01", "+1", "-1", "", "+", "-", "1e3", "0x10", " 1", "1 ", "2147483647",
        "2147483648", "-2147483648", "-2147483649", "+-1", "١", "12345678901", "000",
    ];
    for value in values {
        let url = format!("https://host/key?uploadId=abc&partNumber={}&sig=def", value);
        assert_eq!(extract_part_number(&url), value.parse::<i32>().ok());
    }
}
