use cocktail_catalogue::validators::min_length;

#[test]
fn min_length_accepts_long_enough_strings() {
    assert!(min_length("abc", 3).is_ok());
    assert!(min_length("abcd", 3).is_ok());
    assert!(min_length("", 0).is_ok());
}

#[test]
fn min_length_refuses_short_strings_with_message() {
    let err = min_length("ab", 3).unwrap_err();
    assert_eq!(err.message, "the string length is 2, must be greater than or equal to 3");
}

#[test]
fn min_length_counts_bytes() {
    // "é" takes two bytes in UTF-8.
    assert!(min_length("é", 2).is_ok());
    let err = min_length("é", 3).unwrap_err();
    assert_eq!(err.message, "the string length is 2, must be greater than or equal to 3");
}
