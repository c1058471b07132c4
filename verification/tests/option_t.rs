use std::str::FromStr;
use unicom_usage::utils::option_t::{is_none_word, OptionT, ReadText};

#[test]
fn words_for_none_in_any_case() {
    for word in ["none", "None", "NONE", "null", "Null", "no", "NO", "n", "N"] {
        assert_eq!(word.parse::<OptionT<i64>>(), Ok(OptionT(None)));
        assert_eq!(OptionT::<i64>::from_str(word), Ok(OptionT(None)));
        assert_eq!(OptionT::parse_integer(word), Ok(OptionT(None)));
    }
}

#[test]
fn none_words_are_exactly_four() {
    for word in ["none", "null", "no", "n"] {
        assert!(is_none_word(&word.to_string()));
    }
    for word in ["", "non", "nil", "NONE", " none", "none ", "nn", "0"] {
        assert!(!is_none_word(&word.to_string()));
    }
}

#[test]
fn numbers_are_read() {
    assert_eq!("1800".parse::<OptionT<i64>>(), Ok(OptionT(Some(1800))));
    assert_eq!("-5".parse::<OptionT<i64>>(), Ok(OptionT(Some(-5))));
    assert_eq!(OptionT::parse_integer("+60"), Ok(OptionT(Some(60))));
    assert_eq!(OptionT::parse_integer("007"), Ok(OptionT(Some(7))));
    assert_eq!(OptionT::parse_integer("-0"), Ok(OptionT(Some(0))));
    assert_eq!(OptionT::parse_integer("9223372036854775807"), Ok(OptionT(Some(i64::MAX))));
    assert_eq!(OptionT::parse_integer("-9223372036854775808"), Ok(OptionT(Some(i64::MIN))));
}

#[test]
fn what_is_no_number_is_refused_with_the_reason() {
    assert_eq!(
        "abc".parse::<OptionT<i64>>(),
        Err("Failed to parse input: ParseIntError { kind: InvalidDigit }".to_string())
    );
    assert_eq!(
        "".parse::<OptionT<i64>>(),
        Err("Failed to parse input: ParseIntError { kind: Empty }".to_string())
    );
    assert_eq!(
        OptionT::parse_integer("9223372036854775808"),
        Err("Failed to parse input: ParseIntError { kind: PosOverflow }".to_string())
    );
    for text in ["-", "+", " 1", "1 ", "1.5", "1_000", "--1", "+-1", "١"] {
        assert!(OptionT::parse_integer(text).is_err());
    }
}

#[test]
fn parsed_values_are_wrapped() {
    assert_eq!(OptionT::from_parsed(Ok(5u8)), Ok(OptionT(Some(5u8))));
    assert_eq!(
        OptionT::<u8>::from_parsed(Err("why".to_string())),
        Err("Failed to parse input: why".to_string())
    );
}

#[test]
fn integers_read_themselves() {
    assert_eq!(i64::read_text("12"), Ok(12));
    assert_eq!(i64::read_text("+7"), Ok(7));
    assert_eq!(i64::read_text("-0012"), Ok(-12));
    assert_eq!(i64::read_text("-9223372036854775808"), Ok(i64::MIN));
    assert!(i64::read_text("twelve").is_err());
    assert!(i64::read_text("").is_err());
    assert!(i64::read_text("-").is_err());
    assert!(i64::read_text("9223372036854775808").is_err());
}
