use geoffrey::ids::{id_text, parse_id, IdError};

#[test]
fn id_text_writes_decimal() {
    assert_eq!(id_text(0), "0");
    assert_eq!(id_text(7), "7");
    assert_eq!(id_text(1043348477419200532), "1043348477419200532");
    assert_eq!(id_text(u64::MAX), "18446744073709551615");
}

#[test]
fn id_text_matches_std_display() {
    for n in [0u64, 9, 10, 99, 100, 12345, 4294967296, u64::MAX - 1, u64::MAX] {
        assert_eq!(id_text(n), n.to_string());
    }
}

#[test]
fn parse_id_reads_numbers() {
    assert_eq!(parse_id("0"), Ok(0));
    assert_eq!(parse_id("+42"), Ok(42));
    assert_eq!(parse_id("007"), Ok(7));
    assert_eq!(parse_id("18446744073709551615"), Ok(u64::MAX));
}

#[test]
fn parse_id_errors() {
    assert_eq!(parse_id(""), Err(IdError::Empty));
    assert_eq!(parse_id("+"), Err(IdError::InvalidDigit));
    assert_eq!(parse_id("-"), Err(IdError::InvalidDigit));
    assert_eq!(parse_id("-5"), Err(IdError::InvalidDigit));
    assert_eq!(parse_id(" 5"), Err(IdError::InvalidDigit));
    assert_eq!(parse_id("5x"), Err(IdError::InvalidDigit));
    assert_eq!(parse_id("18446744073709551616"), Err(IdError::TooLarge));
    assert_eq!(parse_id("99999999999999999999x"), Err(IdError::TooLarge));
    assert_eq!(parse_id("1844674407370955161x9"), Err(IdError::InvalidDigit));
}

#[test]
fn parse_id_agrees_with_std() {
    for s in [
        "", "+", "-", "0", "+0", "-0", "12", "+12", "1a", "a1", "٣", "1 ", "18446744073709551615",
        "18446744073709551616", "184467440737095516150", "00000000000000000000000001", "+-1", "++1",
        "99999999999999999999x", "1844674407370955161x9",
    ] {
        let ours = parse_id(s);
        let std = s.parse::<u64>();
        match (ours, std) {
            (Ok(a), Ok(b)) => assert_eq!(a, b, "{s:?}"),
            (Err(e), Err(f)) => assert_eq!(e.message(), f.to_string(), "{s:?}"),
            (a, b) => panic!("{s:?}: {a:?} vs {b:?}"),
        }
    }
}

#[test]
fn id_round_trip() {
    for n in [0u64, 1, 10, 1043348477419200532, u64::MAX] {
        assert_eq!(parse_id(&id_text(n)), Ok(n));
    }
}

#[test]
fn id_error_messages() {
    assert_eq!(IdError::Empty.message(), "cannot parse integer from empty string");
    assert_eq!(IdError::InvalidDigit.message(), "invalid digit found in string");
    assert_eq!(IdError::TooLarge.message(), "number too large to fit in target type");
}
