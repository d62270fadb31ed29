use midgard_history::decode::{
    decode_grouped_u64, decode_timestamp, decode_u32, decode_u64, DecodeError, FloatText,
};
use midgard_history::granularity::Interval;
use midgard_history::text::{
    contains, is_float_literal, parse_grouped_u64, parse_u64, prefix_chars, split_at_comma,
    str_eq,
};

#[test]
fn str_eq_compares_characters() {
    assert!(str_eq("hour", "hour"));
    assert!(!str_eq("hour", "hours"));
    assert!(!str_eq("hour", "Hour"));
    assert!(str_eq("", ""));
}

#[test]
fn contains_finds_runs() {
    assert!(contains("please slow down now", "slow down"));
    assert!(!contains("please slow  down", "slow down"));
    assert!(contains("abc", ""));
    assert!(!contains("", "a"));
    assert!(contains("slow down", "slow down"));
}

#[test]
fn parse_u64_reads_decimals() {
    assert_eq!(parse_u64("0"), Some(0));
    assert_eq!(parse_u64("+42"), Some(42));
    assert_eq!(parse_u64("18446744073709551615"), Some(u64::MAX));
    assert_eq!(parse_u64("18446744073709551616"), None);
    assert_eq!(parse_u64(""), None);
    assert_eq!(parse_u64("+"), None);
    assert_eq!(parse_u64("-1"), None);
    assert_eq!(parse_u64("12a"), None);
    assert_eq!(parse_u64(" 1"), None);
}

#[test]
fn grouped_counts_drop_spaces_and_separators() {
    assert_eq!(parse_grouped_u64("  1,234,567 "), Some(1234567));
    assert_eq!(parse_grouped_u64("\t89\n"), Some(89));
    assert_eq!(parse_grouped_u64(" , "), None);
    assert_eq!(decode_grouped_u64(" 1 2 "), Err(DecodeError::Integer));
    assert_eq!(decode_grouped_u64(" 7,000 "), Ok(7000));
}

#[test]
fn float_literals_follow_std_grammar() {
    for ok in ["1", "1.", ".5", "-0.25", "+3.5e-7", "1E10", "inf", "-Infinity", "nan", "NaN"] {
        assert!(is_float_literal(ok), "{}", ok);
        assert!(ok.parse::<f64>().is_ok(), "{}", ok);
    }
    for bad in ["", ".", "e5", "1e", "1e+", "--1", "1.2.3", "infinit", "0x10", " 1"] {
        assert!(!is_float_literal(bad), "{}", bad);
        assert!(bad.parse::<f64>().is_err(), "{}", bad);
    }
}

#[test]
fn split_at_comma_needs_exactly_one() {
    assert_eq!(
        split_at_comma("2024-01-01,2024-01-31"),
        Some(("2024-01-01".to_string(), "2024-01-31".to_string()))
    );
    assert_eq!(split_at_comma(",x"), Some(("".to_string(), "x".to_string())));
    assert_eq!(split_at_comma("2024-01-01"), None);
    assert_eq!(split_at_comma("a,b,c"), None);
}

#[test]
fn prefix_chars_counts_characters() {
    assert_eq!(prefix_chars("héllo", 2), "hé");
    assert_eq!(prefix_chars("ab", 5), "ab");
}

#[test]
fn nan_round_trips_through_decoder() {
    let f = FloatText::decode("NaN").unwrap();
    assert_eq!(f, FloatText::NotANumber);
    assert_eq!(f.encode(), "NaN");
}

#[test]
fn float_fields_keep_their_text() {
    let f = FloatText::decode("0.0012").unwrap();
    assert_eq!(f, FloatText::Number("0.0012".to_string()));
    assert_eq!(f.encode(), "0.0012");
    assert_eq!(FloatText::decode("abc"), Err(DecodeError::Float));
    assert_eq!(FloatText::decode(""), Err(DecodeError::Float));
}

#[test]
fn integer_fields_decode_by_width() {
    assert_eq!(decode_u64("123"), Ok(123));
    assert_eq!(decode_u64("1.5"), Err(DecodeError::Integer));
    assert_eq!(decode_u32("4294967295"), Ok(u32::MAX));
    assert_eq!(decode_u32("4294967296"), Err(DecodeError::Integer));
}

#[test]
fn timestamps_decode_to_seconds() {
    assert_eq!(decode_timestamp("1648771200"), Ok(1648771200));
    assert_eq!(decode_timestamp("253402300799"), Ok(253402300799));
    assert_eq!(decode_timestamp("253402300800"), Err(DecodeError::Timestamp));
    assert_eq!(decode_timestamp("-5"), Err(DecodeError::Timestamp));
    assert_eq!(decode_timestamp("soon"), Err(DecodeError::Timestamp));
}

#[test]
fn interval_names_and_tokens() {
    assert_eq!(Interval::Hour.as_str(), "hour");
    assert_eq!(Interval::FiveMin.as_str(), "5min");
    assert_eq!(Interval::try_from("HOUR".to_string()), Ok(Interval::Hour));
    assert_eq!(Interval::try_from("Five_Min".to_string()), Ok(Interval::FiveMin));
    assert_eq!(Interval::try_from("quarter".to_string()), Ok(Interval::Quarter));
    assert_eq!(Interval::try_from("5min".to_string()), Err("Invalid interval".to_string()));
    assert_eq!(Interval::from_lowercase("Year"), None);
    assert_eq!(Interval::from_lowercase("year"), Some(Interval::Year));
}
