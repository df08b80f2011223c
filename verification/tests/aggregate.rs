use kadu::aggregate::{parse_expected_aggregate, AggregateError};

#[test]
fn reads_the_quoted_hex_value() {
    let doc = "# measured with bench --matches 10000 --seed 1\nengine_version = \"0.1.0\"\nexpected_aggregate = \"0x1234abcdef567890\"\n";
    assert_eq!(parse_expected_aggregate(doc), Ok(0x1234_abcd_ef56_7890));
}

#[test]
fn quotes_and_prefix_are_optional() {
    assert_eq!(parse_expected_aggregate("expected_aggregate = ff"), Ok(255));
    assert_eq!(parse_expected_aggregate("expected_aggregate=0xFF"), Ok(255));
    assert_eq!(parse_expected_aggregate("expected_aggregate = \"\"\"0x10\"\""), Ok(16));
    assert_eq!(parse_expected_aggregate("expected_aggregate = +ff"), Ok(255));
}

#[test]
fn whitespace_around_the_line_is_ignored() {
    assert_eq!(parse_expected_aggregate("\r\n   \t expected_aggregate \t=  \"0x2a\"  \r\n"), Ok(42));
    assert_eq!(parse_expected_aggregate("\u{3000}expected_aggregate\u{a0}= 0x2a\u{2028}"), Ok(42));
}

#[test]
fn a_missing_key_is_reported() {
    assert_eq!(parse_expected_aggregate(""), Err(AggregateError::NoKey));
    assert_eq!(parse_expected_aggregate("\n\n"), Err(AggregateError::NoKey));
    assert_eq!(parse_expected_aggregate("# expected_aggregate = 0x1\nother = 2\n"), Err(AggregateError::NoKey));
}

#[test]
fn the_first_key_line_decides() {
    assert_eq!(parse_expected_aggregate("expected_aggregate: 0x1\nexpected_aggregate = 0x2\n"), Err(AggregateError::Malformed));
    assert_eq!(parse_expected_aggregate("expected_aggregate_v2 = 0x1\n"), Err(AggregateError::Malformed));
    assert_eq!(parse_expected_aggregate("x = 1\n  expected_aggregate = 0x7\nexpected_aggregate = 0x8"), Ok(7));
}

#[test]
fn values_that_are_not_hex_u64_are_refused() {
    assert_eq!(parse_expected_aggregate("expected_aggregate = \"0xzz\""), Err(AggregateError::BadHex));
    assert_eq!(parse_expected_aggregate("expected_aggregate = \"\""), Err(AggregateError::BadHex));
    assert_eq!(parse_expected_aggregate("expected_aggregate = 0x"), Err(AggregateError::BadHex));
    assert_eq!(parse_expected_aggregate("expected_aggregate = -1"), Err(AggregateError::BadHex));
    assert_eq!(parse_expected_aggregate("expected_aggregate = 0x10000000000000000"), Err(AggregateError::BadHex));
    assert_eq!(parse_expected_aggregate("expected_aggregate = 0xffffffffffffffff"), Ok(u64::MAX));
    assert_eq!(parse_expected_aggregate("expected_aggregate = 0x 12"), Err(AggregateError::BadHex));
}
