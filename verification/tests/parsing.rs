use trade_export::data_processor::{parse_line, Parsed, ParseError, ParseErrorKind, Trade};
use trade_export::date::{parse_timestamp, Date, Timestamp};
use trade_export::numeric::is_numeric_literal;

fn day(year: u32, month: u32, day: u32) -> Date {
    Date { year, month, day }
}

fn valid_line() -> String {
    r#"{"coin":"ETH","side":"B","time":"2024-01-02T03:04:05.678","px":"123.45","sz":"0.5","hash":"0xabc","trade_dir_override":"Na","side_info":[{"user":"0xu1","start_pos":"10.5","oid":77,"twap_id":"t1","cloid":"c1"},{"user":"0xu2","start_pos":"-3.25","oid":88,"twap_id":"t2","cloid":"c2"}]}"#.to_string()
}

fn expect_trade(line: &str, target: &Date) -> Trade {
    match parse_line(line, target) {
        Ok(Parsed::Trade(t)) => t,
        Ok(Parsed::NotApplicable) => panic!("line was filtered: {}", line),
        Err(e) => panic!("line was rejected on field {:?}: {}", e.field, line),
    }
}

fn expect_not_applicable(line: &str, target: &Date) {
    match parse_line(line, target) {
        Ok(Parsed::NotApplicable) => {}
        Ok(Parsed::Trade(_)) => panic!("line parsed to a trade: {}", line),
        Err(e) => panic!("line was rejected on field {:?}: {}", e.field, line),
    }
}

fn expect_error(line: &str, target: &Date) -> ParseError {
    match parse_line(line, target) {
        Err(e) => e,
        Ok(_) => panic!("line was not rejected: {}", line),
    }
}

#[test]
fn valid_two_sided_line_round_trips() {
    let t = expect_trade(&valid_line(), &day(2024, 1, 2));
    assert_eq!(t.coin, "ETH");
    assert_eq!(t.side, "B");
    assert_eq!(
        t.time,
        Timestamp { date: day(2024, 1, 2), hour: 3, minute: 4, second: 5, millisecond: 678 }
    );
    assert_eq!(t.px, "123.45");
    assert_eq!(t.sz, "0.5");
    assert_eq!(t.hash, "0xabc");
    assert_eq!(t.trade_dir_override, "Na");
    assert_eq!(t.user_a, "0xu1");
    assert_eq!(t.start_pos_a, "10.5");
    assert_eq!(t.oid_a, 77);
    assert_eq!(t.twap_id_a, Some("t1".to_string()));
    assert_eq!(t.cloid_a, Some("c1".to_string()));
    assert_eq!(t.user_b, "0xu2");
    assert_eq!(t.start_pos_b, "-3.25");
    assert_eq!(t.oid_b, 88);
    assert_eq!(t.twap_id_b, Some("t2".to_string()));
    assert_eq!(t.cloid_b, Some("c2".to_string()));
}

#[test]
fn one_sided_line_is_not_applicable() {
    let line = valid_line().replace(
        r#",{"user":"0xu2","start_pos":"-3.25","oid":88,"twap_id":"t2","cloid":"c2"}"#,
        "",
    );
    expect_not_applicable(&line, &day(2024, 1, 2));
}

#[test]
fn three_sided_line_is_not_applicable() {
    let extra = r#",{"user":"0xu3","start_pos":"1","oid":99}]}"#;
    let line = valid_line().replace("]}", extra);
    expect_not_applicable(&line, &day(2024, 1, 2));
}

#[test]
fn empty_side_array_is_not_applicable() {
    let line = r#"{"coin":"ETH","side_info":[]}"#;
    expect_not_applicable(line, &day(2024, 1, 2));
}

#[test]
fn missing_side_array_is_not_applicable() {
    // even with every other field malformed, the line is only filtered
    let line = r#"{"px":12,"time":"garbage"}"#;
    expect_not_applicable(line, &day(2024, 1, 2));
}

#[test]
fn non_array_side_info_is_not_applicable() {
    let line = r#"{"side_info":"two","time":"garbage"}"#;
    expect_not_applicable(line, &day(2024, 1, 2));
}

#[test]
fn other_day_line_is_not_applicable() {
    expect_not_applicable(&valid_line(), &day(2024, 1, 3));
}

#[test]
fn other_day_wins_over_bad_fields() {
    // a malformed price would be a hard error, but the day filter comes first
    let line = valid_line().replace(r#""px":"123.45""#, r#""px":"abc""#);
    expect_not_applicable(&line, &day(2024, 1, 3));
}

#[test]
fn absent_cloids_parse_as_absent() {
    let line = valid_line().replace(r#","cloid":"c1""#, "").replace(r#","cloid":"c2""#, "");
    let t = expect_trade(&line, &day(2024, 1, 2));
    assert_eq!(t.cloid_a, None);
    assert_eq!(t.cloid_b, None);
    assert_eq!(t.twap_id_a, Some("t1".to_string()));
}

#[test]
fn null_twap_id_parses_as_absent() {
    let line = valid_line().replace(r#""twap_id":"t1""#, r#""twap_id":null"#);
    let t = expect_trade(&line, &day(2024, 1, 2));
    assert_eq!(t.twap_id_a, None);
    assert_eq!(t.twap_id_b, Some("t2".to_string()));
}

#[test]
fn non_json_line_is_invalid_json() {
    let e = expect_error("not json at all", &day(2024, 1, 2));
    assert_eq!(e.kind, ParseErrorKind::InvalidJson);
    assert_eq!(e.line, "not json at all");
}

#[test]
fn empty_line_is_invalid_json() {
    let e = expect_error("", &day(2024, 1, 2));
    assert_eq!(e.kind, ParseErrorKind::InvalidJson);
    assert_eq!(e.field, "");
}

#[test]
fn missing_coin_is_a_hard_error() {
    let line = valid_line().replace(r#""coin":"ETH","#, "");
    let e = expect_error(&line, &day(2024, 1, 2));
    assert_eq!(e.kind, ParseErrorKind::MissingField);
    assert_eq!(e.field, "coin");
    assert_eq!(e.line, line);
}

#[test]
fn null_coin_is_a_hard_error() {
    let line = valid_line().replace(r#""coin":"ETH""#, r#""coin":null"#);
    let e = expect_error(&line, &day(2024, 1, 2));
    assert_eq!(e.kind, ParseErrorKind::MissingField);
    assert_eq!(e.field, "coin");
}

#[test]
fn numeric_coin_is_a_hard_error() {
    let line = valid_line().replace(r#""coin":"ETH""#, r#""coin":5"#);
    let e = expect_error(&line, &day(2024, 1, 2));
    assert_eq!(e.kind, ParseErrorKind::InvalidField);
    assert_eq!(e.field, "coin");
}

#[test]
fn empty_coin_is_a_hard_error() {
    let line = valid_line().replace(r#""coin":"ETH""#, r#""coin":"""#);
    let e = expect_error(&line, &day(2024, 1, 2));
    assert_eq!(e.kind, ParseErrorKind::InvalidField);
    assert_eq!(e.field, "coin");
}

#[test]
fn empty_side_is_a_hard_error() {
    let line = valid_line().replace(r#""side":"B""#, r#""side":"""#);
    let e = expect_error(&line, &day(2024, 1, 2));
    assert_eq!(e.kind, ParseErrorKind::InvalidField);
    assert_eq!(e.field, "side");
}

#[test]
fn empty_hash_is_a_hard_error() {
    let line = valid_line().replace(r#""hash":"0xabc""#, r#""hash":"""#);
    let e = expect_error(&line, &day(2024, 1, 2));
    assert_eq!(e.kind, ParseErrorKind::InvalidField);
    assert_eq!(e.field, "hash");
}

#[test]
fn empty_trade_dir_override_is_a_hard_error() {
    let line = valid_line().replace(r#""trade_dir_override":"Na""#, r#""trade_dir_override":"""#);
    let e = expect_error(&line, &day(2024, 1, 2));
    assert_eq!(e.kind, ParseErrorKind::InvalidField);
    assert_eq!(e.field, "trade_dir_override");
}

#[test]
fn empty_user_names_the_side() {
    let line = valid_line().replace(r#""user":"0xu1""#, r#""user":"""#);
    let e = expect_error(&line, &day(2024, 1, 2));
    assert_eq!(e.kind, ParseErrorKind::InvalidField);
    assert_eq!(e.field, "user_a");
}

#[test]
fn malformed_px_is_a_hard_error() {
    let line = valid_line().replace(r#""px":"123.45""#, r#""px":"abc""#);
    let e = expect_error(&line, &day(2024, 1, 2));
    assert_eq!(e.kind, ParseErrorKind::InvalidField);
    assert_eq!(e.field, "px");
}

#[test]
fn json_number_px_is_a_hard_error() {
    // prices travel as strings; a bare JSON number is the wrong shape
    let line = valid_line().replace(r#""px":"123.45""#, r#""px":123.45"#);
    let e = expect_error(&line, &day(2024, 1, 2));
    assert_eq!(e.kind, ParseErrorKind::InvalidField);
    assert_eq!(e.field, "px");
}

#[test]
fn string_oid_is_a_hard_error() {
    let line = valid_line().replace(r#""oid":77"#, r#""oid":"abc""#);
    let e = expect_error(&line, &day(2024, 1, 2));
    assert_eq!(e.kind, ParseErrorKind::InvalidField);
    assert_eq!(e.field, "oid_a");
}

#[test]
fn negative_oid_is_a_hard_error() {
    let line = valid_line().replace(r#""oid":88"#, r#""oid":-88"#);
    let e = expect_error(&line, &day(2024, 1, 2));
    assert_eq!(e.kind, ParseErrorKind::InvalidField);
    assert_eq!(e.field, "oid_b");
}

#[test]
fn missing_user_names_the_side() {
    let line = valid_line().replace(r#""user":"0xu2","#, "");
    let e = expect_error(&line, &day(2024, 1, 2));
    assert_eq!(e.kind, ParseErrorKind::MissingField);
    assert_eq!(e.field, "user_b");
}

#[test]
fn missing_time_is_a_hard_error() {
    let line = valid_line().replace(r#""time":"2024-01-02T03:04:05.678","#, "");
    let e = expect_error(&line, &day(2024, 1, 2));
    assert_eq!(e.kind, ParseErrorKind::MissingField);
    assert_eq!(e.field, "time");
}

#[test]
fn malformed_timestamp_is_a_hard_error() {
    let line = valid_line().replace("2024-01-02T03:04:05.678", "2024-01-02 03:04:05.678");
    let e = expect_error(&line, &day(2024, 1, 2));
    assert_eq!(e.kind, ParseErrorKind::InvalidTimestamp);
    assert_eq!(e.field, "time");
}

#[test]
fn truncated_timestamp_is_a_hard_error() {
    let line = valid_line().replace("2024-01-02T03:04:05.678", "2024-01-02T03:04:05");
    let e = expect_error(&line, &day(2024, 1, 2));
    assert_eq!(e.kind, ParseErrorKind::InvalidTimestamp);
}

#[test]
fn impossible_date_is_a_hard_error() {
    // 2023 is no leap year
    let line = valid_line().replace("2024-01-02T03:04:05.678", "2023-02-29T03:04:05.678");
    let e = expect_error(&line, &day(2024, 1, 2));
    assert_eq!(e.kind, ParseErrorKind::InvalidTimestamp);
}

#[test]
fn parse_timestamp_reads_the_fixed_shape() {
    let ts = parse_timestamp("2024-02-29T23:59:59.999").expect("a real leap-day instant");
    assert_eq!(
        ts,
        Timestamp { date: day(2024, 2, 29), hour: 23, minute: 59, second: 59, millisecond: 999 }
    );
}

#[test]
fn parse_timestamp_rejects_out_of_range_parts() {
    assert!(parse_timestamp("2024-01-02T24:00:00.000").is_none());
    assert!(parse_timestamp("2024-01-02T03:60:05.678").is_none());
    assert!(parse_timestamp("2024-01-02T03:04:60.678").is_none());
    assert!(parse_timestamp("2024-13-02T03:04:05.678").is_none());
    assert!(parse_timestamp("2024-00-02T03:04:05.678").is_none());
    assert!(parse_timestamp("2024-01-00T03:04:05.678").is_none());
    assert!(parse_timestamp("2024-04-31T03:04:05.678").is_none());
    assert!(parse_timestamp("2024-01-02T03:04:05.6789").is_none());
    assert!(parse_timestamp("24-01-02T03:04:05.678").is_none());
}

#[test]
fn numeric_literals_accepted() {
    for s in [
        "0", "7", "123.45", "-3.25", "+10.5", ".5", "5.", "1e5", "1E5", "1.5e-3", "+1.5e+3",
        "inf", "INF", "-infinity", "nan", "NaN", "-NAN",
    ] {
        assert!(is_numeric_literal(s), "{} should be accepted", s);
    }
}

#[test]
fn numeric_literals_rejected() {
    for s in [
        "", "abc", "1.2.3", "1e", "e5", "--5", ".", "+", "1e+", "1.5e3.2", "0x10", "in",
        "infinit", "1 ", " 1", "na n",
    ] {
        assert!(!is_numeric_literal(s), "{} should be rejected", s);
    }
}
