use trade_export::batching::Driver;
use trade_export::config::Config;
use trade_export::data_processor::{
    process_data, process_trade_file, DayData, Parsed, ParseErrorKind, Trade, parse_line,
};
use trade_export::date::{day_dir_name, hour_file_name, next_day, Date};

fn day(year: u32, month: u32, day: u32) -> Date {
    Date { year, month, day }
}

fn line_for(coin: &str, d: &Date) -> String {
    let stamp = format!(
        "{:04}-{:02}-{:02}T12:00:00.000",
        d.year, d.month, d.day
    );
    format!(
        r#"{{"coin":"{}","side":"A","time":"{}","px":"1.5","sz":"2","hash":"0xh","trade_dir_override":"Na","side_info":[{{"user":"0xu1","start_pos":"0","oid":1}},{{"user":"0xu2","start_pos":"0","oid":2}}]}}"#,
        coin, stamp
    )
}

fn trade_for(coin: &str, d: &Date) -> Trade {
    match parse_line(&line_for(coin, d), d) {
        Ok(Parsed::Trade(t)) => t,
        _ => panic!("helper line must parse"),
    }
}

fn empty_day() -> Vec<Option<Vec<String>>> {
    let mut hours: Vec<Option<Vec<String>>> = Vec::new();
    for _ in 0..24 {
        hours.push(None);
    }
    hours
}

#[test]
fn missing_day_directory_yields_no_trades_and_no_error() {
    let trades = process_data(&DayData::Missing, &day(2024, 1, 2)).expect("no error");
    assert_eq!(trades.len(), 0);
}

#[test]
fn an_empty_hour_file_yields_no_trades_and_no_error() {
    let mut hours = empty_day();
    hours[0] = Some(Vec::new());
    let trades =
        process_data(&DayData::Present(hours), &day(2024, 1, 2)).expect("no error");
    assert_eq!(trades.len(), 0);
}

#[test]
fn day_of_absent_hour_files_yields_no_trades() {
    let trades =
        process_data(&DayData::Present(empty_day()), &day(2024, 1, 2)).expect("no error");
    assert_eq!(trades.len(), 0);
}

#[test]
fn present_hours_are_read_in_ascending_hour_order() {
    let d = day(2024, 1, 2);
    let mut hours = empty_day();
    hours[17] = Some(vec![line_for("LATE", &d)]);
    hours[3] = Some(vec![line_for("EARLY1", &d), line_for("EARLY2", &d)]);
    let trades = process_data(&DayData::Present(hours), &d).expect("no error");
    let coins: Vec<&str> = trades.iter().map(|t| t.coin.as_str()).collect();
    assert_eq!(coins, vec!["EARLY1", "EARLY2", "LATE"]);
}

#[test]
fn a_rejected_line_aborts_the_day_and_names_the_hour() {
    let d = day(2024, 1, 2);
    let mut hours = empty_day();
    hours[1] = Some(vec![line_for("OK", &d)]);
    let bad = line_for("BAD", &d).replace(r#""oid":1"#, r#""oid":"abc""#);
    hours[2] = Some(vec![bad.clone()]);
    hours[3] = Some(vec![line_for("NEVER", &d)]);
    let err = process_data(&DayData::Present(hours), &d).expect_err("must abort");
    assert_eq!(err.hour, 2);
    assert_eq!(err.error.kind, ParseErrorKind::InvalidField);
    assert_eq!(err.error.field, "oid_a");
    assert_eq!(err.error.line, bad);
}

#[test]
fn process_trade_file_appends_in_line_order_and_skips_filtered_lines() {
    let d = day(2024, 1, 2);
    let other = day(2024, 1, 3);
    let lines = vec![
        line_for("ONE", &d),
        line_for("SPILL", &other), // next day's record: filtered, no error
        line_for("TWO", &d),
    ];
    let mut trades = vec![trade_for("SEED", &d)];
    process_trade_file(&lines, &mut trades, &d).expect("no error");
    let coins: Vec<&str> = trades.iter().map(|t| t.coin.as_str()).collect();
    assert_eq!(coins, vec!["SEED", "ONE", "TWO"]);
}

#[test]
fn process_trade_file_leaves_trades_untouched_on_error() {
    let d = day(2024, 1, 2);
    let lines = vec![line_for("ONE", &d), "broken".to_string()];
    let mut trades = vec![trade_for("SEED", &d)];
    let err = process_trade_file(&lines, &mut trades, &d).expect_err("must abort");
    assert_eq!(err.kind, ParseErrorKind::InvalidJson);
    assert_eq!(trades.len(), 1);
    assert_eq!(trades[0].coin, "SEED");
}

#[test]
fn driver_uploads_exactly_the_non_empty_days() {
    let start = day(2024, 1, 1);
    let middle = day(2024, 1, 2);
    let end = day(2024, 1, 3);
    let mut driver = Driver::new(start, end);
    let mut uploads: Vec<(Date, usize)> = Vec::new();
    let mut extracted: Vec<Date> = Vec::new();
    while !driver.is_done() && !driver.is_failed() {
        if driver.needs_extract() {
            let d = driver.current_day();
            extracted.push(d);
            let trades = if d == middle {
                vec![trade_for("ETH", &d)]
            } else {
                Vec::new()
            };
            driver.give_extracted(trades);
        } else if driver.needs_upload() {
            let d = driver.current_day();
            let batch = driver.take_batch();
            uploads.push((d, batch.len()));
            driver.upload_succeeded();
        } else {
            panic!("driver asked for nothing while not finished");
        }
    }
    assert!(driver.is_done());
    assert_eq!(extracted, vec![start, middle, end]);
    assert_eq!(uploads, vec![(middle, 1)]);
}

#[test]
fn driver_aborts_on_extraction_failure_before_any_upload_or_later_day() {
    let start = day(2024, 1, 1);
    let middle = day(2024, 1, 2);
    let end = day(2024, 1, 3);
    let mut driver = Driver::new(start, end);
    let mut uploads = 0usize;
    let mut extracted: Vec<Date> = Vec::new();
    while !driver.is_done() && !driver.is_failed() {
        if driver.needs_extract() {
            let d = driver.current_day();
            extracted.push(d);
            if d == middle {
                // the malformed required field surfaces here
                driver.extraction_failed();
            } else {
                driver.give_extracted(Vec::new());
            }
        } else if driver.needs_upload() {
            uploads += 1;
            let _ = driver.take_batch();
            driver.upload_succeeded();
        } else {
            panic!("driver asked for nothing while not finished");
        }
    }
    assert!(driver.is_failed());
    assert_eq!(uploads, 0);
    assert_eq!(extracted, vec![start, middle]);
    assert_eq!(driver.current_day(), middle);
}

#[test]
fn driver_aborts_on_upload_failure() {
    let d0 = day(2024, 1, 1);
    let mut driver = Driver::new(d0, day(2024, 1, 2));
    driver.give_extracted(vec![trade_for("ETH", &d0)]);
    assert!(driver.needs_upload());
    let batch = driver.take_batch();
    assert_eq!(batch.len(), 1);
    driver.upload_failed();
    assert!(driver.is_failed());
    assert_eq!(driver.current_day(), d0);
}

#[test]
fn driver_with_inverted_range_is_done_at_once() {
    let driver = Driver::new(day(2024, 1, 3), day(2024, 1, 1));
    assert!(driver.is_done());
}

#[test]
fn next_day_handles_month_year_and_leap_rollovers() {
    assert_eq!(next_day(&day(2024, 1, 31)), day(2024, 2, 1));
    assert_eq!(next_day(&day(2024, 2, 28)), day(2024, 2, 29));
    assert_eq!(next_day(&day(2023, 2, 28)), day(2023, 3, 1));
    assert_eq!(next_day(&day(2024, 2, 29)), day(2024, 3, 1));
    assert_eq!(next_day(&day(2024, 12, 31)), day(2025, 1, 1));
    assert_eq!(next_day(&day(2100, 2, 28)), day(2100, 3, 1));
    assert_eq!(next_day(&day(2000, 2, 28)), day(2000, 2, 29));
}

#[test]
fn day_directory_and_hour_file_names() {
    assert_eq!(day_dir_name(&day(2024, 1, 2)), "20240102");
    assert_eq!(day_dir_name(&day(987, 11, 30)), "09871130");
    assert_eq!(hour_file_name(0), "0");
    assert_eq!(hour_file_name(9), "9");
    assert_eq!(hour_file_name(10), "10");
    assert_eq!(hour_file_name(23), "23");
}

#[test]
fn config_carries_its_settings_unchanged() {
    let config = Config {
        dune_api_key: "key".to_string(),
        hyperliquid_data_dir: "/data/node".to_string(),
        dune_user_namespace: "ns".to_string(),
        dune_table_name: "trades".to_string(),
        look_back_period: 7,
    };
    assert_eq!(config.hyperliquid_data_dir, "/data/node");
    assert_eq!(config.look_back_period, 7);
}
