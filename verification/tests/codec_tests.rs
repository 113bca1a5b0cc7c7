use market_data::blob::{
    decode_metrics, decode_statement, encode_metrics, encode_statement,
};
use market_data::{CompanyInfo, Date, F64Bits, FinancialStatement, KeyMetrics, PeriodType, Symbol};

fn d(y: i32, m: u32, day: u32) -> Date {
    Date::from_ymd_opt(y, m, day).unwrap()
}

#[test]
fn test_statement_blob_round_trip() {
    let mut stmt =
        FinancialStatement::new(Symbol::new("AAPL"), d(2024, 3, 31), PeriodType::Quarterly);
    stmt.fiscal_year = Some(2024);
    stmt.fiscal_quarter = Some(1);
    stmt.revenue = Some(F64Bits(94_930_000_000.0f64.to_bits()));
    stmt.net_income = Some(F64Bits(14_736_000_000.0f64.to_bits()));
    stmt.eps_diluted = Some(F64Bits((-0.25f64).to_bits()));

    let blob = encode_statement(&stmt);
    let back = decode_statement(blob.as_str()).unwrap();
    assert_eq!(back, stmt);
}

#[test]
fn test_statement_blob_rejects_garbage() {
    assert!(decode_statement("").is_none());
    assert!(decode_statement("not a blob").is_none());
}

#[test]
fn test_metrics_blob_round_trip() {
    let mut metrics = KeyMetrics::new(Symbol::new("msft"), d(2024, 1, 15));
    metrics.market_cap = Some(F64Bits(3_000_000_000_000.0f64.to_bits()));
    metrics.beta = Some(F64Bits(0.9f64.to_bits()));
    metrics.week_52_low = Some(F64Bits(123.45f64.to_bits()));

    let blob = encode_metrics(&metrics);
    let back = decode_metrics(blob.as_str()).unwrap();
    assert_eq!(back, metrics);
    assert_eq!(back.symbol.as_str(), "MSFT");
    assert_eq!(f64::from_bits(back.market_cap.unwrap().0), 3_000_000_000_000.0);
}

#[test]
fn test_metrics_blob_rejects_garbage() {
    assert!(decode_metrics("").is_none());
    assert!(decode_metrics("xyz").is_none());
}

#[test]
fn test_company_info_builders() {
    let info = CompanyInfo::new(
        Symbol::new("AAPL"),
        String::from("Apple Inc."),
        String::from("NASDAQ"),
        String::from("Technology"),
        String::from("Consumer Electronics"),
        String::from("US"),
        String::from("USD"),
    )
    .with_cik(String::from("0000320193"))
    .with_description(String::from("Designs and sells consumer electronics."));
    assert_eq!(info.cik.as_deref(), Some("0000320193"));
    assert!(info.description.as_deref().unwrap().contains("electronics"));
    assert_eq!(info.name, "Apple Inc.");
}

#[test]
fn test_date_field_text_order_matches_date_order() {
    // The date column's text compares like the dates themselves, which the
    // persistent backend's SQL range scans rely on.
    let dates = [
        d(1, 1, 1),
        d(1999, 12, 31),
        d(2024, 1, 2),
        d(2024, 1, 10),
        d(2024, 2, 1),
        d(2025, 1, 1),
        d(9999, 12, 31),
    ];
    for i in 0..dates.len() {
        for j in 0..dates.len() {
            let ti = market_data::blob::date_field(dates[i]);
            let tj = market_data::blob::date_field(dates[j]);
            assert_eq!(i < j, ti < tj);
        }
    }
}

#[test]
fn test_timestamp_field_text_order_matches_numeric_order() {
    // The capture-timestamp column's text compares like the timestamps,
    // which the TTL sweep's cutoff comparison relies on.
    let stamps: [u64; 6] = [0, 1, 255, 256, 10_000_000, u64::MAX];
    for i in 0..stamps.len() {
        for j in 0..stamps.len() {
            let ti = market_data::blob::bits_field(stamps[i]);
            let tj = market_data::blob::bits_field(stamps[j]);
            assert_eq!(i < j, ti < tj);
        }
    }
}
