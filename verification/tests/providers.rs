use market_data::{
    DataFrequency, DataProvider, Date, FundamentalDataProvider, IbkrProvider, NasdaqProvider,
    PriceDataProvider, Symbol, TickDataProvider,
};

#[test]
fn test_provider_creation() {
    let provider = IbkrProvider::new("127.0.0.1", 7496);
    assert_eq!(provider.name(), "ibkr");
}

#[test]
fn test_provider_description() {
    let provider = IbkrProvider::new("127.0.0.1", 7496);
    assert!(provider.description().contains("TWS API"));
}

#[test]
fn test_supported_frequencies() {
    let provider = IbkrProvider::new("127.0.0.1", 7496);
    let frequencies = provider.supported_frequencies();
    assert!(frequencies.contains(&DataFrequency::Tick));
    assert!(frequencies.contains(&DataFrequency::Daily));
    assert!(frequencies.contains(&DataFrequency::Monthly));
}

#[test]
fn test_gateway_connection() {
    let provider = IbkrProvider::new("127.0.0.1", 4001);
    assert_eq!(provider.name(), "ibkr");
}

#[test]
fn lib_test_provider_creation() {
    let provider = NasdaqProvider::new("test-api-key");
    assert_eq!(provider.name(), "nasdaq");
}

#[test]
fn lib_test_provider_description() {
    let provider = NasdaqProvider::new("test-api-key");
    assert!(provider.description().contains("TotalView"));
}

#[test]
fn lib_test_supported_frequencies() {
    let provider = NasdaqProvider::new("test-api-key");
    let frequencies = provider.supported_frequencies();
    assert!(frequencies.contains(&DataFrequency::Tick));
    assert!(frequencies.contains(&DataFrequency::Daily));
}

#[test]
fn test_stub_providers_report_not_supported() {
    let mut ibkr = IbkrProvider::new("127.0.0.1", 7496);
    let mut nasdaq = NasdaqProvider::new("test-api-key");
    let symbol = Symbol::new("AAPL");
    let start = Date::from_ymd_opt(2024, 1, 1).unwrap();
    let end = Date::from_ymd_opt(2024, 1, 31).unwrap();

    assert!(matches!(
        ibkr.fetch_ohlcv(&symbol, start, end, DataFrequency::Daily),
        Err(market_data::DataError::NotSupported(_))
    ));
    assert!(matches!(
        ibkr.fetch_metrics(&symbol, start),
        Err(market_data::DataError::NotSupported(_))
    ));
    assert!(matches!(
        ibkr.fetch_ticks(&symbol, 0, 1),
        Err(market_data::DataError::NotSupported(_))
    ));
    assert!(matches!(
        nasdaq.fetch_ohlcv(&symbol, start, end, DataFrequency::Daily),
        Err(market_data::DataError::NotSupported(_))
    ));
    assert!(matches!(
        nasdaq.fetch_ticks(&symbol, 0, 1),
        Err(market_data::DataError::NotSupported(_))
    ));
}

#[test]
fn test_frequency_predicates() {
    assert!(DataFrequency::Tick.is_intraday());
    assert!(DataFrequency::Hourly.is_intraday());
    assert!(!DataFrequency::Daily.is_intraday());
    assert!(!DataFrequency::Annual.is_intraday());
    assert!(DataFrequency::Quarterly.is_fundamental());
    assert!(DataFrequency::Annual.is_fundamental());
    assert!(!DataFrequency::Daily.is_fundamental());
}
