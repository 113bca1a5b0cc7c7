use market_data::{get_xbrl_tags, Date, F64Bits, Symbol, Tick, TickData};

#[test]
fn test_get_xbrl_tags() {
    assert!(get_xbrl_tags("Assets").is_some());
    assert!(get_xbrl_tags("Revenue").is_some());
    assert!(get_xbrl_tags("NetIncome").is_some());
    assert!(get_xbrl_tags("NonexistentConcept").is_none());
}

#[test]
fn test_xbrl_tag_contents() {
    let revenue = get_xbrl_tags("Revenue").unwrap();
    assert_eq!(revenue[0], "Revenues");
    assert_eq!(revenue.len(), 4);
    let assets = get_xbrl_tags("Assets").unwrap();
    assert_eq!(assets, vec!["Assets"]);
}

#[test]
fn test_symbol_creation() {
    let symbol = Symbol::new("AAPL");
    assert_eq!(symbol.as_str(), "AAPL");

    let symbol_lower = Symbol::new("aapl");
    assert_eq!(symbol_lower.as_str(), "AAPL");
}

#[test]
fn test_date_construction_and_order() {
    assert!(Date::from_ymd_opt(2024, 1, 15).is_some());
    assert!(Date::from_ymd_opt(2024, 0, 15).is_none());
    assert!(Date::from_ymd_opt(2024, 13, 1).is_none());
    assert!(Date::from_ymd_opt(2024, 1, 32).is_none());
    assert!(Date::from_ymd_opt(0, 1, 1).is_none());
    assert!(Date::from_ymd_opt(10000, 1, 1).is_none());

    let a = Date::from_ymd_opt(2023, 12, 31).unwrap();
    let b = Date::from_ymd_opt(2024, 1, 1).unwrap();
    assert!(a.le(&b));
    assert!(!b.le(&a));
    assert!(a.le(&a));
}

#[test]
fn test_tick_builders() {
    let symbol = Symbol::new("AAPL");
    let tick = Tick::new(
        symbol.clone(),
        1_700_000_000_000,
        F64Bits(189.5f64.to_bits()),
        F64Bits(100.0f64.to_bits()),
    )
    .with_exchange(String::from("NASDAQ"))
    .with_conditions(vec![String::from("regular")]);
    assert_eq!(tick.exchange.as_deref(), Some("NASDAQ"));
    assert_eq!(tick.conditions.len(), 1);
    assert_eq!(f64::from_bits(tick.price.0), 189.5);
}

#[test]
fn test_tick_data_filter_and_range() {
    let aapl = Symbol::new("AAPL");
    let msft = Symbol::new("MSFT");
    let mut data = TickData::new();
    assert!(data.is_empty());
    assert!(data.time_range().is_none());

    data.push(Tick::new(aapl.clone(), 30, F64Bits(1.0f64.to_bits()), F64Bits(1.0f64.to_bits())));
    data.push(Tick::new(msft.clone(), 10, F64Bits(2.0f64.to_bits()), F64Bits(1.0f64.to_bits())));
    data.push(Tick::new(aapl.clone(), 20, F64Bits(3.0f64.to_bits()), F64Bits(1.0f64.to_bits())));

    assert_eq!(data.len(), 3);
    assert_eq!(data.time_range(), Some((10, 30)));

    let only_aapl = data.filter_by_symbol(&aapl);
    assert_eq!(only_aapl.len(), 2);
    assert_eq!(only_aapl.time_range(), Some((20, 30)));

    let ticks = data.into_inner();
    assert_eq!(ticks.len(), 3);
}
