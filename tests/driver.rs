use triangular_arbitrage::breaker::CircuitBreaker;
use triangular_arbitrage::decimal::Dec;
use triangular_arbitrage::driver::{after_scan, check_price_data, rate_limit_delay, DriverAction, ScanOutcome};
use triangular_arbitrage::exchanges::{price_map_from_tickers, ExchangeError, PriceMap, TickerPrice};

#[test]
fn backoff_doubles_then_stops() {
    assert_eq!(after_scan(3, ScanOutcome::Completed, 10), (0, DriverAction::Pause(250)));
    assert_eq!(after_scan(0, ScanOutcome::Failed, 10), (1, DriverAction::Pause(2_000)));
    assert_eq!(after_scan(2, ScanOutcome::Failed, 10), (3, DriverAction::Pause(8_000)));
    assert_eq!(after_scan(7, ScanOutcome::Failed, 10), (8, DriverAction::Pause(64_000)));
    assert_eq!(after_scan(9, ScanOutcome::Failed, 10), (10, DriverAction::Stop));
    assert_eq!(after_scan(9, ScanOutcome::TimedOut, 10), (10, DriverAction::Pause(5_000)));
}

#[test]
fn rate_limit_waits_out_the_interval() {
    assert_eq!(rate_limit_delay(20, 50), 30);
    assert_eq!(rate_limit_delay(50, 50), 0);
    assert_eq!(rate_limit_delay(-5, 50), 0);
}

#[test]
fn empty_price_data_is_refused() {
    let mut a = PriceMap::new();
    let b = PriceMap::new();
    assert!(check_price_data(&a, &b).is_err());
    a.insert("BTCUSDT".to_string(), Dec::from_int(1));
    let mut b2 = PriceMap::new();
    b2.insert("BTCUSDT".to_string(), Dec::from_int(2));
    assert!(check_price_data(&a, &b2).is_ok());
}

#[test]
fn tickers_keep_positive_prices() {
    let tickers = vec![
        TickerPrice { symbol: "BTCUSDT".to_string(), price: Dec::from_int(50000), timestamp: None },
        TickerPrice { symbol: "DEADUSDT".to_string(), price: Dec::zero(), timestamp: None },
        TickerPrice { symbol: "BTCUSDT".to_string(), price: Dec::from_int(50001), timestamp: Some(1) },
    ];
    let map = price_map_from_tickers(tickers);
    assert_eq!(map.get(&"BTCUSDT".to_string()).unwrap().mantissa(), 50001);
    assert!(map.get(&"DEADUSDT".to_string()).is_none());
}

#[test]
fn error_kinds_and_messages() {
    let e = ExchangeError::NetworkError("timeout".to_string());
    assert!(e.is_transient());
    assert_eq!(e.message(), "Network error: timeout");
    assert!(!ExchangeError::ApiError("HTTP 500".to_string()).is_transient());
    assert!(ExchangeError::RateLimitError("x".to_string()).is_transient());
}

#[test]
fn breaker_threshold_minus_one_stays_closed() {
    let mut b = CircuitBreaker::new(3, 1);
    b.record_failure_at(0);
    b.record_failure_at(1);
    assert!(!b.is_open_at(2));
    b.record_failure_at(2);
    assert!(b.is_open_at(2));
    assert!(b.is_open_at(60_001));
    assert!(!b.is_open_at(60_002));
    b.reset();
    assert!(!b.is_open_at(3));
    b.record_failure();
    assert!(!b.is_open());
}
