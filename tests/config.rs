use triangular_arbitrage::config::{Config, ConfigError};
use triangular_arbitrage::decimal::Dec;

#[test]
fn test_default_config_validation() {
    let config = Config::default();
    assert!(config.validate().is_ok());
}

#[test]
fn test_invalid_config_validation() {
    let mut config = Config::default();

    config.trading.min_profit_threshold = Dec::from_int(-1);
    assert!(config.validate().is_err());

    config = Config::default();
    config.trading.trading_pairs.clear();
    assert!(config.validate().is_err());

    config = Config::default();
    config.exchanges.binance_enabled = false;
    config.exchanges.bybit_enabled = false;
    assert!(config.validate().is_err());
}

#[test]
fn validation_reports_first_broken_rule() {
    let mut config = Config::default();
    config.trading.max_position_size = Dec::zero();
    assert_eq!(config.validate(), Err(ConfigError::NonPositivePositionSize));
    config = Config::default();
    config.trading.max_slippage_percentage = Dec::from_int(11);
    assert_eq!(config.validate(), Err(ConfigError::SlippageOutOfRange));
    config = Config::default();
    config.risk.max_consecutive_errors = 0;
    assert_eq!(config.validate(), Err(ConfigError::NoConsecutiveErrorsAllowed));
    config = Config::default();
    config.risk.circuit_breaker_threshold = 0;
    assert_eq!(config.validate(), Err(ConfigError::ZeroCircuitBreakerThreshold));
    config = Config::default();
    config.exchanges.request_timeout_seconds = 0;
    assert_eq!(config.validate(), Err(ConfigError::ZeroRequestTimeout));
    config = Config::default();
    config.trading.min_profit_threshold = Dec::from_int(-1);
    config.trading.trading_pairs.clear();
    assert_eq!(config.validate(), Err(ConfigError::NegativeMinProfitThreshold));
    assert_eq!(ConfigError::NoTradingPairs.message(), "trading_pairs cannot be empty");
}

#[test]
fn trading_fee_by_venue_name() {
    let config = Config::default();
    assert_eq!(config.get_trading_fee("Binance").to_text(), "0.001");
    assert_eq!(config.get_trading_fee("BYBIT").to_text(), "0.001");
    assert_eq!(config.get_trading_fee("kraken").to_text(), "0.002");
}

#[test]
fn default_config_values() {
    let config = Config::default();
    assert_eq!(config.trading.trading_pairs, vec!["BTCUSDT", "ETHUSDT", "BNBUSDT"]);
    assert!(!config.trading.enable_execution);
    assert_eq!(config.risk.circuit_breaker_threshold, 5);
    assert_eq!(config.monitoring.opportunity_history_days, 7);
}
