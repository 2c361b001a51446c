//! Engine configuration: its defaults and the rules a loaded configuration
//! must meet.
use crate::decimal::{cmp_model, gt, lt, Dec, DecModel};
use vstd::prelude::*;

verus! {

#[derive(Clone, Debug)]
pub struct TradingConfig {
    pub min_profit_threshold: Dec,
    pub max_position_size: Dec,
    pub trading_pairs: Vec<String>,
    pub enable_execution: bool,
    pub max_slippage_percentage: Dec,
    pub min_liquidity_usd: Dec,
}

#[derive(Clone, Debug)]
pub struct RiskConfig {
    pub max_daily_loss: Dec,
    pub max_open_positions: u32,
    pub stop_loss_percentage: Dec,
    pub max_consecutive_errors: u32,
    pub circuit_breaker_threshold: u32,
    pub circuit_breaker_reset_minutes: i64,
}

#[derive(Clone, Debug)]
pub struct ExchangeConfig {
    pub binance_enabled: bool,
    pub bybit_enabled: bool,
    pub rate_limit_ms: u64,
    pub request_timeout_seconds: u64,
    pub max_retries: u32,
}

#[derive(Clone, Debug)]
pub struct MonitoringConfig {
    pub log_level: String,
    pub enable_metrics: bool,
    pub alert_on_errors: bool,
    pub price_staleness_seconds: i64,
    pub opportunity_history_days: i64,
}

#[derive(Clone, Debug)]
pub struct Config {
    pub trading: TradingConfig,
    pub risk: RiskConfig,
    pub exchanges: ExchangeConfig,
    pub monitoring: MonitoringConfig,
}

/// The first rule a configuration breaks.
#[derive(Clone, Copy, Debug, PartialEq, Eq, Structural)]
pub enum ConfigError {
    NegativeMinProfitThreshold,
    NonPositivePositionSize,
    NoTradingPairs,
    SlippageOutOfRange,
    NoConsecutiveErrorsAllowed,
    ZeroCircuitBreakerThreshold,
    NoExchangeEnabled,
    ZeroRequestTimeout,
}

impl ConfigError {
    pub open spec fn spec_message(&self) -> Seq<char> {
        match self {
            ConfigError::NegativeMinProfitThreshold => "min_profit_threshold cannot be negative"@,
            ConfigError::NonPositivePositionSize => "max_position_size must be positive"@,
            ConfigError::NoTradingPairs => "trading_pairs cannot be empty"@,
            ConfigError::SlippageOutOfRange => "max_slippage_percentage must be between 0 and 10"@,
            ConfigError::NoConsecutiveErrorsAllowed => "max_consecutive_errors must be greater than 0"@,
            ConfigError::ZeroCircuitBreakerThreshold => "circuit_breaker_threshold must be greater than 0"@,
            ConfigError::NoExchangeEnabled => "At least one exchange must be enabled"@,
            ConfigError::ZeroRequestTimeout => "request_timeout_seconds must be greater than 0"@,
        }
    }

    pub fn message(&self) -> (r: String)
        ensures
            r@ == self.spec_message(),
    {
        let text = match self {
            ConfigError::NegativeMinProfitThreshold => "min_profit_threshold cannot be negative",
            ConfigError::NonPositivePositionSize => "max_position_size must be positive",
            ConfigError::NoTradingPairs => "trading_pairs cannot be empty",
            ConfigError::SlippageOutOfRange => "max_slippage_percentage must be between 0 and 10",
            ConfigError::NoConsecutiveErrorsAllowed => "max_consecutive_errors must be greater than 0",
            ConfigError::ZeroCircuitBreakerThreshold => "circuit_breaker_threshold must be greater than 0",
            ConfigError::NoExchangeEnabled => "At least one exchange must be enabled",
            ConfigError::ZeroRequestTimeout => "request_timeout_seconds must be greater than 0",
        };
        String::from_str(text)
    }
}

/// The first rule that `c` breaks, in the order they are checked.
pub open spec fn config_error(c: Config) -> Option<ConfigError> {
    if cmp_model(c.trading.min_profit_threshold@, (0, 0)) < 0 {
        Some(ConfigError::NegativeMinProfitThreshold)
    } else if cmp_model(c.trading.max_position_size@, (0, 0)) <= 0 {
        Some(ConfigError::NonPositivePositionSize)
    } else if c.trading.trading_pairs@.len() == 0 {
        Some(ConfigError::NoTradingPairs)
    } else if cmp_model(c.trading.max_slippage_percentage@, (0, 0)) < 0 || cmp_model(
        c.trading.max_slippage_percentage@,
        (10, 0),
    ) > 0 {
        Some(ConfigError::SlippageOutOfRange)
    } else if c.risk.max_consecutive_errors == 0 {
        Some(ConfigError::NoConsecutiveErrorsAllowed)
    } else if c.risk.circuit_breaker_threshold == 0 {
        Some(ConfigError::ZeroCircuitBreakerThreshold)
    } else if !c.exchanges.binance_enabled && !c.exchanges.bybit_enabled {
        Some(ConfigError::NoExchangeEnabled)
    } else if c.exchanges.request_timeout_seconds == 0 {
        Some(ConfigError::ZeroRequestTimeout)
    } else {
        None
    }
}

/// What `str::to_lowercase` returns.
pub uninterp spec fn lowercase(s: Seq<char>) -> Seq<char>;

/// Relies on `str::to_lowercase`, whose result depends on the characters
/// alone.
#[verifier::external_body]
fn to_lowercase(s: &str) -> (r: String)
    ensures
        r@ == lowercase(s@),
{
    s.to_lowercase()
}

/// The taker fee charged by a venue, by name in any case: 0.1% on Binance
/// and Bybit, 0.2% elsewhere.
pub open spec fn venue_fee(exchange: Seq<char>) -> DecModel {
    if lowercase(exchange) == "binance"@ || lowercase(exchange) == "bybit"@ {
        (1, 3)
    } else {
        (2, 3)
    }
}

impl Config {
    /// Checks the rules of a configuration, returning the first it breaks.
    pub fn validate(&self) -> (r: Result<(), ConfigError>)
        ensures
            match r {
                Ok(()) => config_error(*self) is None,
                Err(e) => config_error(*self) == Some(e),
            },
    {
        let zero = Dec::zero();
        if lt(&self.trading.min_profit_threshold, &zero) {
            return Err(ConfigError::NegativeMinProfitThreshold);
        }
        if !gt(&self.trading.max_position_size, &zero) {
            return Err(ConfigError::NonPositivePositionSize);
        }
        if self.trading.trading_pairs.len() == 0 {
            return Err(ConfigError::NoTradingPairs);
        }
        if lt(&self.trading.max_slippage_percentage, &zero) || gt(
            &self.trading.max_slippage_percentage,
            &Dec::from_int(10),
        ) {
            return Err(ConfigError::SlippageOutOfRange);
        }
        if self.risk.max_consecutive_errors == 0 {
            return Err(ConfigError::NoConsecutiveErrorsAllowed);
        }
        if self.risk.circuit_breaker_threshold == 0 {
            return Err(ConfigError::ZeroCircuitBreakerThreshold);
        }
        if !self.exchanges.binance_enabled && !self.exchanges.bybit_enabled {
            return Err(ConfigError::NoExchangeEnabled);
        }
        if self.exchanges.request_timeout_seconds == 0 {
            return Err(ConfigError::ZeroRequestTimeout);
        }
        Ok(())
    }

    /// The taker fee of a venue, by name in any case.
    pub fn get_trading_fee(&self, exchange: &str) -> (r: Dec)
        ensures
            r@ == venue_fee(exchange@),
    {
        let name = to_lowercase(exchange);
        if name == String::from_str("binance") || name == String::from_str("bybit") {
            Dec::fixed(1, 3)
        } else {
            Dec::fixed(2, 3)
        }
    }
}

impl Default for Config {
    /// The defaults: execution off, 0.5% minimum profit, 1000 position
    /// ceiling, three pairs, both venues on, a breaker of 5 failures and 5
    /// minutes, a 30 s staleness window and 7 days of history.
    fn default() -> (r: Config)
        ensures
            config_error(r) is None,
            r.trading.min_profit_threshold@ == (5int, 1int),
            r.trading.max_position_size@ == (10000int, 1int),
            r.trading.trading_pairs@.len() == 3,
            r.trading.trading_pairs@[0]@ == "BTCUSDT"@,
            r.trading.trading_pairs@[1]@ == "ETHUSDT"@,
            r.trading.trading_pairs@[2]@ == "BNBUSDT"@,
            !r.trading.enable_execution,
            r.risk.max_daily_loss@ == (1000int, 1int),
            r.risk.circuit_breaker_threshold == 5,
            r.risk.circuit_breaker_reset_minutes == 5,
            r.exchanges.binance_enabled && r.exchanges.bybit_enabled,
            r.monitoring.price_staleness_seconds == 30,
            r.monitoring.opportunity_history_days == 7,
    {
        let mut trading_pairs: Vec<String> = Vec::new();
        trading_pairs.push(String::from_str("BTCUSDT"));
        trading_pairs.push(String::from_str("ETHUSDT"));
        trading_pairs.push(String::from_str("BNBUSDT"));
        let c = Config {
            trading: TradingConfig {
                min_profit_threshold: Dec::fixed(5, 1),
                max_position_size: Dec::fixed(10000, 1),
                trading_pairs,
                enable_execution: false,
                max_slippage_percentage: Dec::fixed(1, 1),
                min_liquidity_usd: Dec::fixed(100000, 1),
            },
            risk: RiskConfig {
                max_daily_loss: Dec::fixed(1000, 1),
                max_open_positions: 3,
                stop_loss_percentage: Dec::fixed(20, 1),
                max_consecutive_errors: 10,
                circuit_breaker_threshold: 5,
                circuit_breaker_reset_minutes: 5,
            },
            exchanges: ExchangeConfig {
                binance_enabled: true,
                bybit_enabled: true,
                rate_limit_ms: 250,
                request_timeout_seconds: 10,
                max_retries: 3,
            },
            monitoring: MonitoringConfig {
                log_level: String::from_str("info"),
                enable_metrics: true,
                alert_on_errors: true,
                price_staleness_seconds: 30,
                opportunity_history_days: 7,
            },
        };
        proof {
            crate::decimal::lemma_cmp_zero(c.trading.min_profit_threshold@);
            crate::decimal::lemma_cmp_zero(c.trading.max_position_size@);
            crate::decimal::lemma_cmp_zero(c.trading.max_slippage_percentage@);
            assert(crate::decimal::pow10(1) == 10);
        }
        c
    }
}

} // verus!
