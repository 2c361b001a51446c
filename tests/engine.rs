use rust_decimal::Decimal;
use triangular_arbitrage::arbitrage::{ArbitrageEngine, ExecutionDecision};
use triangular_arbitrage::decimal::Dec;
use triangular_arbitrage::detectors::{cross_opportunity, triangular_opportunity, DetectorSettings, TriangularPath};
use triangular_arbitrage::exchanges::{OrderSide, PriceMap, TradingFees};
use triangular_arbitrage::opportunity::ArbitrageOpportunity;

const T0: i64 = 1_700_000_000_000;

fn d(s: &str) -> Dec {
    Dec::from_str_exact(s).unwrap()
}

fn as_decimal(x: Dec) -> Decimal {
    Decimal::from_i128_with_scale(x.mantissa(), x.scale())
}

fn dec(s: &str) -> Decimal {
    Decimal::from_str_exact(s).unwrap()
}

fn settings() -> DetectorSettings {
    DetectorSettings {
        min_profit_threshold: d("0.5"),
        max_position_size: d("1000.0"),
        fees: TradingFees::default(),
    }
}

fn prices(entries: &[(&str, &str)]) -> PriceMap {
    let mut map = PriceMap::new();
    for (symbol, price) in entries {
        map.insert(symbol.to_string(), d(price));
    }
    map
}

fn btc_eth_path() -> TriangularPath {
    TriangularPath {
        pair1: "BTCUSDT".to_string(),
        pair2: "ETHBTC".to_string(),
        pair3: "ETHUSDT".to_string(),
        base: "BTC".to_string(),
        cross: "ETH".to_string(),
        settlement: "USDT".to_string(),
    }
}

fn untimed(found: &[ArbitrageOpportunity]) -> Vec<(String, Vec<String>, Decimal, Decimal, Decimal)> {
    found
        .iter()
        .map(|o| {
            (
                o.exchange.clone(),
                o.path.clone(),
                as_decimal(o.profit_percentage),
                as_decimal(o.net_profit_percentage),
                as_decimal(o.estimated_profit_usd),
            )
        })
        .collect()
}

#[test]
fn cross_percentages_are_exact() {
    let o = cross_opportunity(&settings(), &"Binance".to_string(), &"Bybit".to_string(), &"BTCUSDT".to_string(), d("50000"), d("50500"), T0)
        .unwrap();
    let avg = (dec("50000") + dec("50500")) / Decimal::TWO;
    let gross = ((dec("50000") - dec("50500")).abs() / avg) * Decimal::ONE_HUNDRED;
    let net = gross - dec("0.001") * Decimal::TWO * Decimal::ONE_HUNDRED;
    assert_eq!(as_decimal(o.profit_percentage), gross);
    assert_eq!(as_decimal(o.net_profit_percentage), net);
    assert_eq!(o.exchange, "Bybit->Binance");
    assert_eq!(o.path[0], "Sell BTCUSDT on Bybit at 50500");
    assert_eq!(o.path[1], "Buy BTCUSDT on Binance at 50000");
    assert_eq!(o.execution_steps[0].side, OrderSide::Sell);
    assert_eq!(o.execution_steps[0].action, "Sell on Bybit");
    assert_eq!(o.execution_steps[1].action, "Buy on Binance");
    let qty = dec("1000.0") / dec("50500");
    assert_eq!(as_decimal(o.execution_steps[0].quantity), qty);
    let profit = (dec("50500") - dec("50000")) * qty - dec("50500") * qty * dec("0.001") - dec("50000") * qty * dec("0.001");
    assert_eq!(as_decimal(o.estimated_profit_usd), profit);
    let risk = ((dec("500") / avg) * Decimal::TEN).min(Decimal::ONE);
    assert_eq!(as_decimal(o.risk_score), risk);
    assert_eq!(o.timestamp, T0);
}

#[test]
fn cross_below_threshold_or_equal_prices_is_nothing() {
    let s = settings();
    let a = "Binance".to_string();
    let b = "Bybit".to_string();
    let sym = "BTCUSDT".to_string();
    assert!(cross_opportunity(&s, &a, &b, &sym, d("50000"), d("50000"), T0).is_none());
    assert!(cross_opportunity(&s, &a, &b, &sym, d("50000"), d("50100"), T0).is_none());
    assert!(cross_opportunity(&s, &a, &b, &sym, d("0"), d("0"), T0).is_none());
}

#[test]
fn triangular_consistent_prices_forward_is_rejected() {
    // Forward factor (1/50000) * 0.06 * 3000 = 0.0036: far below break-even.
    let o = triangular_opportunity(&settings(), &btc_eth_path(), &"Binance".to_string(), d("50000"), d("0.06"), d("3000"), T0);
    // The reverse direction of the same prices, (1/3000) * (1/0.06) * 50000,
    // clears the threshold, so the plan emitted is the reverse one.
    let o = o.unwrap();
    assert_eq!(o.execution_steps[0].action, "Buy ETH with USDT");
    assert_eq!(o.execution_steps[0].symbol, "ETHUSDT");
    assert_eq!(o.execution_steps[1].side, OrderSide::Buy);
    assert_eq!(o.execution_steps[2].action, "Sell BTC for USDT");
    let forward = (Decimal::ONE / dec("50000")) * dec("0.06") * dec("3000");
    assert_eq!(forward, dec("0.0036"));
    let reverse = (Decimal::ONE / dec("3000")) * (Decimal::ONE / dec("0.06")) * dec("50000");
    assert_eq!(as_decimal(o.profit_percentage), (reverse - Decimal::ONE) * Decimal::ONE_HUNDRED);
}

#[test]
fn triangular_forward_opportunity() {
    // (1/100) * 10 * 11 = 1.1: a 10% forward cycle.
    let o = triangular_opportunity(&settings(), &btc_eth_path(), &"Bybit".to_string(), d("100"), d("10"), d("11"), T0)
        .unwrap();
    assert_eq!(o.exchange, "Bybit");
    assert_eq!(as_decimal(o.profit_percentage), dec("10.0"));
    assert_eq!(as_decimal(o.net_profit_percentage), dec("9.7"));
    assert_eq!(o.path[1], "Trade BTC to ETH via ETHBTC at 10");
    assert_eq!(o.execution_steps[0].action, "Buy BTC with USDT");
    assert_eq!(as_decimal(o.execution_steps[0].quantity), dec("10"));
    assert_eq!(as_decimal(o.execution_steps[2].quantity), dec("100"));
    assert_eq!(as_decimal(o.estimated_profit_usd), dec("1000.0") * dec("0.1") - dec("1000.0") * dec("0.003"));
}

#[test]
fn triangular_balanced_cycle_is_nothing() {
    // (1/100) * 10 * 10 = 1 and its reverse = 1: no edge either way.
    let o = triangular_opportunity(&settings(), &btc_eth_path(), &"Bybit".to_string(), d("100"), d("10"), d("10"), T0);
    assert!(o.is_none());
    let z = triangular_opportunity(&settings(), &btc_eth_path(), &"Bybit".to_string(), d("0"), d("10"), d("10"), T0);
    assert!(z.is_none());
}

#[test]
fn freshness_second_observation_within_window() {
    let mut engine = ArbitrageEngine::new();
    let sym = "BTCUSDT".to_string();
    assert!(engine.is_price_fresh(&sym, d("50000"), d("50500"), T0));
    assert!(engine.is_price_fresh(&sym, d("50000"), d("50500"), T0 + 10_000));
    assert!(!engine.is_price_fresh(&sym, d("50000"), d("60000"), T0 + 20_000));
    assert!(!engine.is_price_fresh(&sym, d("50000"), d("60000"), T0 + 20_001));
}

#[test]
fn freshness_stale_previous_observation() {
    let mut engine = ArbitrageEngine::new();
    let sym = "ETHUSDT".to_string();
    assert!(engine.is_price_fresh(&sym, d("3000"), d("3001"), T0));
    assert!(!engine.is_price_fresh(&sym, d("3000"), d("3001"), T0 + 30_001));
    // The rejected observation was still recorded, so the next one is fresh.
    assert!(engine.is_price_fresh(&sym, d("3000"), d("3001"), T0 + 30_002));
    assert!(!engine.is_price_fresh(&"ZERO".to_string(), d("0"), d("0"), T0));
}

#[test]
fn breaker_opens_at_threshold() {
    let mut engine = ArbitrageEngine::new();
    for i in 0..4 {
        engine.record_failure_at(T0 + i);
    }
    assert!(!engine.is_circuit_open_at(T0 + 10));
    engine.record_failure_at(T0 + 10);
    assert!(engine.is_circuit_open_at(T0 + 10));
    assert!(engine.is_circuit_open_at(T0 + 10 + 299_999));
    assert!(!engine.is_circuit_open_at(T0 + 10 + 300_000));
    engine.reset_circuit_breaker();
    assert!(!engine.is_circuit_open_at(T0 + 11));
}

#[test]
fn open_breaker_skips_analysis_and_execution() {
    let mut engine = ArbitrageEngine::new();
    for _ in 0..5 {
        engine.record_failure_at(T0);
    }
    let a = prices(&[("BTCUSDT", "50000")]);
    let b = prices(&[("BTCUSDT", "50500")]);
    assert!(engine.analyze_opportunities_at(&a, &b, T0 + 1).is_empty());
    let o = cross_opportunity(&settings(), &"Binance".to_string(), &"Bybit".to_string(), &"BTCUSDT".to_string(), d("50000"), d("50500"), T0)
        .unwrap();
    assert_eq!(engine.execute_arbitrage_at(&o, T0 + 1), ExecutionDecision::CircuitOpen);
    engine.reset_circuit_breaker();
    assert_eq!(engine.execute_arbitrage_at(&o, T0 + 1), ExecutionDecision::ExecutionDisabled);
    let mut risky = o.clone();
    risky.risk_score = d("0.8");
    assert_eq!(engine.execute_arbitrage_at(&risky, T0 + 1), ExecutionDecision::RiskTooHigh);
}

#[test]
fn analysis_records_cross_opportunity() {
    let mut engine = ArbitrageEngine::new();
    let a = prices(&[("BTCUSDT", "50000"), ("ETHUSDT", "3000")]);
    let b = prices(&[("BTCUSDT", "50500"), ("ETHUSDT", "3000")]);
    let found = engine.analyze_opportunities_at(&a, &b, T0);
    assert_eq!(found.len(), 1);
    assert_eq!(found[0].exchange, "Bybit->Binance");
    let day = "20231114".to_string();
    let stored = engine.opportunity_history(&"Bybit->Binance".to_string(), &day).unwrap();
    assert_eq!(stored.len(), 1);
    assert_eq!(stored[0].timestamp, T0);
}

#[test]
fn repeated_analysis_finds_the_same() {
    let mut engine = ArbitrageEngine::new();
    let a = prices(&[("BTCUSDT", "50000"), ("ETHUSDT", "3000"), ("ETHBTC", "0.06")]);
    let b = prices(&[("BTCUSDT", "50500"), ("ETHUSDT", "3000"), ("ETHBTC", "0.06")]);
    let first = engine.analyze_opportunities_at(&a, &b, T0);
    let second = engine.analyze_opportunities_at(&a, &b, T0 + 5_000);
    assert!(!first.is_empty());
    assert_eq!(untimed(&first), untimed(&second));
    assert!(second.iter().all(|o| o.timestamp == T0 + 5_000));
    let stored = engine.opportunity_history(&"Bybit->Binance".to_string(), &"20231114".to_string()).unwrap();
    assert_eq!(stored.len(), 2);
    assert_eq!(stored[0].timestamp, T0);
    assert_eq!(stored[1].timestamp, T0 + 5_000);
}

#[test]
fn history_drops_opportunities_older_than_a_week() {
    let mut engine = ArbitrageEngine::new();
    let template = cross_opportunity(&settings(), &"Binance".to_string(), &"Bybit".to_string(), &"BTCUSDT".to_string(), d("50000"), d("50500"), T0)
        .unwrap();
    let eight_days = 8 * 86_400_000;
    for k in 0..3 {
        let mut old = template.clone();
        old.timestamp = T0 - eight_days + k;
        engine.record_opportunity(&old, T0);
    }
    assert!(engine.opportunity_history(&"Bybit->Binance".to_string(), &"20231106".to_string()).is_none());
    engine.record_opportunity(&template, T0);
    let kept = engine.opportunity_history(&"Bybit->Binance".to_string(), &"20231114".to_string()).unwrap();
    assert_eq!(kept.len(), 1);
    // A week later the same entry is pruned on the next write.
    let mut later = template.clone();
    later.timestamp = T0 + 7 * 86_400_000;
    engine.record_opportunity(&later, T0 + 7 * 86_400_000);
    assert!(engine.opportunity_history(&"Bybit->Binance".to_string(), &"20231114".to_string()).is_none());
}

#[test]
fn default_engine_watches_six_pairs() {
    let mut engine = ArbitrageEngine::new();
    let a = prices(&[
        ("BTCUSDT", "100"),
        ("ETHUSDT", "100"),
        ("BNBUSDT", "100"),
        ("ADAUSDT", "100"),
        ("DOTUSDT", "100"),
        ("SOLUSDT", "100"),
        ("XRPUSDT", "100"),
    ]);
    let b = prices(&[
        ("BTCUSDT", "101"),
        ("ETHUSDT", "101"),
        ("BNBUSDT", "101"),
        ("ADAUSDT", "101"),
        ("DOTUSDT", "101"),
        ("SOLUSDT", "101"),
        ("XRPUSDT", "101"),
    ]);
    let found = engine.analyze_opportunities_at(&a, &b, T0);
    let symbols: Vec<String> = found.iter().map(|o| o.execution_steps[0].symbol.clone()).collect();
    assert_eq!(symbols, vec!["BTCUSDT", "ETHUSDT", "BNBUSDT", "ADAUSDT", "DOTUSDT", "SOLUSDT"]);
}

#[test]
fn cross_opportunity_within_window_is_kept_last() {
    let mut engine = ArbitrageEngine::new();
    let first = cross_opportunity(&settings(), &"Binance".to_string(), &"Bybit".to_string(), &"BTCUSDT".to_string(), d("50000"), d("50500"), T0)
        .unwrap();
    let mut second = first.clone();
    second.timestamp = T0 + 1;
    engine.record_opportunity(&first, T0);
    engine.record_opportunity(&second, T0 + 1);
    let kept = engine.opportunity_history(&"Bybit->Binance".to_string(), &"20231114".to_string()).unwrap();
    assert_eq!(kept.len(), 2);
    assert_eq!(kept[1].timestamp, T0 + 1);
}
