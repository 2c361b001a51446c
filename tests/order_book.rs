use rust_decimal::Decimal;
use triangular_arbitrage::decimal::Dec;
use triangular_arbitrage::exchanges::OrderBook;
use triangular_arbitrage::order_book::{ImpactError, OrderBookAnalyzer};

fn d(s: &str) -> Dec {
    Dec::from_str_exact(s).unwrap()
}

fn as_decimal(x: Dec) -> Decimal {
    Decimal::from_i128_with_scale(x.mantissa(), x.scale())
}

fn sample_book() -> OrderBook {
    OrderBook {
        symbol: "BTCUSDT".to_string(),
        bids: vec![(d("50000.0"), d("1.0")), (d("49990.0"), d("2.0"))],
        asks: vec![(d("50010.0"), d("1.0")), (d("50020.0"), d("2.0"))],
        timestamp: 0,
    }
}

#[test]
fn test_order_book_impact_calculation() {
    let order_book = sample_book();
    let impact = OrderBookAnalyzer::calculate_execution_impact(&order_book, d("1.5"), true).unwrap();
    assert!(impact.is_executable);
    assert_eq!(impact.orders_needed, 2);
    assert!(impact.slippage_percentage.is_positive());
}

#[test]
fn test_insufficient_liquidity() {
    let order_book = OrderBook {
        symbol: "BTCUSDT".to_string(),
        bids: vec![],
        asks: vec![(d("50010.0"), d("0.5"))],
        timestamp: 0,
    };
    let result = OrderBookAnalyzer::calculate_execution_impact(&order_book, d("1.0"), true);
    assert!(result.is_err());
}

#[test]
fn impact_weighted_average_and_cost() {
    let impact = OrderBookAnalyzer::calculate_execution_impact(&sample_book(), d("1.5"), true).unwrap();
    let cost = Decimal::from_str_exact("50010.0").unwrap() * Decimal::from_str_exact("1.0").unwrap()
        + Decimal::from_str_exact("50020.0").unwrap() * Decimal::from_str_exact("0.5").unwrap();
    let quantity = Decimal::from_str_exact("1.5").unwrap();
    assert_eq!(as_decimal(impact.total_cost), cost);
    assert_eq!(as_decimal(impact.weighted_avg_price), cost / quantity);
    let best = Decimal::from_str_exact("50010.0").unwrap();
    let slippage = ((cost / quantity - best) / best).abs() * Decimal::ONE_HUNDRED;
    assert_eq!(as_decimal(impact.slippage_percentage), slippage);
}

#[test]
fn impact_target_beyond_book_is_insufficient() {
    let result = OrderBookAnalyzer::calculate_execution_impact(&sample_book(), d("5.0"), true);
    match result {
        Err(ImpactError::InsufficientLiquidity(left)) => assert_eq!(as_decimal(left), Decimal::from(2)),
        _ => panic!("expected insufficient liquidity"),
    }
}

#[test]
fn impact_sell_walks_bids() {
    let impact = OrderBookAnalyzer::calculate_execution_impact(&sample_book(), d("0.5"), false).unwrap();
    assert_eq!(impact.orders_needed, 1);
    assert_eq!(as_decimal(impact.weighted_avg_price), Decimal::from(50000));
    assert!(impact.slippage_percentage.is_zero());
}

#[test]
fn impact_empty_side() {
    let mut book = sample_book();
    book.asks.clear();
    let result = OrderBookAnalyzer::calculate_execution_impact(&book, d("1.0"), true);
    assert!(matches!(result, Err(ImpactError::EmptyBook)));
}

#[test]
fn impact_zero_quantity_cannot_be_priced() {
    let result = OrderBookAnalyzer::calculate_execution_impact(&sample_book(), d("0"), true);
    assert!(matches!(result, Err(ImpactError::ArithmeticOverflow)));
}

#[test]
fn depth_sums_first_ten_levels() {
    let levels: Vec<(Dec, Dec)> = (0..12).map(|_| (d("100"), d("2"))).collect();
    let depth = OrderBookAnalyzer::calculate_depth(&levels).unwrap();
    assert_eq!(as_decimal(depth), Decimal::from(2000));
    let empty: Vec<(Dec, Dec)> = vec![];
    assert!(OrderBookAnalyzer::calculate_depth(&empty).unwrap().is_zero());
}

#[test]
fn minimum_liquidity_on_both_sides() {
    let book = sample_book();
    assert!(OrderBookAnalyzer::check_minimum_liquidity(&book, d("10000")));
    assert!(!OrderBookAnalyzer::check_minimum_liquidity(&book, d("200000")));
    let mut one_sided = sample_book();
    one_sided.bids.clear();
    assert!(!OrderBookAnalyzer::check_minimum_liquidity(&one_sided, d("1")));
}

#[test]
fn execution_time_grows_per_level() {
    assert_eq!(OrderBookAnalyzer::estimate_execution_time(0), 100);
    assert_eq!(OrderBookAnalyzer::estimate_execution_time(2), 200);
    assert_eq!(OrderBookAnalyzer::estimate_execution_time(10), 600);
    assert_eq!(OrderBookAnalyzer::estimate_execution_time(usize::MAX), u64::MAX);
}
