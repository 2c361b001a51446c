//! Execution impact of an order against one venue's order book: the price
//! actually paid when a quantity walks down the levels, and how deep the book
//! is.
use crate::decimal::{
    add_o, div_o, le, abs_o, lemma_cmp_zero, magnitude, min, min_model, minus, mul_o, over, plus, sub_o,
    times, cmp_model, opt_view, Dec, DecModel,
};
use crate::exchanges::OrderBook;
use vstd::prelude::*;

verus! {

/// How many levels on each side count toward the depth of a book.
pub const DEPTH_LEVELS: usize = 10;

/// What the walk down the levels reached: the quantity still unfilled, the
/// cost so far and the number of levels used; `None` where a step overflows.
///
/// Each level fills the smaller of what is left and what it offers, at its
/// price; the walk stops when nothing is left or the levels run out.
pub open spec fn walk(levels: Seq<(Dec, Dec)>, remaining: DecModel, cost: DecModel, used: nat) -> Option<
    (DecModel, DecModel, nat),
>
    decreases levels.len(),
{
    if levels.len() == 0 || cmp_model(remaining, (0, 0)) <= 0 {
        Some((remaining, cost, used))
    } else {
        let fill = min_model(remaining, levels[0].1@);
        match (plus(Some(cost), times(Some(fill), Some(levels[0].0@))), minus(Some(remaining), Some(fill))) {
            (Some(c), Some(r)) => walk(levels.skip(1), r, c, used + 1),
            _ => None,
        }
    }
}

/// The outcome of filling `quantity` from `levels`, best level first.
pub enum ImpactOutcome {
    EmptyBook,
    /// The levels ran out with this quantity still unfilled.
    Short(DecModel),
    Overflow,
    /// Average price, total cost, slippage in percent, levels used.
    Filled(DecModel, DecModel, DecModel, nat),
}

pub open spec fn impact_outcome(levels: Seq<(Dec, Dec)>, quantity: DecModel) -> ImpactOutcome {
    if levels.len() == 0 {
        ImpactOutcome::EmptyBook
    } else {
        match walk(levels, quantity, (0, 0), 0) {
            None => ImpactOutcome::Overflow,
            Some((remaining, cost, used)) => if cmp_model(remaining, (0, 0)) > 0 {
                ImpactOutcome::Short(remaining)
            } else {
                let average = over(Some(cost), Some(quantity));
                let best = Some(levels[0].0@);
                let slippage = times(magnitude(over(minus(average, best), best)), Some((100, 0)));
                match (average, slippage) {
                    (Some(a), Some(s)) => ImpactOutcome::Filled(a, cost, s, used),
                    _ => ImpactOutcome::Overflow,
                }
            },
        }
    }
}

/// The notional of the levels: the sum of price times quantity, summed from
/// the first level on; `None` where it overflows.
pub open spec fn depth(levels: Seq<(Dec, Dec)>) -> Option<DecModel>
    decreases levels.len(),
{
    if levels.len() == 0 {
        Some((0, 0))
    } else {
        plus(depth(levels.drop_last()), times(Some(levels.last().0@), Some(levels.last().1@)))
    }
}

/// The levels that count toward depth: the first ten.
pub open spec fn top_levels(levels: Seq<(Dec, Dec)>) -> Seq<(Dec, Dec)> {
    if levels.len() <= DEPTH_LEVELS {
        levels
    } else {
        levels.take(DEPTH_LEVELS as int)
    }
}

/// Result of filling an order against a book.
#[derive(Clone, Copy, Debug)]
pub struct OrderBookImpact {
    pub weighted_avg_price: Dec,
    pub total_cost: Dec,
    pub slippage_percentage: Dec,
    pub orders_needed: usize,
    pub is_executable: bool,
}

/// Why an order cannot be filled.
#[derive(Clone, Copy, Debug)]
pub enum ImpactError {
    /// The side of the book that the order takes from has no level.
    EmptyBook,
    /// The book runs out; this quantity would stay unfilled.
    InsufficientLiquidity(Dec),
    /// A cost or a price left the range of the decimal type.
    ArithmeticOverflow,
}

pub struct OrderBookAnalyzer;

impl OrderBookAnalyzer {
    /// Fills `quantity` from the asks (a buy) or the bids (a sell), best level
    /// first, and reports the average price paid, its slippage from the best
    /// price and the number of levels used.
    pub fn calculate_execution_impact(order_book: &OrderBook, quantity: Dec, is_buy: bool) -> (r: Result<
        OrderBookImpact,
        ImpactError,
    >)
        ensures
            ({
                let levels = if is_buy {
                    order_book.asks@
                } else {
                    order_book.bids@
                };
                match r {
                    Ok(imp) => imp.is_executable && impact_outcome(levels, quantity@) == ImpactOutcome::Filled(
                        imp.weighted_avg_price@,
                        imp.total_cost@,
                        imp.slippage_percentage@,
                        imp.orders_needed as nat,
                    ),
                    Err(ImpactError::EmptyBook) => impact_outcome(levels, quantity@) == ImpactOutcome::EmptyBook,
                    Err(ImpactError::InsufficientLiquidity(left)) => impact_outcome(levels, quantity@)
                        == ImpactOutcome::Short(left@),
                    Err(ImpactError::ArithmeticOverflow) => impact_outcome(levels, quantity@)
                        == ImpactOutcome::Overflow,
                }
            }),
    {
        let orders = if is_buy {
            &order_book.asks
        } else {
            &order_book.bids
        };
        if orders.len() == 0 {
            return Err(ImpactError::EmptyBook);
        }
        let ghost levels = orders@;
        let zero = Dec::zero();
        let mut remaining = quantity;
        let mut total_cost = Dec::zero();
        let mut orders_needed: usize = 0;
        let mut i: usize = 0;
        proof {
            assert(levels.skip(0) =~= levels);
        }
        while i < orders.len() && !le(&remaining, &zero)
            invariant
                levels == orders@,
                levels == (if is_buy {
                    order_book.asks@
                } else {
                    order_book.bids@
                }),
                zero@ == (0int, 0int),
                i <= orders@.len(),
                orders_needed <= i,
                walk(levels, quantity@, (0, 0), 0) == walk(
                    levels.skip(i as int),
                    remaining@,
                    total_cost@,
                    orders_needed as nat,
                ),
            decreases orders@.len() - i,
        {
            let (price, available) = orders[i];
            proof {
                assert(levels.skip(i as int).skip(1) =~= levels.skip(i + 1));
                assert(levels.skip(i as int)[0] == levels[i as int]);
            }
            let fill = min(remaining, available);
            match (add_o(Some(total_cost), mul_o(Some(fill), Some(price))), sub_o(Some(remaining), Some(fill))) {
                (Some(c), Some(rest)) => {
                    total_cost = c;
                    remaining = rest;
                    orders_needed = orders_needed + 1;
                },
                _ => {
                    return Err(ImpactError::ArithmeticOverflow);
                },
            }
            i = i + 1;
        }
        proof {
            lemma_cmp_zero(remaining@);
        }
        if !le(&remaining, &zero) {
            return Err(ImpactError::InsufficientLiquidity(remaining));
        }
        let best = orders[0].0;
        let average = div_o(Some(total_cost), Some(quantity));
        let hundred = Dec::one_hundred();
        let slippage = mul_o(abs_o(div_o(sub_o(average, Some(best)), Some(best))), Some(hundred));
        match (average, slippage) {
            (Some(a), Some(s)) => Ok(
                OrderBookImpact {
                    weighted_avg_price: a,
                    total_cost,
                    slippage_percentage: s,
                    orders_needed,
                    is_executable: true,
                },
            ),
            _ => Err(ImpactError::ArithmeticOverflow),
        }
    }

    /// Whether both sides of the book hold at least `min_depth_usd` of
    /// notional in their first ten levels. A side whose notional overflows
    /// cannot be measured and fails the check.
    pub fn check_minimum_liquidity(order_book: &OrderBook, min_depth_usd: Dec) -> (r: bool)
        ensures
            r == match (depth(top_levels(order_book.bids@)), depth(top_levels(order_book.asks@))) {
                (Some(b), Some(a)) => cmp_model(b, min_depth_usd@) >= 0 && cmp_model(a, min_depth_usd@) >= 0,
                _ => false,
            },
    {
        let bid_depth = Self::calculate_depth(&order_book.bids);
        let ask_depth = Self::calculate_depth(&order_book.asks);
        match (bid_depth, ask_depth) {
            (Some(b), Some(a)) => crate::decimal::ge(&b, &min_depth_usd) && crate::decimal::ge(&a, &min_depth_usd),
            _ => false,
        }
    }

    /// The notional of the first ten levels; `None` where it overflows.
    pub fn calculate_depth(orders: &Vec<(Dec, Dec)>) -> (r: Option<Dec>)
        ensures
            opt_view(r) == depth(top_levels(orders@)),
    {
        let n = if orders.len() <= DEPTH_LEVELS {
            orders.len()
        } else {
            DEPTH_LEVELS
        };
        let mut sum = Some(Dec::zero());
        let mut i: usize = 0;
        proof {
            assert(orders@.take(0) =~= Seq::<(Dec, Dec)>::empty());
        }
        while i < n
            invariant
                n <= orders@.len(),
                n == top_levels(orders@).len(),
                top_levels(orders@) =~= orders@.take(n as int),
                i <= n,
                opt_view(sum) == depth(orders@.take(i as int)),
            decreases n - i,
        {
            let (price, quantity) = orders[i];
            proof {
                assert(orders@.take(i + 1).drop_last() =~= orders@.take(i as int));
            }
            sum = add_o(sum, mul_o(Some(price), Some(quantity)));
            i = i + 1;
        }
        sum
    }

    /// Milliseconds an order is expected to take: 100 ms, and 50 ms for each
    /// level it consumes, stopping at the largest `u64`.
    pub fn estimate_execution_time(orders_needed: usize) -> (r: u64)
        ensures
            r == (if 100 + 50 * orders_needed <= u64::MAX {
                100 + 50 * orders_needed
            } else {
                u64::MAX as int
            }),
    {
        let levels: u64 = orders_needed as u64;
        if levels > (u64::MAX - 100) / 50 {
            u64::MAX
        } else {
            100 + 50 * levels
        }
    }
}

} // verus!
