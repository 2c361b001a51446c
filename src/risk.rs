//! Advisory risk scores between 0 and 1.
use crate::decimal::{
    abs_o, add_o, div_o, magnitude, min, min_model, minus, mul_o, over, plus, sub_o, times, Dec, DecModel,
};
use vstd::prelude::*;

verus! {

pub open spec fn one() -> DecModel {
    (1, 0)
}

/// Two legs: ten times the relative spread, at most 1. A zero average, or a
/// spread too large to compute, scores 1.
pub open spec fn pair_risk(price_diff: DecModel, avg_price: DecModel) -> DecModel {
    if avg_price.0 == 0 {
        one()
    } else {
        match times(over(Some(price_diff), Some(avg_price)), Some((10, 0))) {
            Some(v) => min_model(v, one()),
            None => one(),
        }
    }
}

/// The mean of three prices, summed from zero as `Sum` does.
pub open spec fn mean3(price1: DecModel, price2: DecModel, price3: DecModel) -> Option<DecModel> {
    over(plus(plus(plus(Some((0, 0)), Some(price1)), Some(price2)), Some(price3)), Some((3, 0)))
}

/// `|p - avg| / avg`.
pub open spec fn deviation(p: DecModel, avg: DecModel) -> Option<DecModel> {
    over(magnitude(minus(Some(p), Some(avg))), Some(avg))
}

/// Three legs: a base of 0.3 plus the mean relative deviation of the three
/// prices from their mean, at most 1. A zero mean, or a deviation too large
/// to compute, scores 1.
pub open spec fn triangle_risk(price1: DecModel, price2: DecModel, price3: DecModel) -> DecModel {
    match mean3(price1, price2, price3) {
        None => one(),
        Some(avg) => if avg.0 == 0 {
            one()
        } else {
            let spread = over(
                plus(
                    plus(plus(Some((0, 0)), deviation(price1, avg)), deviation(price2, avg)),
                    deviation(price3, avg),
                ),
                Some((3, 0)),
            );
            match plus(Some((3, 1)), spread) {
                Some(v) => min_model(v, one()),
                None => one(),
            }
        },
    }
}

/// Risk of a two-leg opportunity from the spread and the average price.
pub fn calculate_risk_score(price_diff: &Dec, avg_price: &Dec) -> (r: Dec)
    ensures
        r@ == pair_risk(price_diff@, avg_price@),
{
    if avg_price.is_zero() {
        return Dec::one();
    }
    match mul_o(div_o(Some(*price_diff), Some(*avg_price)), Some(Dec::from_int(10))) {
        Some(v) => min(v, Dec::one()),
        None => Dec::one(),
    }
}

fn deviation_of(p: &Dec, avg: &Dec) -> (r: Option<Dec>)
    ensures
        crate::decimal::opt_view(r) == deviation(p@, avg@),
{
    div_o(abs_o(sub_o(Some(*p), Some(*avg))), Some(*avg))
}

/// Risk of a three-leg opportunity from its three prices.
pub fn calculate_triangular_risk_score(price1: &Dec, price2: &Dec, price3: &Dec) -> (r: Dec)
    ensures
        r@ == triangle_risk(price1@, price2@, price3@),
{
    let three = Dec::from_int(3);
    let total = add_o(add_o(add_o(Some(Dec::zero()), Some(*price1)), Some(*price2)), Some(*price3));
    let avg = match div_o(total, Some(three)) {
        Some(a) => a,
        None => {
            return Dec::one();
        },
    };
    if avg.is_zero() {
        return Dec::one();
    }
    let deviations = add_o(
        add_o(add_o(Some(Dec::zero()), deviation_of(price1, &avg)), deviation_of(price2, &avg)),
        deviation_of(price3, &avg),
    );
    let spread = div_o(deviations, Some(three));
    match add_o(Some(Dec::fixed(3, 1)), spread) {
        Some(v) => min(v, Dec::one()),
        None => Dec::one(),
    }
}

} // verus!
