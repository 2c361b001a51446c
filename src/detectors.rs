//! The two detectors: a spread of one symbol between two venues, and a
//! three-leg cycle within one venue. Each turns prices into an opportunity
//! record with its execution plan, or into nothing.
use crate::decimal::{
    cmp_model, decimal_text, gt, magnitude, minus, opt_view, over, plus, times, Dec, DecModel, abs_o, add_o,
    div_o, mul_o, sub_o,
};
use crate::exchanges::{OrderSide, TradingFees};
use crate::opportunity::{ArbitrageOpportunity, ExecutionStep, OpportunityModel, StepModel, steps, texts};
use crate::risk::{calculate_risk_score, calculate_triangular_risk_score, pair_risk, triangle_risk};
use vstd::prelude::*;

verus! {

/// The numbers a detector works with.
#[derive(Clone, Copy, Debug)]
pub struct DetectorSettings {
    /// Net profit, in percent, that an opportunity must exceed.
    pub min_profit_threshold: Dec,
    /// Notional, in the settlement currency, that a plan commits.
    pub max_position_size: Dec,
    pub fees: TradingFees,
}

/// A three-leg cycle on one venue: `pair1` quotes `base` and `pair3` quotes
/// `cross` in `settlement`; `pair2` quotes `cross` in `base`.
#[derive(Clone, Debug)]
pub struct TriangularPath {
    pub pair1: String,
    pub pair2: String,
    pub pair3: String,
    pub base: String,
    pub cross: String,
    pub settlement: String,
}

pub open spec fn two() -> Option<DecModel> {
    Some((2, 0))
}

pub open spec fn hundred() -> Option<DecModel> {
    Some((100, 0))
}

pub open spec fn unit() -> Option<DecModel> {
    Some((1, 0))
}

/// `(a + b) / 2`.
pub open spec fn average(a: DecModel, b: DecModel) -> Option<DecModel> {
    over(plus(Some(a), Some(b)), two())
}

/// `|a - b| / avg * 100`.
pub open spec fn cross_gross(a: DecModel, b: DecModel, avg: DecModel) -> Option<DecModel> {
    times(over(magnitude(minus(Some(a), Some(b))), Some(avg)), hundred())
}

/// `gross - fee * legs * 100`.
pub open spec fn net_of_fees(gross: Option<DecModel>, taker_fee: DecModel, legs: int) -> Option<DecModel> {
    minus(gross, times(times(Some(taker_fee), Some((legs, 0))), hundred()))
}

pub open spec fn step_model(
    action: Seq<char>,
    symbol: Seq<char>,
    side: OrderSide,
    quantity: DecModel,
    price: DecModel,
    fees: DecModel,
) -> StepModel {
    StepModel { action, symbol, side, quantity, expected_price: price, fees }
}

/// The two-leg plan for a symbol priced `pa` on venue `va` and `pb` on venue
/// `vb`: sell where it is dearer, buy where it is cheaper, each leg sized at
/// the position ceiling over the selling price.
pub open spec fn cross_plan(
    s: DetectorSettings,
    va: Seq<char>,
    vb: Seq<char>,
    symbol: Seq<char>,
    pa: DecModel,
    pb: DecModel,
    diff: DecModel,
    avg: DecModel,
    gross: DecModel,
    net: DecModel,
    now: int,
) -> Option<OpportunityModel> {
    let a_sells = cmp_model(pa, pb) > 0;
    let sell_venue = if a_sells { va } else { vb };
    let buy_venue = if a_sells { vb } else { va };
    let sell = if a_sells { pa } else { pb };
    let buy = if a_sells { pb } else { pa };
    let taker = Some(s.fees.taker_fee@);
    let qty = over(Some(s.max_position_size@), Some(sell));
    let sell_fee = times(times(Some(sell), qty), taker);
    let buy_fee = times(times(Some(buy), qty), taker);
    let profit = minus(minus(times(minus(Some(sell), Some(buy)), qty), sell_fee), buy_fee);
    match (qty, sell_fee, buy_fee, profit) {
        (Some(q), Some(sf), Some(bf), Some(p)) => Some(
            OpportunityModel {
                exchange: sell_venue + "->"@ + buy_venue,
                path: seq![
                    "Sell "@ + symbol + " on "@ + sell_venue + " at "@ + decimal_text(sell),
                    "Buy "@ + symbol + " on "@ + buy_venue + " at "@ + decimal_text(buy),
                ],
                profit_percentage: gross,
                net_profit_percentage: net,
                required_amount: s.max_position_size@,
                estimated_profit_usd: p,
                risk_score: pair_risk(diff, avg),
                execution_steps: seq![
                    step_model("Sell on "@ + sell_venue, symbol, OrderSide::Sell, q, sell, sf),
                    step_model("Buy on "@ + buy_venue, symbol, OrderSide::Buy, q, buy, bf),
                ],
                timestamp: now,
            },
        ),
        _ => None,
    }
}

/// The cross-venue opportunity for a symbol whose prices passed the
/// freshness guard: none where the average price is zero or a figure
/// overflows, or where the net percentage does not exceed the threshold.
pub open spec fn cross_candidate(
    s: DetectorSettings,
    va: Seq<char>,
    vb: Seq<char>,
    symbol: Seq<char>,
    pa: DecModel,
    pb: DecModel,
    now: int,
) -> Option<OpportunityModel> {
    match average(pa, pb) {
        None => None,
        Some(avg) => if avg.0 == 0 {
            None
        } else {
            let diff = magnitude(minus(Some(pa), Some(pb)));
            let gross = cross_gross(pa, pb, avg);
            let net = net_of_fees(gross, s.fees.taker_fee@, 2);
            match (diff, gross, net) {
                (Some(d), Some(g), Some(n)) => if cmp_model(n, s.min_profit_threshold@) > 0 {
                    cross_plan(s, va, vb, symbol, pa, pb, d, avg, g, n, now)
                } else {
                    None
                },
                _ => None,
            }
        },
    }
}

/// What one unit of settlement currency becomes around the cycle forward
/// (settlement, base, cross, settlement): `(1 / price1) * price2 * price3`.
pub open spec fn forward_factor(price1: DecModel, price2: DecModel, price3: DecModel) -> Option<DecModel> {
    times(times(over(unit(), Some(price1)), Some(price2)), Some(price3))
}

/// The same in reverse (settlement, cross, base, settlement):
/// `(1 / price3) * (1 / price2) * price1`.
pub open spec fn reverse_factor(price1: DecModel, price2: DecModel, price3: DecModel) -> Option<DecModel> {
    times(times(over(unit(), Some(price3)), over(unit(), Some(price2))), Some(price1))
}

/// `(factor - 1) * 100`.
pub open spec fn cycle_gross(factor: Option<DecModel>) -> Option<DecModel> {
    times(minus(factor, unit()), hundred())
}

/// The expected profit of a cycle: `amount * (factor - 1) - amount * 3 * fee`.
pub open spec fn cycle_profit(s: DetectorSettings, factor: DecModel) -> Option<DecModel> {
    let amount = Some(s.max_position_size@);
    minus(
        times(amount, minus(Some(factor), unit())),
        times(amount, times(Some(s.fees.taker_fee@), Some((3, 0)))),
    )
}

pub open spec fn forward_plan(
    s: DetectorSettings,
    t: TriangularPath,
    venue: Seq<char>,
    price1: DecModel,
    price2: DecModel,
    price3: DecModel,
    factor: DecModel,
    gross: DecModel,
    net: DecModel,
    now: int,
) -> Option<OpportunityModel> {
    let amount = Some(s.max_position_size@);
    let taker = Some(s.fees.taker_fee@);
    let q1 = over(amount, Some(price1));
    let q2 = times(q1, Some(price2));
    let fee1 = times(amount, taker);
    let fee2 = times(times(q1, Some(price2)), taker);
    let fee3 = times(times(q2, Some(price3)), taker);
    match (q1, q2, fee1, fee2, fee3, cycle_profit(s, factor)) {
        (Some(a1), Some(a2), Some(f1), Some(f2), Some(f3), Some(p)) => Some(
            OpportunityModel {
                exchange: venue,
                path: seq![
                    "Buy "@ + t.base@ + " with "@ + t.settlement@ + " at "@ + decimal_text(price1),
                    "Trade "@ + t.base@ + " to "@ + t.cross@ + " via "@ + t.pair2@ + " at "@ + decimal_text(price2),
                    "Sell "@ + t.cross@ + " for "@ + t.settlement@ + " at "@ + decimal_text(price3),
                ],
                profit_percentage: gross,
                net_profit_percentage: net,
                required_amount: s.max_position_size@,
                estimated_profit_usd: p,
                risk_score: triangle_risk(price1, price2, price3),
                execution_steps: seq![
                    step_model("Buy "@ + t.base@ + " with "@ + t.settlement@, t.pair1@, OrderSide::Buy, a1, price1, f1),
                    step_model("Trade "@ + t.base@ + " to "@ + t.cross@, t.pair2@, OrderSide::Sell, a1, price2, f2),
                    step_model("Sell "@ + t.cross@ + " for "@ + t.settlement@, t.pair3@, OrderSide::Sell, a2, price3, f3),
                ],
                timestamp: now,
            },
        ),
        _ => None,
    }
}

pub open spec fn reverse_plan(
    s: DetectorSettings,
    t: TriangularPath,
    venue: Seq<char>,
    price1: DecModel,
    price2: DecModel,
    price3: DecModel,
    factor: DecModel,
    gross: DecModel,
    net: DecModel,
    now: int,
) -> Option<OpportunityModel> {
    let amount = Some(s.max_position_size@);
    let taker = Some(s.fees.taker_fee@);
    let q3 = over(amount, Some(price3));
    let q2 = over(q3, Some(price2));
    let fee1 = times(amount, taker);
    let fee2 = times(q3, taker);
    let fee3 = times(times(q2, Some(price1)), taker);
    match (q3, q2, fee1, fee2, fee3, cycle_profit(s, factor)) {
        (Some(a3), Some(a2), Some(f1), Some(f2), Some(f3), Some(p)) => Some(
            OpportunityModel {
                exchange: venue,
                path: seq![
                    "Buy "@ + t.cross@ + " with "@ + t.settlement@ + " at "@ + decimal_text(price3),
                    "Trade "@ + t.cross@ + " to "@ + t.base@ + " via "@ + t.pair2@ + " at "@ + decimal_text(price2),
                    "Sell "@ + t.base@ + " for "@ + t.settlement@ + " at "@ + decimal_text(price1),
                ],
                profit_percentage: gross,
                net_profit_percentage: net,
                required_amount: s.max_position_size@,
                estimated_profit_usd: p,
                risk_score: triangle_risk(price1, price2, price3),
                execution_steps: seq![
                    step_model("Buy "@ + t.cross@ + " with "@ + t.settlement@, t.pair3@, OrderSide::Buy, a3, price3, f1),
                    step_model("Trade "@ + t.cross@ + " to "@ + t.base@, t.pair2@, OrderSide::Buy, a2, price2, f2),
                    step_model("Sell "@ + t.base@ + " for "@ + t.settlement@, t.pair1@, OrderSide::Sell, a2, price1, f3),
                ],
                timestamp: now,
            },
        ),
        _ => None,
    }
}

/// Whether a cycle direction clears the threshold: its net percentage is
/// computed and exceeds it.
pub open spec fn clears(s: DetectorSettings, factor: Option<DecModel>) -> bool {
    match (factor, cycle_gross(factor), net_of_fees(cycle_gross(factor), s.fees.taker_fee@, 3)) {
        (Some(_), Some(_), Some(n)) => cmp_model(n, s.min_profit_threshold@) > 0,
        _ => false,
    }
}

/// The cycle's opportunity on one venue: forward when it clears the
/// threshold, else reverse when that does; none where a price is zero.
pub open spec fn triangular_candidate(
    s: DetectorSettings,
    t: TriangularPath,
    venue: Seq<char>,
    price1: DecModel,
    price2: DecModel,
    price3: DecModel,
    now: int,
) -> Option<OpportunityModel> {
    if price1.0 == 0 || price2.0 == 0 || price3.0 == 0 {
        None
    } else {
        let f = forward_factor(price1, price2, price3);
        let r = reverse_factor(price1, price2, price3);
        if clears(s, f) {
            forward_plan(
                s,
                t,
                venue,
                price1,
                price2,
                price3,
                f.unwrap(),
                cycle_gross(f).unwrap(),
                net_of_fees(cycle_gross(f), s.fees.taker_fee@, 3).unwrap(),
                now,
            )
        } else if clears(s, r) {
            reverse_plan(
                s,
                t,
                venue,
                price1,
                price2,
                price3,
                r.unwrap(),
                cycle_gross(r).unwrap(),
                net_of_fees(cycle_gross(r), s.fees.taker_fee@, 3).unwrap(),
                now,
            )
        } else {
            None
        }
    }
}

/// The triangular detector reports a cycle only where one of its directions
/// clears the threshold, and where one does and that direction's plan is
/// computed without overflow, it reports the cycle: the forward direction
/// when that clears, else the reverse one.
pub proof fn lemma_triangular_threshold(
    s: DetectorSettings,
    t: TriangularPath,
    venue: Seq<char>,
    price1: DecModel,
    price2: DecModel,
    price3: DecModel,
    now: int,
)
    ensures
        ({
            let f = forward_factor(price1, price2, price3);
            let r = reverse_factor(price1, price2, price3);
            let fwd = forward_plan(
                s,
                t,
                venue,
                price1,
                price2,
                price3,
                f.unwrap(),
                cycle_gross(f).unwrap(),
                net_of_fees(cycle_gross(f), s.fees.taker_fee@, 3).unwrap(),
                now,
            );
            let rev = reverse_plan(
                s,
                t,
                venue,
                price1,
                price2,
                price3,
                r.unwrap(),
                cycle_gross(r).unwrap(),
                net_of_fees(cycle_gross(r), s.fees.taker_fee@, 3).unwrap(),
                now,
            );
            let candidate = triangular_candidate(s, t, venue, price1, price2, price3, now);
            &&& candidate is Some ==> (clears(s, f) || clears(s, r))
            &&& (price1.0 != 0 && price2.0 != 0 && price3.0 != 0 && clears(s, f) && fwd is Some) ==> candidate == fwd
            &&& (price1.0 != 0 && price2.0 != 0 && price3.0 != 0 && !clears(s, f) && clears(s, r) && rev is Some)
                ==> candidate == rev
        }),
{
}

/// For prices with a positive average: whenever the cross detector reports
/// an opportunity, its gross percentage is exactly `|pa - pb| / avg * 100`
/// and its net percentage exactly that less `2 * taker_fee * 100`, above the
/// threshold; where the net percentage is computed and does not exceed the
/// threshold, nothing is reported.
pub proof fn lemma_cross_percentages(
    s: DetectorSettings,
    va: Seq<char>,
    vb: Seq<char>,
    symbol: Seq<char>,
    pa: DecModel,
    pb: DecModel,
    now: int,
)
    requires
        average(pa, pb) matches Some(avg) && cmp_model(avg, (0, 0)) > 0,
    ensures
        ({
            let avg = average(pa, pb)->0;
            let gross = times(over(magnitude(minus(Some(pa), Some(pb))), Some(avg)), Some((100, 0)));
            let net = minus(gross, times(times(Some(s.fees.taker_fee@), Some((2, 0))), Some((100, 0))));
            &&& cross_candidate(s, va, vb, symbol, pa, pb, now) matches Some(o) ==> {
                &&& gross == Some(o.profit_percentage)
                &&& net == Some(o.net_profit_percentage)
                &&& cmp_model(o.net_profit_percentage, s.min_profit_threshold@) > 0
            }
            &&& (net is Some && cmp_model(net->0, s.min_profit_threshold@) <= 0) ==> cross_candidate(
                s,
                va,
                vb,
                symbol,
                pa,
                pb,
                now,
            ) is None
        }),
{
    let avg = average(pa, pb)->0;
    crate::decimal::lemma_cmp_zero(avg);
}

pub open spec fn opt_model(o: Option<ArbitrageOpportunity>) -> Option<OpportunityModel> {
    match o {
        Some(x) => Some(x@),
        None => None,
    }
}

/// `a + b + c + d` as text.
fn phrase(a: &str, b: &str, c: &str, d: &str) -> (r: String)
    ensures
        r@ == a@ + b@ + c@ + d@,
{
    let mut s = String::from_str(a);
    s.append(b);
    s.append(c);
    s.append(d);
    s
}

/// `s + " at " + price` as text.
fn at_price(s: String, price: &Dec) -> (r: String)
    ensures
        r@ == s@ + " at "@ + decimal_text(price@),
{
    let mut r = s;
    r.append(" at ");
    let p = price.to_text();
    r.append(p.as_str());
    r
}

/// `a + b` as text.
fn concat(a: &str, b: &str) -> (r: String)
    ensures
        r@ == a@ + b@,
{
    let mut s = String::from_str(a);
    s.append(b);
    s
}

fn step(action: String, symbol: &String, side: OrderSide, quantity: Dec, price: Dec, fees: Dec) -> (r: ExecutionStep)
    ensures
        r@ == step_model(action@, symbol@, side, quantity@, price@, fees@),
{
    ExecutionStep { action, symbol: symbol.clone(), side, quantity, expected_price: price, fees }
}

fn two_of<T>(a: T, b: T) -> (r: Vec<T>)
    ensures
        r@ == seq![a, b],
{
    let mut v = Vec::new();
    v.push(a);
    v.push(b);
    v
}

fn three_of<T>(a: T, b: T, c: T) -> (r: Vec<T>)
    ensures
        r@ == seq![a, b, c],
{
    let mut v = Vec::new();
    v.push(a);
    v.push(b);
    v.push(c);
    v
}

/// The two-leg plan of `cross_plan`.
fn build_cross_plan(
    s: &DetectorSettings,
    va: &String,
    vb: &String,
    symbol: &String,
    pa: Dec,
    pb: Dec,
    diff: Dec,
    avg: Dec,
    gross: Dec,
    net: Dec,
    now: i64,
) -> (r: Option<ArbitrageOpportunity>)
    ensures
        opt_model(r) == cross_plan(*s, va@, vb@, symbol@, pa@, pb@, diff@, avg@, gross@, net@, now as int),
{
    let a_sells = gt(&pa, &pb);
    let (sell_venue, buy_venue, sell, buy) = if a_sells {
        (va, vb, pa, pb)
    } else {
        (vb, va, pb, pa)
    };
    let taker = Some(s.fees.taker_fee);
    let qty = div_o(Some(s.max_position_size), Some(sell));
    let sell_fee = mul_o(mul_o(Some(sell), qty), taker);
    let buy_fee = mul_o(mul_o(Some(buy), qty), taker);
    let profit = sub_o(sub_o(mul_o(sub_o(Some(sell), Some(buy)), qty), sell_fee), buy_fee);
    match (qty, sell_fee, buy_fee, profit) {
        (Some(q), Some(sf), Some(bf), Some(p)) => {
            let mut exchange = concat(sell_venue.as_str(), "->");
            exchange.append(buy_venue.as_str());
            let path = two_of(
                at_price(phrase("Sell ", symbol.as_str(), " on ", sell_venue.as_str()), &sell),
                at_price(phrase("Buy ", symbol.as_str(), " on ", buy_venue.as_str()), &buy),
            );
            let plan = two_of(
                step(concat("Sell on ", sell_venue.as_str()), symbol, OrderSide::Sell, q, sell, sf),
                step(concat("Buy on ", buy_venue.as_str()), symbol, OrderSide::Buy, q, buy, bf),
            );
            let risk_score = calculate_risk_score(&diff, &avg);
            let o = ArbitrageOpportunity {
                exchange,
                path,
                profit_percentage: gross,
                net_profit_percentage: net,
                required_amount: s.max_position_size,
                estimated_profit_usd: p,
                risk_score,
                execution_steps: plan,
                timestamp: now,
            };
            proof {
                assert(texts(o.path@) =~= cross_plan(*s, va@, vb@, symbol@, pa@, pb@, diff@, avg@, gross@, net@, now as int)->0.path);
                assert(steps(o.execution_steps@) =~= cross_plan(*s, va@, vb@, symbol@, pa@, pb@, diff@, avg@, gross@, net@, now as int)->0.execution_steps);
            }
            Some(o)
        },
        _ => None,
    }
}

/// Looks for a spread of `symbol` between venue `va` (price `pa`) and venue
/// `vb` (price `pb`) whose net percentage, after the taker fee on both legs,
/// exceeds the threshold. The prices are taken to have passed the freshness
/// guard.
pub fn cross_opportunity(
    s: &DetectorSettings,
    va: &String,
    vb: &String,
    symbol: &String,
    pa: Dec,
    pb: Dec,
    now: i64,
) -> (r: Option<ArbitrageOpportunity>)
    ensures
        opt_model(r) == cross_candidate(*s, va@, vb@, symbol@, pa@, pb@, now as int),
{
    let avg = match div_o(add_o(Some(pa), Some(pb)), Some(Dec::two())) {
        Some(a) => a,
        None => {
            return None;
        },
    };
    if avg.is_zero() {
        return None;
    }
    let hundred = Dec::one_hundred();
    let diff = abs_o(sub_o(Some(pa), Some(pb)));
    let gross = mul_o(div_o(diff, Some(avg)), Some(hundred));
    let net = sub_o(gross, mul_o(mul_o(Some(s.fees.taker_fee), Some(Dec::two())), Some(hundred)));
    match (diff, gross, net) {
        (Some(d), Some(g), Some(n)) => {
            if gt(&n, &s.min_profit_threshold) {
                build_cross_plan(s, va, vb, symbol, pa, pb, d, avg, g, n, now)
            } else {
                None
            }
        },
        _ => None,
    }
}

/// Gross and net percentages of a cycle direction with the given factor.
fn cycle_figures(s: &DetectorSettings, factor: Option<Dec>) -> (r: (Option<Dec>, Option<Dec>))
    ensures
        opt_view(r.0) == cycle_gross(opt_view(factor)),
        opt_view(r.1) == net_of_fees(cycle_gross(opt_view(factor)), s.fees.taker_fee@, 3),
{
    let hundred = Dec::one_hundred();
    let gross = mul_o(sub_o(factor, Some(Dec::one())), Some(hundred));
    let net = sub_o(gross, mul_o(mul_o(Some(s.fees.taker_fee), Some(Dec::from_int(3))), Some(hundred)));
    (gross, net)
}

fn cycle_profit_of(s: &DetectorSettings, factor: Dec) -> (r: Option<Dec>)
    ensures
        opt_view(r) == cycle_profit(*s, factor@),
{
    let amount = Some(s.max_position_size);
    sub_o(
        mul_o(amount, sub_o(Some(factor), Some(Dec::one()))),
        mul_o(amount, mul_o(Some(s.fees.taker_fee), Some(Dec::from_int(3)))),
    )
}

fn build_forward_plan(
    s: &DetectorSettings,
    t: &TriangularPath,
    venue: &String,
    price1: Dec,
    price2: Dec,
    price3: Dec,
    factor: Dec,
    gross: Dec,
    net: Dec,
    now: i64,
) -> (r: Option<ArbitrageOpportunity>)
    ensures
        opt_model(r) == forward_plan(*s, *t, venue@, price1@, price2@, price3@, factor@, gross@, net@, now as int),
{
    let amount = Some(s.max_position_size);
    let taker = Some(s.fees.taker_fee);
    let q1 = div_o(amount, Some(price1));
    let q2 = mul_o(q1, Some(price2));
    let fee1 = mul_o(amount, taker);
    let fee2 = mul_o(mul_o(q1, Some(price2)), taker);
    let fee3 = mul_o(mul_o(q2, Some(price3)), taker);
    match (q1, q2, fee1, fee2, fee3, cycle_profit_of(s, factor)) {
        (Some(a1), Some(a2), Some(f1), Some(f2), Some(f3), Some(p)) => {
            let path = three_of(
                at_price(phrase("Buy ", t.base.as_str(), " with ", t.settlement.as_str()), &price1),
                at_price(
                    {
                        let mut text = phrase("Trade ", t.base.as_str(), " to ", t.cross.as_str());
                        text.append(" via ");
                        text.append(t.pair2.as_str());
                        text
                    },
                    &price2,
                ),
                at_price(phrase("Sell ", t.cross.as_str(), " for ", t.settlement.as_str()), &price3),
            );
            let plan = three_of(
                step(phrase("Buy ", t.base.as_str(), " with ", t.settlement.as_str()), &t.pair1, OrderSide::Buy, a1, price1, f1),
                step(phrase("Trade ", t.base.as_str(), " to ", t.cross.as_str()), &t.pair2, OrderSide::Sell, a1, price2, f2),
                step(phrase("Sell ", t.cross.as_str(), " for ", t.settlement.as_str()), &t.pair3, OrderSide::Sell, a2, price3, f3),
            );
            let risk_score = calculate_triangular_risk_score(&price1, &price2, &price3);
            let o = ArbitrageOpportunity {
                exchange: venue.clone(),
                path,
                profit_percentage: gross,
                net_profit_percentage: net,
                required_amount: s.max_position_size,
                estimated_profit_usd: p,
                risk_score,
                execution_steps: plan,
                timestamp: now,
            };
            proof {
                let m = forward_plan(*s, *t, venue@, price1@, price2@, price3@, factor@, gross@, net@, now as int)->0;
                assert(texts(o.path@) =~= m.path);
                assert(steps(o.execution_steps@) =~= m.execution_steps);
            }
            Some(o)
        },
        _ => None,
    }
}

fn build_reverse_plan(
    s: &DetectorSettings,
    t: &TriangularPath,
    venue: &String,
    price1: Dec,
    price2: Dec,
    price3: Dec,
    factor: Dec,
    gross: Dec,
    net: Dec,
    now: i64,
) -> (r: Option<ArbitrageOpportunity>)
    ensures
        opt_model(r) == reverse_plan(*s, *t, venue@, price1@, price2@, price3@, factor@, gross@, net@, now as int),
{
    let amount = Some(s.max_position_size);
    let taker = Some(s.fees.taker_fee);
    let q3 = div_o(amount, Some(price3));
    let q2 = div_o(q3, Some(price2));
    let fee1 = mul_o(amount, taker);
    let fee2 = mul_o(q3, taker);
    let fee3 = mul_o(mul_o(q2, Some(price1)), taker);
    match (q3, q2, fee1, fee2, fee3, cycle_profit_of(s, factor)) {
        (Some(a3), Some(a2), Some(f1), Some(f2), Some(f3), Some(p)) => {
            let path = three_of(
                at_price(phrase("Buy ", t.cross.as_str(), " with ", t.settlement.as_str()), &price3),
                at_price(
                    {
                        let mut text = phrase("Trade ", t.cross.as_str(), " to ", t.base.as_str());
                        text.append(" via ");
                        text.append(t.pair2.as_str());
                        text
                    },
                    &price2,
                ),
                at_price(phrase("Sell ", t.base.as_str(), " for ", t.settlement.as_str()), &price1),
            );
            let plan = three_of(
                step(phrase("Buy ", t.cross.as_str(), " with ", t.settlement.as_str()), &t.pair3, OrderSide::Buy, a3, price3, f1),
                step(phrase("Trade ", t.cross.as_str(), " to ", t.base.as_str()), &t.pair2, OrderSide::Buy, a2, price2, f2),
                step(phrase("Sell ", t.base.as_str(), " for ", t.settlement.as_str()), &t.pair1, OrderSide::Sell, a2, price1, f3),
            );
            let risk_score = calculate_triangular_risk_score(&price1, &price2, &price3);
            let o = ArbitrageOpportunity {
                exchange: venue.clone(),
                path,
                profit_percentage: gross,
                net_profit_percentage: net,
                required_amount: s.max_position_size,
                estimated_profit_usd: p,
                risk_score,
                execution_steps: plan,
                timestamp: now,
            };
            proof {
                let m = reverse_plan(*s, *t, venue@, price1@, price2@, price3@, factor@, gross@, net@, now as int)->0;
                assert(texts(o.path@) =~= m.path);
                assert(steps(o.execution_steps@) =~= m.execution_steps);
            }
            Some(o)
        },
        _ => None,
    }
}

/// Evaluates one cycle on one venue: forward first, and reverse only where
/// forward does not clear the threshold.
pub fn triangular_opportunity(
    s: &DetectorSettings,
    t: &TriangularPath,
    venue: &String,
    price1: Dec,
    price2: Dec,
    price3: Dec,
    now: i64,
) -> (r: Option<ArbitrageOpportunity>)
    ensures
        opt_model(r) == triangular_candidate(*s, *t, venue@, price1@, price2@, price3@, now as int),
{
    if price1.is_zero() || price2.is_zero() || price3.is_zero() {
        return None;
    }
    let one = Some(Dec::one());
    let forward = mul_o(mul_o(div_o(one, Some(price1)), Some(price2)), Some(price3));
    let (fg, fnet) = cycle_figures(s, forward);
    if let (Some(f), Some(g), Some(n)) = (forward, fg, fnet) {
        if gt(&n, &s.min_profit_threshold) {
            return build_forward_plan(s, t, venue, price1, price2, price3, f, g, n, now);
        }
    }
    let reverse = mul_o(mul_o(div_o(one, Some(price3)), div_o(one, Some(price2))), Some(price1));
    let (rg, rnet) = cycle_figures(s, reverse);
    if let (Some(f), Some(g), Some(n)) = (reverse, rg, rnet) {
        if gt(&n, &s.min_profit_threshold) {
            return build_reverse_plan(s, t, venue, price1, price2, price3, f, g, n, now);
        }
    }
    None
}

} // verus!
