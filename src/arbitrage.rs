//! The engine: each cycle it checks the circuit breaker, runs the
//! cross-venue detector over the trading pairs and the triangular detector
//! over the cycle catalogue on each venue, and records what it finds.
use crate::breaker::{new_breaker, open_at, BreakerModel, CircuitBreaker};
use crate::clock::now_millis;
use crate::decimal::{
    abs_o, add_o, cmp_model, div_o, gt, le, magnitude, minus, over, sub_o, times, Dec, DecModel,
};
use crate::detectors::{
    average, cross_candidate, cross_opportunity, triangular_candidate, triangular_opportunity, DetectorSettings,
    TriangularPath,
};
use crate::exchanges::{PriceMap, TradingFees};
use crate::history::{
    appended, bucket_key, lemma_write_prunes, pruned, pruned_at, recent, utc_day_label, OpportunityHistory,
    LABELLED_MILLIS, RETENTION_MILLIS,
};
use crate::opportunity::{opportunities, ArbitrageOpportunity, OpportunityModel};
use crate::shared_maps::{cache_contents, cache_get, cache_insert, new_price_cache, PriceCache};
use vstd::prelude::*;

verus! {

/// How old the previous observation of a symbol may be, in milliseconds.
pub const STALENESS_MILLIS: i64 = 30_000;

/// What the price cache holds per symbol: averaged price and time observed.
pub type CacheView = Map<Seq<char>, (Option<DecModel>, int)>;

/// What the history holds per bucket.
pub type HistoryView = Map<Seq<char>, Seq<OpportunityModel>>;

pub open spec fn cached(cache: CacheView, symbol: Seq<char>) -> Option<(Option<DecModel>, int)> {
    if cache.contains_key(symbol) {
        Some(cache[symbol])
    } else {
        None
    }
}

/// The previous observation is older than the staleness window.
pub open spec fn stale(previous: Option<(Option<DecModel>, int)>, now: int) -> bool {
    match previous {
        Some(e) => now - e.1 > STALENESS_MILLIS,
        None => false,
    }
}

/// The two prices differ by at most 10% of their average, which is positive.
pub open spec fn within_variance(price1: DecModel, price2: DecModel) -> bool {
    match average(price1, price2) {
        Some(avg) => cmp_model(avg, (0, 0)) > 0 && match over(magnitude(minus(Some(price1), Some(price2))), Some(avg)) {
            Some(v) => cmp_model(v, (1, 1)) <= 0,
            None => false,
        },
        None => false,
    }
}

/// The guard accepts the pair.
pub open spec fn fresh(previous: Option<(Option<DecModel>, int)>, price1: DecModel, price2: DecModel, now: int) -> bool {
    !stale(previous, now) && within_variance(price1, price2)
}

/// The cache after observing the pair: the symbol's entry is replaced,
/// whatever the verdict.
pub open spec fn observed(cache: CacheView, symbol: Seq<char>, price1: DecModel, price2: DecModel, now: int) -> CacheView {
    cache.insert(symbol, (average(price1, price2), now))
}

/// `|price1 - price2| / avg`, the relative spread the guard bounds.
pub open spec fn variance(price1: DecModel, price2: DecModel) -> Option<DecModel> {
    match average(price1, price2) {
        Some(avg) => over(magnitude(minus(Some(price1), Some(price2))), Some(avg)),
        None => None,
    }
}

/// A symbol observed at `t1` and again within the staleness window at `t2`:
/// the second pair is accepted exactly when the guard's variance bound
/// holds. A pair whose relative spread exceeds 10% is rejected whatever was
/// cached and whenever it comes.
pub proof fn lemma_second_observation(
    cache: CacheView,
    symbol: Seq<char>,
    q1: DecModel,
    q2: DecModel,
    t1: int,
    price1: DecModel,
    price2: DecModel,
    t2: int,
)
    requires
        t1 <= t2 <= t1 + STALENESS_MILLIS,
    ensures
        fresh(cached(observed(cache, symbol, q1, q2, t1), symbol), price1, price2, t2) == within_variance(price1, price2),
        (variance(price1, price2) is Some && cmp_model(variance(price1, price2)->0, (1, 1)) > 0) ==> forall|
            previous: Option<(Option<DecModel>, int)>,
            now: int,
        | !#[trigger] fresh(previous, price1, price2, now),
{
    assert(cached(observed(cache, symbol, q1, q2, t1), symbol) == Some((average(q1, q2), t1)));
}

/// An opportunity with its discovery time cleared.
pub open spec fn untimed(o: OpportunityModel) -> OpportunityModel {
    OpportunityModel { timestamp: 0, ..o }
}

pub open spec fn untimed_all(s: Seq<OpportunityModel>) -> Seq<OpportunityModel> {
    s.map_values(|o: OpportunityModel| untimed(o))
}

/// The history after recording each of `found` at `now`, in order.
pub open spec fn record_all(h: HistoryView, found: Seq<OpportunityModel>, now: int) -> HistoryView
    decreases found.len(),
{
    if found.len() == 0 {
        h
    } else {
        recorded(record_all(h, found.drop_last(), now), found.last(), now)
    }
}

proof fn lemma_record_all_push(h: HistoryView, found: Seq<OpportunityModel>, o: OpportunityModel, now: int)
    ensures
        record_all(h, found.push(o), now) == recorded(record_all(h, found, now), o, now),
{
    assert(found.push(o).drop_last() =~= found);
}

proof fn lemma_record_all_concat(h: HistoryView, x: Seq<OpportunityModel>, y: Seq<OpportunityModel>, now: int)
    ensures
        record_all(record_all(h, x, now), y, now) == record_all(h, x + y, now),
    decreases y.len(),
{
    if y.len() == 0 {
        assert(x + y =~= x);
    } else {
        lemma_record_all_concat(h, x, y.drop_last(), now);
        assert((x + y).drop_last() =~= x + y.drop_last());
        assert((x + y).last() == y.last());
    }
}

pub open spec fn quoted_on_both(a: PriceMap, b: PriceMap, symbol: Seq<char>) -> bool {
    a.price(symbol) is Some && b.price(symbol) is Some
}

/// What the cross-venue pass finds when the guard judges by the variance
/// bound alone.
pub open spec fn cross_found(c: EngineConfig, a: PriceMap, b: PriceMap, pairs: Seq<String>, now: int) -> Seq<
    OpportunityModel,
>
    decreases pairs.len(),
{
    if pairs.len() == 0 {
        seq![]
    } else {
        let rest = cross_found(c, a, b, pairs.drop_last(), now);
        let symbol = pairs.last()@;
        match (a.price(symbol), b.price(symbol)) {
            (Some(pa), Some(pb)) => if within_variance(pa@, pb@) {
                match cross_candidate(c.settings, c.venue_a, c.venue_b, symbol, pa@, pb@, now) {
                    Some(o) => rest.push(o),
                    None => rest,
                }
            } else {
                rest
            },
            _ => rest,
        }
    }
}

/// What the triangular pass on one venue finds.
pub open spec fn triangular_found(
    c: EngineConfig,
    prices: PriceMap,
    venue: Seq<char>,
    paths: Seq<TriangularPath>,
    now: int,
) -> Seq<OpportunityModel>
    decreases paths.len(),
{
    if paths.len() == 0 {
        seq![]
    } else {
        let rest = triangular_found(c, prices, venue, paths.drop_last(), now);
        let t = paths.last();
        match (prices.price(t.pair1@), prices.price(t.pair2@), prices.price(t.pair3@)) {
            (Some(price1), Some(price2), Some(price3)) => match triangular_candidate(c.settings, t, venue, price1@, price2@, price3@, now) {
                Some(o) => rest.push(o),
                None => rest,
            },
            _ => rest,
        }
    }
}

/// Every pair quoted on both venues has no cached observation older than
/// the staleness window at `now`.
pub open spec fn warm(c: EngineConfig, a: PriceMap, b: PriceMap, cache: CacheView, now: int) -> bool {
    forall|i: int|
        0 <= i < c.trading_pairs.len() && quoted_on_both(a, b, #[trigger] c.trading_pairs[i]@) ==> !stale(
            cached(cache, c.trading_pairs[i]@),
            now,
        )
}

/// The cache holds an observation of `symbol` made at `now`.
pub open spec fn seen_at(cache: CacheView, symbol: Seq<char>, now: int) -> bool {
    cache.contains_key(symbol) && cache[symbol].1 == now
}

proof fn lemma_cross_scan(c: EngineConfig, a: PriceMap, b: PriceMap, pairs: Seq<String>, now: int, st: ScanState)
    requires
        forall|i: int|
            0 <= i < pairs.len() && quoted_on_both(a, b, #[trigger] pairs[i]@) ==> !stale(cached(st.cache, pairs[i]@), now),
    ensures
        cross_scan(c, a, b, pairs, now, st).found == st.found + cross_found(c, a, b, pairs, now),
        cross_scan(c, a, b, pairs, now, st).history == record_all(st.history, cross_found(c, a, b, pairs, now), now),
        forall|symbol: Seq<char>|
            !stale(cached(st.cache, symbol), now) ==> !#[trigger] stale(
                cached(cross_scan(c, a, b, pairs, now, st).cache, symbol),
                now,
            ),
        forall|i: int|
            0 <= i < pairs.len() && quoted_on_both(a, b, #[trigger] pairs[i]@) ==> seen_at(
                cross_scan(c, a, b, pairs, now, st).cache,
                pairs[i]@,
                now,
            ),
    decreases pairs.len(),
{
    if pairs.len() == 0 {
        assert(st.found + Seq::<OpportunityModel>::empty() =~= st.found);
    } else {
        let init = pairs.drop_last();
        assert forall|i: int| 0 <= i < init.len() && quoted_on_both(a, b, #[trigger] init[i]@) implies !stale(
            cached(st.cache, init[i]@),
            now,
        ) by {
            assert(init[i] == pairs[i]);
        }
        lemma_cross_scan(c, a, b, init, now, st);
        let mid = cross_scan(c, a, b, init, now, st);
        let symbol = pairs.last()@;
        assert(pairs.last() == pairs[pairs.len() - 1]);
        let rest = cross_found(c, a, b, init, now);
        match (a.price(symbol), b.price(symbol)) {
            (Some(pa), Some(pb)) => {
                assert(quoted_on_both(a, b, pairs[pairs.len() - 1]@));
                assert(!stale(cached(mid.cache, symbol), now));
                match cross_candidate(c.settings, c.venue_a, c.venue_b, symbol, pa@, pb@, now) {
                    Some(o) => {
                        assert((st.found + rest).push(o) =~= st.found + rest.push(o));
                        lemma_record_all_push(st.history, rest, o, now);
                    },
                    None => {},
                }
            },
            _ => {},
        }
        let fin = cross_scan(c, a, b, pairs, now, st);
        assert forall|other: Seq<char>| !stale(cached(st.cache, other), now) implies !#[trigger] stale(
            cached(fin.cache, other),
            now,
        ) by {
            assert(!stale(cached(mid.cache, other), now));
        }
        assert forall|i: int| 0 <= i < pairs.len() && quoted_on_both(a, b, #[trigger] pairs[i]@) implies seen_at(
            fin.cache,
            pairs[i]@,
            now,
        ) by {
            if i < pairs.len() - 1 {
                assert(init[i] == pairs[i]);
            }
        }
    }
}

proof fn lemma_triangular_scan(
    c: EngineConfig,
    prices: PriceMap,
    venue: Seq<char>,
    paths: Seq<TriangularPath>,
    now: int,
    st: ScanState,
)
    ensures
        triangular_scan(c, prices, venue, paths, now, st).found == st.found + triangular_found(c, prices, venue, paths, now),
        triangular_scan(c, prices, venue, paths, now, st).cache == st.cache,
        triangular_scan(c, prices, venue, paths, now, st).history == record_all(
            st.history,
            triangular_found(c, prices, venue, paths, now),
            now,
        ),
    decreases paths.len(),
{
    if paths.len() == 0 {
        assert(st.found + Seq::<OpportunityModel>::empty() =~= st.found);
    } else {
        lemma_triangular_scan(c, prices, venue, paths.drop_last(), now, st);
        let rest = triangular_found(c, prices, venue, paths.drop_last(), now);
        let t = paths.last();
        match (prices.price(t.pair1@), prices.price(t.pair2@), prices.price(t.pair3@)) {
            (Some(price1), Some(price2), Some(price3)) => match triangular_candidate(c.settings, t, venue, price1@, price2@, price3@, now) {
                Some(o) => {
                    assert((st.found + rest).push(o) =~= st.found + rest.push(o));
                    lemma_record_all_push(st.history, rest, o, now);
                },
                None => {},
            },
            _ => {},
        }
    }
}

proof fn lemma_untimed_push(s: Seq<OpportunityModel>, o: OpportunityModel)
    ensures
        untimed_all(s.push(o)) == untimed_all(s).push(untimed(o)),
{
    assert(untimed_all(s.push(o)) =~= untimed_all(s).push(untimed(o)));
}

proof fn lemma_untimed_concat(x: Seq<OpportunityModel>, y: Seq<OpportunityModel>)
    ensures
        untimed_all(x + y) == untimed_all(x) + untimed_all(y),
{
    assert(untimed_all(x + y) =~= untimed_all(x) + untimed_all(y));
}

proof fn lemma_cross_found_time(c: EngineConfig, a: PriceMap, b: PriceMap, pairs: Seq<String>, t1: int, t2: int)
    ensures
        untimed_all(cross_found(c, a, b, pairs, t1)) == untimed_all(cross_found(c, a, b, pairs, t2)),
    decreases pairs.len(),
{
    if pairs.len() > 0 {
        lemma_cross_found_time(c, a, b, pairs.drop_last(), t1, t2);
        let symbol = pairs.last()@;
        let r1 = cross_found(c, a, b, pairs.drop_last(), t1);
        let r2 = cross_found(c, a, b, pairs.drop_last(), t2);
        match (a.price(symbol), b.price(symbol)) {
            (Some(pa), Some(pb)) => {
                let o1 = cross_candidate(c.settings, c.venue_a, c.venue_b, symbol, pa@, pb@, t1);
                let o2 = cross_candidate(c.settings, c.venue_a, c.venue_b, symbol, pa@, pb@, t2);
                assert(o1 is Some <==> o2 is Some);
                if within_variance(pa@, pb@) && o1 is Some {
                    assert(untimed(o1->0) == untimed(o2->0));
                    lemma_untimed_push(r1, o1->0);
                    lemma_untimed_push(r2, o2->0);
                }
            },
            _ => {},
        }
    }
}

proof fn lemma_triangular_found_time(
    c: EngineConfig,
    prices: PriceMap,
    venue: Seq<char>,
    paths: Seq<TriangularPath>,
    t1: int,
    t2: int,
)
    ensures
        untimed_all(triangular_found(c, prices, venue, paths, t1)) == untimed_all(
            triangular_found(c, prices, venue, paths, t2),
        ),
    decreases paths.len(),
{
    if paths.len() > 0 {
        lemma_triangular_found_time(c, prices, venue, paths.drop_last(), t1, t2);
        let t = paths.last();
        let r1 = triangular_found(c, prices, venue, paths.drop_last(), t1);
        let r2 = triangular_found(c, prices, venue, paths.drop_last(), t2);
        match (prices.price(t.pair1@), prices.price(t.pair2@), prices.price(t.pair3@)) {
            (Some(price1), Some(price2), Some(price3)) => {
                let o1 = triangular_candidate(c.settings, t, venue, price1@, price2@, price3@, t1);
                let o2 = triangular_candidate(c.settings, t, venue, price1@, price2@, price3@, t2);
                assert(o1 is Some <==> o2 is Some);
                if o1 is Some {
                    assert(untimed(o1->0) == untimed(o2->0));
                    lemma_untimed_push(r1, o1->0);
                    lemma_untimed_push(r2, o2->0);
                }
            },
            _ => {},
        }
    }
}

/// Analysing the same snapshots twice, the second time within the
/// staleness window of the first and with the cache warm for the first,
/// finds the same opportunities in the same order, differing only in their
/// discovery time; the first analysis is judged by the variance bound alone;
/// and each analysis records every opportunity it finds exactly once, in
/// the order found.
pub proof fn lemma_repeat_analysis(
    c: EngineConfig,
    a: PriceMap,
    b: PriceMap,
    cache: CacheView,
    history: HistoryView,
    t1: int,
    t2: int,
)
    requires
        warm(c, a, b, cache, t1),
        t1 <= t2 <= t1 + STALENESS_MILLIS,
    ensures
        ({
            let first = analysis(c, a, b, t1, ScanState { cache, history, found: seq![] });
            let second = analysis(c, a, b, t2, ScanState { cache: first.cache, history: first.history, found: seq![] });
            &&& untimed_all(second.found) == untimed_all(first.found)
            &&& first.found == cross_found(c, a, b, c.trading_pairs, t1) + triangular_found(
                c,
                a,
                c.venue_a,
                c.triangular_paths,
                t1,
            ) + triangular_found(c, b, c.venue_b, c.triangular_paths, t1)
            &&& first.history == record_all(history, first.found, t1)
            &&& second.history == record_all(first.history, second.found, t2)
        }),
{
    let st1 = ScanState { cache, history, found: seq![] };
    lemma_cross_scan(c, a, b, c.trading_pairs, t1, st1);
    let x1 = cross_scan(c, a, b, c.trading_pairs, t1, st1);
    lemma_triangular_scan(c, a, c.venue_a, c.triangular_paths, t1, x1);
    let y1 = triangular_scan(c, a, c.venue_a, c.triangular_paths, t1, x1);
    lemma_triangular_scan(c, b, c.venue_b, c.triangular_paths, t1, y1);
    let first = analysis(c, a, b, t1, st1);
    let st2 = ScanState { cache: first.cache, history: first.history, found: seq![] };
    assert forall|i: int|
        0 <= i < c.trading_pairs.len() && quoted_on_both(a, b, #[trigger] c.trading_pairs[i]@) implies !stale(
        cached(st2.cache, c.trading_pairs[i]@),
        t2,
    ) by {}
    lemma_cross_scan(c, a, b, c.trading_pairs, t2, st2);
    let x2 = cross_scan(c, a, b, c.trading_pairs, t2, st2);
    lemma_triangular_scan(c, a, c.venue_a, c.triangular_paths, t2, x2);
    let y2 = triangular_scan(c, a, c.venue_a, c.triangular_paths, t2, x2);
    lemma_triangular_scan(c, b, c.venue_b, c.triangular_paths, t2, y2);
    let cf1 = cross_found(c, a, b, c.trading_pairs, t1);
    let cf2 = cross_found(c, a, b, c.trading_pairs, t2);
    let ta1 = triangular_found(c, a, c.venue_a, c.triangular_paths, t1);
    let ta2 = triangular_found(c, a, c.venue_a, c.triangular_paths, t2);
    let tb1 = triangular_found(c, b, c.venue_b, c.triangular_paths, t1);
    let tb2 = triangular_found(c, b, c.venue_b, c.triangular_paths, t2);
    assert(Seq::<OpportunityModel>::empty() + cf1 =~= cf1);
    assert(Seq::<OpportunityModel>::empty() + cf2 =~= cf2);
    lemma_cross_found_time(c, a, b, c.trading_pairs, t1, t2);
    lemma_triangular_found_time(c, a, c.venue_a, c.triangular_paths, t1, t2);
    lemma_triangular_found_time(c, b, c.venue_b, c.triangular_paths, t1, t2);
    lemma_untimed_concat(cf1 + ta1, tb1);
    lemma_untimed_concat(cf1, ta1);
    lemma_untimed_concat(cf2 + ta2, tb2);
    lemma_untimed_concat(cf2, ta2);
    lemma_record_all_concat(history, cf1, ta1, t1);
    lemma_record_all_concat(history, cf1 + ta1, tb1, t1);
    lemma_record_all_concat(first.history, cf2, ta2, t2);
    lemma_record_all_concat(first.history, cf2 + ta2, tb2, t2);
}

/// The opportunities of `found` whose venue path and day make `key`, in
/// their order.
pub open spec fn bucketed(found: Seq<OpportunityModel>, key: Seq<char>) -> Seq<OpportunityModel>
    decreases found.len(),
{
    if found.len() == 0 {
        found
    } else {
        let rest = bucketed(found.drop_last(), key);
        if bucket_key(found.last().exchange, found.last().timestamp) == Some(key) {
            rest.push(found.last())
        } else {
            rest
        }
    }
}

/// The bucket `key` of `h`, empty where `h` has none.
pub open spec fn held(h: HistoryView, key: Seq<char>) -> Seq<OpportunityModel> {
    if h.contains_key(key) {
        h[key]
    } else {
        seq![]
    }
}

/// Every opportunity of `found` was found at `now`.
pub open spec fn all_at(found: Seq<OpportunityModel>, now: int) -> bool {
    forall|i: int| 0 <= i < found.len() ==> #[trigger] found[i].timestamp == now
}

proof fn lemma_recent_keeps(s: Seq<OpportunityModel>, now: int)
    requires
        forall|i: int| 0 <= i < s.len() ==> #[trigger] s[i].timestamp > now - RETENTION_MILLIS,
    ensures
        recent(s, now) == s,
    decreases s.len(),
{
    if s.len() > 0 {
        let init = s.drop_last();
        assert forall|i: int| 0 <= i < init.len() implies #[trigger] init[i].timestamp > now - RETENTION_MILLIS by {
            assert(init[i] == s[i]);
        }
        lemma_recent_keeps(init, now);
        assert(init.push(s.last()) =~= s);
    }
}

proof fn lemma_pruned_keeps(h: HistoryView, now: int)
    requires
        pruned_at(h, now),
    ensures
        pruned(h, now) == h,
{
    assert forall|k: Seq<char>| #[trigger] h.contains_key(k) implies recent(h[k], now) == h[k] by {
        lemma_recent_keeps(h[k], now);
    }
    assert(pruned(h, now) =~= h);
}

/// Recording opportunities that are all within the window and all have a
/// day, into a history that pruning leaves as it is, appends each to its
/// bucket and loses nothing.
proof fn lemma_record_all_appends(h: HistoryView, found: Seq<OpportunityModel>, now: int)
    requires
        pruned_at(h, now),
        forall|i: int|
            0 <= i < found.len() ==> #[trigger] found[i].timestamp > now - RETENTION_MILLIS && bucket_key(
                found[i].exchange,
                found[i].timestamp,
            ) is Some,
    ensures
        pruned_at(record_all(h, found, now), now),
        forall|k: Seq<char>|
            #[trigger] record_all(h, found, now).contains_key(k) == ((held(h, k) + bucketed(found, k)).len() > 0),
        forall|k: Seq<char>|
            #[trigger] record_all(h, found, now).contains_key(k) ==> record_all(h, found, now)[k] == held(h, k)
                + bucketed(found, k),
    decreases found.len(),
{
    if found.len() == 0 {
        assert forall|k: Seq<char>| #[trigger] record_all(h, found, now).contains_key(k) == ((held(h, k) + bucketed(found, k)).len() > 0) by {
            assert(held(h, k) + bucketed(found, k) =~= held(h, k));
        }
        assert forall|k: Seq<char>| #[trigger] record_all(h, found, now).contains_key(k) implies record_all(h, found, now)[k] == held(h, k)
            + bucketed(found, k) by {
            assert(held(h, k) + bucketed(found, k) =~= held(h, k));
        }
    } else {
        let init = found.drop_last();
        let o = found.last();
        assert(o == found[found.len() - 1]);
        assert forall|i: int| 0 <= i < init.len() implies #[trigger] init[i].timestamp > now - RETENTION_MILLIS && bucket_key(
            init[i].exchange,
            init[i].timestamp,
        ) is Some by {
            assert(init[i] == found[i]);
        }
        lemma_record_all_appends(h, init, now);
        let mid = record_all(h, init, now);
        let key = bucket_key(o.exchange, o.timestamp)->0;
        let grown = appended(mid, key, o);
        assert forall|k: Seq<char>| #[trigger] grown.contains_key(k) implies grown[k].len() > 0 && forall|i: int|
            0 <= i < grown[k].len() ==> #[trigger] grown[k][i].timestamp > now - RETENTION_MILLIS by {
            if k == key {
                if mid.contains_key(key) {
                    assert forall|i: int| 0 <= i < grown[k].len() implies #[trigger] grown[k][i].timestamp > now
                        - RETENTION_MILLIS by {
                        if i < mid[key].len() {
                            assert(grown[k][i] == mid[key][i]);
                        }
                    }
                }
            }
        }
        lemma_pruned_keeps(grown, now);
        assert(record_all(h, found, now) == grown);
        assert forall|k: Seq<char>| #[trigger] record_all(h, found, now).contains_key(k) == ((held(h, k) + bucketed(found, k)).len() > 0)
            && (record_all(h, found, now).contains_key(k) ==> record_all(h, found, now)[k] == held(h, k) + bucketed(found, k)) by {
            assert(mid.contains_key(k) == ((held(h, k) + bucketed(init, k)).len() > 0));
            if k == key {
                assert(bucketed(found, k) == bucketed(init, k).push(o));
                assert(held(h, k) + bucketed(found, k) =~= (held(h, k) + bucketed(init, k)).push(o));
                if mid.contains_key(key) {
                    assert(grown[k] == mid[key].push(o));
                } else {
                    assert(held(h, k) + bucketed(init, k) =~= Seq::<OpportunityModel>::empty());
                    assert(grown[k] =~= (held(h, k) + bucketed(init, k)).push(o));
                }
            } else {
                assert(bucketed(found, k) == bucketed(init, k));
            }
        }
    }
}

proof fn lemma_cross_found_at(c: EngineConfig, a: PriceMap, b: PriceMap, pairs: Seq<String>, now: int)
    ensures
        all_at(cross_found(c, a, b, pairs, now), now),
    decreases pairs.len(),
{
    if pairs.len() > 0 {
        lemma_cross_found_at(c, a, b, pairs.drop_last(), now);
        let rest = cross_found(c, a, b, pairs.drop_last(), now);
        let all = cross_found(c, a, b, pairs, now);
        assert forall|i: int| 0 <= i < all.len() implies #[trigger] all[i].timestamp == now by {
            if i < rest.len() {
                assert(all[i] == rest[i]);
            }
        }
    }
}

proof fn lemma_triangular_found_at(c: EngineConfig, prices: PriceMap, venue: Seq<char>, paths: Seq<TriangularPath>, now: int)
    ensures
        all_at(triangular_found(c, prices, venue, paths, now), now),
    decreases paths.len(),
{
    if paths.len() > 0 {
        lemma_triangular_found_at(c, prices, venue, paths.drop_last(), now);
        let rest = triangular_found(c, prices, venue, paths.drop_last(), now);
        let all = triangular_found(c, prices, venue, paths, now);
        assert forall|i: int| 0 <= i < all.len() implies #[trigger] all[i].timestamp == now by {
            if i < rest.len() {
                assert(all[i] == rest[i]);
            }
        }
    }
}

/// Analysing the same snapshots twice as in `lemma_repeat_analysis`, where
/// the second time has a UTC day and no entry of the history after the
/// first analysis has left the retention window by then: the second
/// analysis keeps every bucket of the first and appends to it exactly the
/// opportunities it found for that bucket, each once and in the order found.
pub proof fn lemma_repeat_analysis_history(
    c: EngineConfig,
    a: PriceMap,
    b: PriceMap,
    cache: CacheView,
    history: HistoryView,
    t1: int,
    t2: int,
)
    requires
        warm(c, a, b, cache, t1),
        t1 <= t2 <= t1 + STALENESS_MILLIS,
    ensures
        ({
            let first = analysis(c, a, b, t1, ScanState { cache, history, found: seq![] });
            let second = analysis(c, a, b, t2, ScanState { cache: first.cache, history: first.history, found: seq![] });
            (pruned_at(first.history, t2) && utc_day_label(t2) is Some) ==> forall|k: Seq<char>|
                #[trigger] second.history.contains_key(k) == ((held(first.history, k) + bucketed(second.found, k)).len()
                    > 0) && (second.history.contains_key(k) ==> second.history[k] == held(first.history, k) + bucketed(
                    second.found,
                    k,
                ))
        }),
{
    lemma_repeat_analysis(c, a, b, cache, history, t1, t2);
    let first = analysis(c, a, b, t1, ScanState { cache, history, found: seq![] });
    let second = analysis(c, a, b, t2, ScanState { cache: first.cache, history: first.history, found: seq![] });
    if pruned_at(first.history, t2) && utc_day_label(t2) is Some {
        let st2 = ScanState { cache: first.cache, history: first.history, found: seq![] };
        let st1 = ScanState { cache, history, found: seq![] };
        lemma_cross_scan(c, a, b, c.trading_pairs, t1, st1);
        let x1 = cross_scan(c, a, b, c.trading_pairs, t1, st1);
        lemma_triangular_scan(c, a, c.venue_a, c.triangular_paths, t1, x1);
        let y1 = triangular_scan(c, a, c.venue_a, c.triangular_paths, t1, x1);
        lemma_triangular_scan(c, b, c.venue_b, c.triangular_paths, t1, y1);
        assert forall|i: int|
            0 <= i < c.trading_pairs.len() && quoted_on_both(a, b, #[trigger] c.trading_pairs[i]@) implies !stale(
            cached(st2.cache, c.trading_pairs[i]@),
            t2,
        ) by {}
        lemma_cross_scan(c, a, b, c.trading_pairs, t2, st2);
        let x2 = cross_scan(c, a, b, c.trading_pairs, t2, st2);
        lemma_triangular_scan(c, a, c.venue_a, c.triangular_paths, t2, x2);
        let y2 = triangular_scan(c, a, c.venue_a, c.triangular_paths, t2, x2);
        lemma_triangular_scan(c, b, c.venue_b, c.triangular_paths, t2, y2);
        let cf = cross_found(c, a, b, c.trading_pairs, t2);
        let ta = triangular_found(c, a, c.venue_a, c.triangular_paths, t2);
        let tb = triangular_found(c, b, c.venue_b, c.triangular_paths, t2);
        lemma_cross_found_at(c, a, b, c.trading_pairs, t2);
        lemma_triangular_found_at(c, a, c.venue_a, c.triangular_paths, t2);
        lemma_triangular_found_at(c, b, c.venue_b, c.triangular_paths, t2);
        assert(Seq::<OpportunityModel>::empty() + cf =~= cf);
        let found = second.found;
        assert(found == cf + ta + tb);
        assert forall|i: int| 0 <= i < found.len() implies #[trigger] found[i].timestamp > t2 - RETENTION_MILLIS
            && bucket_key(found[i].exchange, found[i].timestamp) is Some by {
            if i < cf.len() {
                assert(found[i] == cf[i]);
            } else if i < cf.len() + ta.len() {
                assert(found[i] == ta[i - cf.len()]);
            } else {
                assert(found[i] == tb[i - cf.len() - ta.len()]);
            }
        }
        lemma_record_all_appends(first.history, found, t2);
    }
}

/// `|pa - pb| / avg * 100`, the gross percentage of a cross-venue spread.
pub open spec fn spread_gross(pa: DecModel, pb: DecModel) -> Option<DecModel> {
    match average(pa, pb) {
        Some(avg) => times(over(magnitude(minus(Some(pa), Some(pb))), Some(avg)), Some((100, 0))),
        None => None,
    }
}

/// The gross percentage less `2 * taker_fee * 100`, a fee for each leg.
pub open spec fn spread_net(s: DetectorSettings, pa: DecModel, pb: DecModel) -> Option<DecModel> {
    minus(spread_gross(pa, pb), times(times(Some(s.fees.taker_fee@), Some((2, 0))), Some((100, 0))))
}

/// `o` reports the spread between `pa` and `pb`: their average is positive,
/// its percentages are exactly the spread's, and its net percentage is
/// above the threshold.
pub open spec fn cross_priced(s: DetectorSettings, pa: DecModel, pb: DecModel, o: OpportunityModel) -> bool {
    &&& average(pa, pb) matches Some(avg) && cmp_model(avg, (0, 0)) > 0
    &&& spread_gross(pa, pb) == Some(o.profit_percentage)
    &&& spread_net(s, pa, pb) == Some(o.net_profit_percentage)
    &&& cmp_model(o.net_profit_percentage, s.min_profit_threshold@) > 0
}

/// `o` reports the spread of some pair quoted on both venues.
pub open spec fn priced_pair(c: EngineConfig, a: PriceMap, b: PriceMap, o: OpportunityModel) -> bool {
    exists|symbol: Seq<char>|
        #[trigger] quoted_on_both(a, b, symbol) && cross_priced(c.settings, a.price(symbol)->0@, b.price(symbol)->0@, o)
}

/// The opportunities the cross-venue pass adds each price a pair quoted on
/// both venues, and the pass only adds to what was found before it.
proof fn lemma_cross_scan_priced(c: EngineConfig, a: PriceMap, b: PriceMap, pairs: Seq<String>, now: int, st: ScanState)
    ensures
        ({
            let found = cross_scan(c, a, b, pairs, now, st).found;
            &&& st.found.len() <= found.len()
            &&& found.take(st.found.len() as int) == st.found
            &&& forall|i: int|
                st.found.len() <= i < found.len() ==> #[trigger] priced_pair(c, a, b, found[i])
        }),
    decreases pairs.len(),
{
    if pairs.len() == 0 {
        assert(st.found.take(st.found.len() as int) =~= st.found);
    } else {
        let init = pairs.drop_last();
        lemma_cross_scan_priced(c, a, b, init, now, st);
        let mid = cross_scan(c, a, b, init, now, st);
        let fin = cross_scan(c, a, b, pairs, now, st);
        let symbol = pairs.last()@;
        match (a.price(symbol), b.price(symbol)) {
            (Some(pa), Some(pb)) => {
                if fresh(cached(mid.cache, symbol), pa@, pb@, now) {
                    match cross_candidate(c.settings, c.venue_a, c.venue_b, symbol, pa@, pb@, now) {
                        Some(o) => {
                            crate::detectors::lemma_cross_percentages(
                                c.settings,
                                c.venue_a,
                                c.venue_b,
                                symbol,
                                pa@,
                                pb@,
                                now,
                            );
                            assert(fin.found == mid.found.push(o));
                            assert(fin.found.take(st.found.len() as int) =~= mid.found.take(st.found.len() as int));
                            assert(quoted_on_both(a, b, symbol) && cross_priced(c.settings, pa@, pb@, o));
                            assert forall|i: int| st.found.len() <= i < fin.found.len() implies #[trigger] priced_pair(c, a, b, fin.found[i]) by {
                                if i < mid.found.len() {
                                    assert(fin.found[i] == mid.found[i]);
                                } else {
                                    assert(fin.found[i] == o);
                                }
                            }
                        },
                        None => {},
                    }
                }
            },
            _ => {},
        }
    }
}

/// Each cross-venue opportunity of an analysis, which come first in what it
/// finds, reports a pair quoted on both venues at prices `pa` and `pb`
/// whose average is positive: its gross percentage is exactly
/// `|pa - pb| / avg * 100`, its net percentage exactly that less
/// `2 * taker_fee * 100`, and the net is above the threshold.
pub proof fn lemma_analysis_cross_spreads(c: EngineConfig, a: PriceMap, b: PriceMap, now: int, st: ScanState)
    ensures
        ({
            let crossed = cross_scan(c, a, b, c.trading_pairs, now, st).found;
            let found = analysis(c, a, b, now, st).found;
            &&& st.found.len() <= crossed.len() <= found.len()
            &&& found.take(crossed.len() as int) == crossed
            &&& forall|i: int|
                st.found.len() <= i < crossed.len() ==> #[trigger] priced_pair(c, a, b, found[i])
        }),
{
    lemma_cross_scan_priced(c, a, b, c.trading_pairs, now, st);
    let x = cross_scan(c, a, b, c.trading_pairs, now, st);
    lemma_triangular_scan(c, a, c.venue_a, c.triangular_paths, now, x);
    let y = triangular_scan(c, a, c.venue_a, c.triangular_paths, now, x);
    lemma_triangular_scan(c, b, c.venue_b, c.triangular_paths, now, y);
    let found = analysis(c, a, b, now, st).found;
    let ta = triangular_found(c, a, c.venue_a, c.triangular_paths, now);
    let tb = triangular_found(c, b, c.venue_b, c.triangular_paths, now);
    assert(found == x.found + ta + tb);
    assert(found.take(x.found.len() as int) =~= x.found);
    assert forall|i: int| st.found.len() <= i < x.found.len() implies #[trigger] priced_pair(c, a, b, found[i]) by {
        assert(found[i] == x.found[i]);
    }
}

/// The configuration an engine is built with.
pub struct EngineConfig {
    pub settings: DetectorSettings,
    pub trading_pairs: Seq<String>,
    pub triangular_paths: Seq<TriangularPath>,
    pub venue_a: Seq<char>,
    pub venue_b: Seq<char>,
}

/// What an analysis has changed and found so far.
pub struct ScanState {
    pub cache: CacheView,
    pub history: HistoryView,
    pub found: Seq<OpportunityModel>,
}

/// The history after recording `o` at `now`.
pub open spec fn recorded(h: HistoryView, o: OpportunityModel, now: int) -> HistoryView {
    pruned(
        match bucket_key(o.exchange, o.timestamp) {
            Some(key) => appended(h, key, o),
            None => h,
        },
        now,
    )
}

pub open spec fn emit(st: ScanState, o: Option<OpportunityModel>, now: int) -> ScanState {
    match o {
        Some(x) => ScanState { history: recorded(st.history, x, now), found: st.found.push(x), ..st },
        None => st,
    }
}

/// One trading pair of the cross-venue pass: where both venues quote it, the
/// guard observes the pair, and where it accepts, the detector runs.
pub open spec fn cross_visit(
    c: EngineConfig,
    a: PriceMap,
    b: PriceMap,
    symbol: Seq<char>,
    now: int,
    st: ScanState,
) -> ScanState {
    match (a.price(symbol), b.price(symbol)) {
        (Some(pa), Some(pb)) => {
            let next = ScanState { cache: observed(st.cache, symbol, pa@, pb@, now), ..st };
            if fresh(cached(st.cache, symbol), pa@, pb@, now) {
                emit(next, cross_candidate(c.settings, c.venue_a, c.venue_b, symbol, pa@, pb@, now), now)
            } else {
                next
            }
        },
        _ => st,
    }
}

pub open spec fn cross_scan(
    c: EngineConfig,
    a: PriceMap,
    b: PriceMap,
    pairs: Seq<String>,
    now: int,
    st: ScanState,
) -> ScanState
    decreases pairs.len(),
{
    if pairs.len() == 0 {
        st
    } else {
        cross_visit(c, a, b, pairs.last()@, now, cross_scan(c, a, b, pairs.drop_last(), now, st))
    }
}

/// One cycle of the triangular pass on one venue.
pub open spec fn triangular_visit(
    c: EngineConfig,
    prices: PriceMap,
    venue: Seq<char>,
    t: TriangularPath,
    now: int,
    st: ScanState,
) -> ScanState {
    match (prices.price(t.pair1@), prices.price(t.pair2@), prices.price(t.pair3@)) {
        (Some(price1), Some(price2), Some(price3)) => emit(
            st,
            triangular_candidate(c.settings, t, venue, price1@, price2@, price3@, now),
            now,
        ),
        _ => st,
    }
}

pub open spec fn triangular_scan(
    c: EngineConfig,
    prices: PriceMap,
    venue: Seq<char>,
    paths: Seq<TriangularPath>,
    now: int,
    st: ScanState,
) -> ScanState
    decreases paths.len(),
{
    if paths.len() == 0 {
        st
    } else {
        triangular_visit(c, prices, venue, paths.last(), now, triangular_scan(c, prices, venue, paths.drop_last(), now, st))
    }
}

/// A whole analysis with the breaker closed: the cross-venue pass, then the
/// triangular pass on venue A, then on venue B.
pub open spec fn analysis(c: EngineConfig, a: PriceMap, b: PriceMap, now: int, st: ScanState) -> ScanState {
    let crossed = cross_scan(c, a, b, c.trading_pairs, now, st);
    let on_a = triangular_scan(c, a, c.venue_a, c.triangular_paths, now, crossed);
    triangular_scan(c, b, c.venue_b, c.triangular_paths, now, on_a)
}

/// What an engine refuses at construction.
#[derive(Clone, Copy, Debug, PartialEq, Eq, Structural)]
pub enum EngineConfigError {
    NonPositivePositionSize,
}

/// What the execution gate decided for an opportunity. Execution itself is
/// switched off: an opportunity that passes every check is reported as such.
#[derive(Clone, Copy, Debug, PartialEq, Eq, Structural)]
pub enum ExecutionDecision {
    CircuitOpen,
    RiskTooHigh,
    ExecutionDisabled,
}

pub struct ArbitrageEngine {
    settings: DetectorSettings,
    trading_pairs: Vec<String>,
    triangular_paths: Vec<TriangularPath>,
    venue_a: String,
    venue_b: String,
    price_cache: PriceCache,
    history: OpportunityHistory,
    circuit_breaker: CircuitBreaker,
}

/// `analyze_opportunities_at` at time `now` took `before` to `after` and
/// found `found`.
pub open spec fn analyzed(
    before: ArbitrageEngine,
    after: ArbitrageEngine,
    a: PriceMap,
    b: PriceMap,
    now: int,
    found: Seq<ArbitrageOpportunity>,
) -> bool {
    &&& after.config() == before.config()
    &&& after.breaker() == before.breaker()
    &&& if open_at(before.breaker(), now) {
        found.len() == 0 && after.cache() == before.cache() && after.history() == before.history()
    } else {
        analysis(before.config(), a, b, now, ScanState { cache: before.cache(), history: before.history(), found: seq![] })
            == ScanState { cache: after.cache(), history: after.history(), found: opportunities(found) }
    }
}

/// A cycle through `pair1`, `pair2` and `pair3` that starts and ends in USDT.
pub open spec fn cycle_is(
    t: TriangularPath,
    pair1: Seq<char>,
    pair2: Seq<char>,
    pair3: Seq<char>,
    base: Seq<char>,
    cross: Seq<char>,
) -> bool {
    &&& t.pair1@ == pair1
    &&& t.pair2@ == pair2
    &&& t.pair3@ == pair3
    &&& t.base@ == base
    &&& t.cross@ == cross
    &&& t.settlement@ == "USDT"@
}

fn triangle(pair1: &str, pair2: &str, pair3: &str, base: &str, cross: &str) -> (r: TriangularPath)
    ensures
        cycle_is(r, pair1@, pair2@, pair3@, base@, cross@),
{
    TriangularPath {
        pair1: String::from_str(pair1),
        pair2: String::from_str(pair2),
        pair3: String::from_str(pair3),
        base: String::from_str(base),
        cross: String::from_str(cross),
        settlement: String::from_str("USDT"),
    }
}

impl ArbitrageEngine {
    pub closed spec fn config(&self) -> EngineConfig {
        EngineConfig {
            settings: self.settings,
            trading_pairs: self.trading_pairs@,
            triangular_paths: self.triangular_paths@,
            venue_a: self.venue_a@,
            venue_b: self.venue_b@,
        }
    }

    pub closed spec fn cache(&self) -> CacheView {
        cache_contents(self.price_cache)
    }

    pub closed spec fn history(&self) -> HistoryView {
        self.history@
    }

    pub closed spec fn breaker(&self) -> BreakerModel {
        self.circuit_breaker@
    }

    /// An engine with the given configuration, an empty cache and history and
    /// a closed breaker. A position size that is not positive is refused.
    pub fn with_settings(
        settings: DetectorSettings,
        trading_pairs: Vec<String>,
        triangular_paths: Vec<TriangularPath>,
        venue_a: String,
        venue_b: String,
        breaker_threshold: u32,
        breaker_reset_minutes: i64,
    ) -> (r: Result<ArbitrageEngine, EngineConfigError>)
        ensures
            r is Err <==> settings.max_position_size@.0 <= 0,
            r matches Ok(e) ==> {
                &&& e.config() == (EngineConfig {
                    settings,
                    trading_pairs: trading_pairs@,
                    triangular_paths: triangular_paths@,
                    venue_a: venue_a@,
                    venue_b: venue_b@,
                })
                &&& e.cache().dom().is_empty()
                &&& e.history().dom().is_empty()
                &&& e.breaker() == new_breaker(breaker_threshold as nat, breaker_reset_minutes as int)
            },
    {
        if !settings.max_position_size.is_positive() {
            return Err(EngineConfigError::NonPositivePositionSize);
        }
        Ok(
            ArbitrageEngine {
                settings,
                trading_pairs,
                triangular_paths,
                venue_a,
                venue_b,
                price_cache: new_price_cache(),
                history: OpportunityHistory::new(),
                circuit_breaker: CircuitBreaker::new(breaker_threshold, breaker_reset_minutes),
            },
        )
    }

    /// The default engine: 0.5% minimum net profit, 1000 position ceiling,
    /// 0.1% taker fee, six pairs against USDT, three cycles, and a breaker
    /// that opens after 5 failures for 5 minutes.
    pub fn new() -> (r: ArbitrageEngine)
        ensures
            r.config().settings.min_profit_threshold@ == (5int, 1int),
            r.config().settings.max_position_size@ == (10000int, 1int),
            r.config().settings.fees.taker_fee@ == (1int, 3int),
            r.config().trading_pairs.len() == 6,
            r.config().trading_pairs[0]@ == "BTCUSDT"@,
            r.config().trading_pairs[1]@ == "ETHUSDT"@,
            r.config().trading_pairs[2]@ == "BNBUSDT"@,
            r.config().trading_pairs[3]@ == "ADAUSDT"@,
            r.config().trading_pairs[4]@ == "DOTUSDT"@,
            r.config().trading_pairs[5]@ == "SOLUSDT"@,
            r.config().triangular_paths.len() == 3,
            cycle_is(r.config().triangular_paths[0], "BTCUSDT"@, "ETHBTC"@, "ETHUSDT"@, "BTC"@, "ETH"@),
            cycle_is(r.config().triangular_paths[1], "BTCUSDT"@, "BNBBTC"@, "BNBUSDT"@, "BTC"@, "BNB"@),
            cycle_is(r.config().triangular_paths[2], "ETHUSDT"@, "ADAETH"@, "ADAUSDT"@, "ETH"@, "ADA"@),
            r.config().venue_a == "Binance"@,
            r.config().venue_b == "Bybit"@,
            r.cache().dom().is_empty(),
            r.history().dom().is_empty(),
            r.breaker() == new_breaker(5, 5),
    {
        let mut trading_pairs: Vec<String> = Vec::new();
        trading_pairs.push(String::from_str("BTCUSDT"));
        trading_pairs.push(String::from_str("ETHUSDT"));
        trading_pairs.push(String::from_str("BNBUSDT"));
        trading_pairs.push(String::from_str("ADAUSDT"));
        trading_pairs.push(String::from_str("DOTUSDT"));
        trading_pairs.push(String::from_str("SOLUSDT"));
        let mut triangular_paths: Vec<TriangularPath> = Vec::new();
        triangular_paths.push(triangle("BTCUSDT", "ETHBTC", "ETHUSDT", "BTC", "ETH"));
        triangular_paths.push(triangle("BTCUSDT", "BNBBTC", "BNBUSDT", "BTC", "BNB"));
        triangular_paths.push(triangle("ETHUSDT", "ADAETH", "ADAUSDT", "ETH", "ADA"));
        ArbitrageEngine {
            settings: DetectorSettings {
                min_profit_threshold: Dec::fixed(5, 1),
                max_position_size: Dec::fixed(10000, 1),
                fees: TradingFees::default(),
            },
            trading_pairs,
            triangular_paths,
            venue_a: String::from_str("Binance"),
            venue_b: String::from_str("Bybit"),
            price_cache: new_price_cache(),
            history: OpportunityHistory::new(),
            circuit_breaker: CircuitBreaker::new(5, 5),
        }
    }

    /// The freshness and variance guard. The pair is rejected where the
    /// previous observation of the symbol is older than the staleness window,
    /// or where the prices differ by more than 10% of their positive average.
    /// The observation replaces the cached one whatever the verdict.
    pub fn is_price_fresh(&mut self, symbol: &String, price1: Dec, price2: Dec, now: i64) -> (r: bool)
        ensures
            r == fresh(cached(old(self).cache(), symbol@), price1@, price2@, now as int),
            final(self).cache() == observed(old(self).cache(), symbol@, price1@, price2@, now as int),
            final(self).config() == old(self).config(),
            final(self).history() == old(self).history(),
            final(self).breaker() == old(self).breaker(),
    {
        let too_old = match cache_get(&self.price_cache, symbol) {
            Some((_, observed_at)) => now as i128 - observed_at as i128 > STALENESS_MILLIS as i128,
            None => false,
        };
        let avg = div_o(add_o(Some(price1), Some(price2)), Some(Dec::two()));
        cache_insert(&mut self.price_cache, symbol.clone(), (avg, now));
        if too_old {
            return false;
        }
        match avg {
            Some(a) => {
                if !gt(&a, &Dec::zero()) {
                    return false;
                }
                match div_o(abs_o(sub_o(Some(price1), Some(price2))), Some(a)) {
                    Some(variance) => le(&variance, &Dec::fixed(1, 1)),
                    None => false,
                }
            },
            None => false,
        }
    }

    /// Adds an opportunity to the history and prunes it at `now`. One dated
    /// within the retention window is kept, last in the bucket of its venue
    /// path and UTC day.
    pub fn record_opportunity(&mut self, opportunity: &ArbitrageOpportunity, now: i64)
        ensures
            final(self).history() == recorded(old(self).history(), opportunity@, now as int),
            -LABELLED_MILLIS <= opportunity.timestamp <= LABELLED_MILLIS && opportunity.timestamp > now
                - RETENTION_MILLIS ==> ({
                let key = bucket_key(opportunity.exchange@, opportunity.timestamp as int)->0;
                &&& bucket_key(opportunity.exchange@, opportunity.timestamp as int) is Some
                &&& final(self).history().contains_key(key)
                &&& final(self).history()[key].last() == opportunity@
            }),
            final(self).config() == old(self).config(),
            final(self).cache() == old(self).cache(),
            final(self).breaker() == old(self).breaker(),
    {
        self.history.record(opportunity, now);
        proof {
            if let Some(key) = bucket_key(opportunity.exchange@, opportunity.timestamp as int) {
                lemma_write_prunes(old(self).history(), key, opportunity@, now as int);
            }
        }
    }

    /// The triangular pass on one venue's prices, adding what it finds to
    /// `found`.
    fn check_triangular_arbitrage(
        &mut self,
        prices: &PriceMap,
        exchange: &String,
        now: i64,
        found: &mut Vec<ArbitrageOpportunity>,
    )
        ensures
            final(self).config() == old(self).config(),
            final(self).cache() == old(self).cache(),
            final(self).breaker() == old(self).breaker(),
            triangular_scan(
                old(self).config(),
                *prices,
                exchange@,
                old(self).config().triangular_paths,
                now as int,
                ScanState { cache: old(self).cache(), history: old(self).history(), found: opportunities(old(found)@) },
            ) == (ScanState {
                cache: final(self).cache(),
                history: final(self).history(),
                found: opportunities(final(found)@),
            }),
    {
        let ghost c = self.config();
        let ghost st0 = ScanState { cache: self.cache(), history: self.history(), found: opportunities(found@) };
        let mut j: usize = 0;
        proof {
            assert(c.triangular_paths.take(0) =~= Seq::<TriangularPath>::empty());
        }
        while j < self.triangular_paths.len()
            invariant
                self.config() == c,
                self.cache() == st0.cache,
                self.breaker() == old(self).breaker(),
                j <= c.triangular_paths.len(),
                triangular_scan(c, *prices, exchange@, c.triangular_paths.take(j as int), now as int, st0) == (
                ScanState { cache: self.cache(), history: self.history(), found: opportunities(found@) }),
            decreases c.triangular_paths.len() - j,
        {
            proof {
                assert(c.triangular_paths.take(j + 1).drop_last() =~= c.triangular_paths.take(j as int));
            }
            let t = &self.triangular_paths[j];
            match (prices.get(&t.pair1), prices.get(&t.pair2), prices.get(&t.pair3)) {
                (Some(price1), Some(price2), Some(price3)) => {
                    if let Some(o) = triangular_opportunity(&self.settings, t, exchange, price1, price2, price3, now) {
                        self.history.record(&o, now);
                        let ghost before = found@;
                        found.push(o);
                        proof {
                            assert(opportunities(found@) =~= opportunities(before).push(o@));
                        }
                    }
                },
                _ => {},
            }
            j = j + 1;
        }
        proof {
            assert(c.triangular_paths.take(c.triangular_paths.len() as int) =~= c.triangular_paths);
        }
    }

    /// One analysis cycle at time `now`, returning the opportunities found in
    /// the order found. While the breaker is open nothing is analysed and
    /// nothing changes.
    pub fn analyze_opportunities_at(&mut self, a: &PriceMap, b: &PriceMap, now: i64) -> (r: Vec<
        ArbitrageOpportunity,
    >)
        ensures
            analyzed(*old(self), *final(self), *a, *b, now as int, r@),
    {
        let mut found: Vec<ArbitrageOpportunity> = Vec::new();
        if self.circuit_breaker.is_open_at(now) {
            return found;
        }
        let ghost c = self.config();
        let ghost st0 = ScanState { cache: self.cache(), history: self.history(), found: seq![] };
        proof {
            assert(opportunities(found@) =~= Seq::<OpportunityModel>::empty());
            assert(c.trading_pairs.take(0) =~= Seq::<String>::empty());
        }
        let mut i: usize = 0;
        while i < self.trading_pairs.len()
            invariant
                self.config() == c,
                self.breaker() == old(self).breaker(),
                i <= c.trading_pairs.len(),
                cross_scan(c, *a, *b, c.trading_pairs.take(i as int), now as int, st0) == (ScanState {
                    cache: self.cache(),
                    history: self.history(),
                    found: opportunities(found@),
                }),
            decreases c.trading_pairs.len() - i,
        {
            proof {
                assert(c.trading_pairs.take(i + 1).drop_last() =~= c.trading_pairs.take(i as int));
            }
            let pair = self.trading_pairs[i].clone();
            match (a.get(&pair), b.get(&pair)) {
                (Some(pa), Some(pb)) => {
                    if self.is_price_fresh(&pair, pa, pb, now) {
                        if let Some(o) = cross_opportunity(
                            &self.settings,
                            &self.venue_a,
                            &self.venue_b,
                            &pair,
                            pa,
                            pb,
                            now,
                        ) {
                            self.record_opportunity(&o, now);
                            let ghost before = found@;
                            found.push(o);
                            proof {
                                assert(opportunities(found@) =~= opportunities(before).push(o@));
                            }
                        }
                    }
                },
                _ => {},
            }
            i = i + 1;
        }
        proof {
            assert(c.trading_pairs.take(c.trading_pairs.len() as int) =~= c.trading_pairs);
        }
        let venue_a = self.venue_a.clone();
        self.check_triangular_arbitrage(a, &venue_a, now, &mut found);
        let venue_b = self.venue_b.clone();
        self.check_triangular_arbitrage(b, &venue_b, now, &mut found);
        found
    }

    /// One analysis cycle now.
    pub fn analyze_opportunities(&mut self, a: &PriceMap, b: &PriceMap) -> (r: Vec<ArbitrageOpportunity>)
        ensures
            exists|now: i64| analyzed(*old(self), *final(self), *a, *b, now as int, r@),
    {
        let now = now_millis();
        self.analyze_opportunities_at(a, b, now)
    }

    /// The execution gate at time `now`: refused while the breaker is open
    /// or where the risk score exceeds 0.7; otherwise execution is switched
    /// off.
    pub fn execute_arbitrage_at(&self, opportunity: &ArbitrageOpportunity, now: i64) -> (r: ExecutionDecision)
        ensures
            r == (if open_at(self.breaker(), now as int) {
                ExecutionDecision::CircuitOpen
            } else if cmp_model(opportunity.risk_score@, (7, 1)) > 0 {
                ExecutionDecision::RiskTooHigh
            } else {
                ExecutionDecision::ExecutionDisabled
            }),
    {
        if self.circuit_breaker.is_open_at(now) {
            return ExecutionDecision::CircuitOpen;
        }
        if gt(&opportunity.risk_score, &Dec::fixed(7, 1)) {
            return ExecutionDecision::RiskTooHigh;
        }
        ExecutionDecision::ExecutionDisabled
    }

    /// The execution gate now.
    pub fn execute_arbitrage(&self, opportunity: &ArbitrageOpportunity) -> (r: ExecutionDecision)
        ensures
            exists|t: i64|
                r == (if open_at(self.breaker(), t as int) {
                    ExecutionDecision::CircuitOpen
                } else if cmp_model(opportunity.risk_score@, (7, 1)) > 0 {
                    ExecutionDecision::RiskTooHigh
                } else {
                    ExecutionDecision::ExecutionDisabled
                }),
            self.breaker().failure_count < self.breaker().threshold ==> r == (if cmp_model(
                opportunity.risk_score@,
                (7, 1),
            ) > 0 {
                ExecutionDecision::RiskTooHigh
            } else {
                ExecutionDecision::ExecutionDisabled
            }),
            r == ExecutionDecision::CircuitOpen ==> self.breaker().failure_count >= self.breaker().threshold,
    {
        let now = now_millis();
        self.execute_arbitrage_at(opportunity, now)
    }

    /// Counts a failure of the driver at `now`.
    pub fn record_failure_at(&mut self, now: i64)
        ensures
            final(self).breaker() == crate::breaker::failed(old(self).breaker(), now as int),
            final(self).config() == old(self).config(),
            final(self).cache() == old(self).cache(),
            final(self).history() == old(self).history(),
    {
        self.circuit_breaker.record_failure_at(now);
    }

    /// Counts a failure of the driver now.
    pub fn record_failure(&mut self)
        ensures
            exists|t: i64| final(self).breaker() == crate::breaker::failed(old(self).breaker(), t as int),
            final(self).config() == old(self).config(),
            final(self).cache() == old(self).cache(),
            final(self).history() == old(self).history(),
    {
        self.circuit_breaker.record_failure();
    }

    pub fn is_circuit_open_at(&self, now: i64) -> (r: bool)
        ensures
            r == open_at(self.breaker(), now as int),
    {
        self.circuit_breaker.is_open_at(now)
    }

    pub fn is_circuit_open(&self) -> (r: bool)
        ensures
            exists|t: i64| r == open_at(self.breaker(), t as int),
            r ==> self.breaker().failure_count >= self.breaker().threshold && self.breaker().last_failure is Some,
    {
        self.circuit_breaker.is_open()
    }

    pub fn reset_circuit_breaker(&mut self)
        ensures
            final(self).breaker() == crate::breaker::cleared(old(self).breaker()),
            final(self).config() == old(self).config(),
            final(self).cache() == old(self).cache(),
            final(self).history() == old(self).history(),
    {
        self.circuit_breaker.reset();
    }

    /// The recorded opportunities of a venue path on a UTC day (`YYYYMMDD`).
    pub fn opportunity_history(&self, exchange: &String, day: &String) -> (r: Option<Vec<ArbitrageOpportunity>>)
        ensures
            match r {
                Some(v) => self.history().contains_key(exchange@ + "_"@ + day@) && self.history()[exchange@ + "_"@
                    + day@] == opportunities(v@),
                None => !self.history().contains_key(exchange@ + "_"@ + day@),
            },
    {
        self.history.bucket(exchange, day)
    }
}

} // verus!
