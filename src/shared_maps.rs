//! The engine's shared tables, held in `dashmap` maps: the price cache and
//! the opportunity history. Each operation the engine uses is a wrapper whose
//! contract speaks of the map's contents.
use crate::decimal::{Dec, DecModel, opt_view};
use crate::history::{keep_recent, recent};
use crate::opportunity::{opportunities, ArbitrageOpportunity, OpportunityModel};
use dashmap::DashMap;
use vstd::prelude::*;

verus! {

#[verifier::external_type_specification]
#[verifier::external_body]
#[verifier::reject_recursive_types(K)]
#[verifier::reject_recursive_types(V)]
#[verifier::reject_recursive_types(S)]
pub struct ExDashMap<K, V, S>(DashMap<K, V, S>);

/// A cached observation: the averaged price (where it could be computed) and
/// when it was observed, in milliseconds.
pub type CacheEntry = (Option<Dec>, i64);

pub type PriceCache = DashMap<String, CacheEntry>;

pub type HistoryMap = DashMap<String, Vec<ArbitrageOpportunity>>;

pub open spec fn entry_view(e: CacheEntry) -> (Option<DecModel>, int) {
    (opt_view(e.0), e.1 as int)
}

/// What the price cache holds, keyed by symbol.
pub uninterp spec fn cache_contents(m: PriceCache) -> Map<Seq<char>, (Option<DecModel>, int)>;

/// What the history holds, keyed by bucket.
pub uninterp spec fn history_contents(m: HistoryMap) -> Map<Seq<char>, Seq<OpportunityModel>>;

/// Relies on `DashMap::new`: an empty map.
#[verifier::external_body]
pub(crate) fn new_price_cache() -> (r: PriceCache)
    ensures
        cache_contents(r).dom().is_empty(),
{
    DashMap::new()
}

/// Relies on `DashMap::get`: the value held for the key, if any.
#[verifier::external_body]
pub(crate) fn cache_get(m: &PriceCache, symbol: &String) -> (r: Option<CacheEntry>)
    ensures
        match r {
            Some(e) => cache_contents(*m).contains_key(symbol@) && cache_contents(*m)[symbol@] == entry_view(e),
            None => !cache_contents(*m).contains_key(symbol@),
        },
{
    m.get(symbol).map(|e| *e.value())
}

/// Relies on `DashMap::insert`: the key then holds the value, other keys
/// keep theirs.
#[verifier::external_body]
pub(crate) fn cache_insert(m: &mut PriceCache, symbol: String, entry: CacheEntry)
    ensures
        cache_contents(*final(m)) == cache_contents(*old(m)).insert(symbol@, entry_view(entry)),
{
    m.insert(symbol, entry);
}

/// Relies on `DashMap::new`: an empty map.
#[verifier::external_body]
pub(crate) fn new_history() -> (r: HistoryMap)
    ensures
        history_contents(r).dom().is_empty(),
{
    DashMap::new()
}

/// Relies on `DashMap::get`, and on `Clone` for the opportunities, which
/// copies every field.
#[verifier::external_body]
pub(crate) fn history_get(m: &HistoryMap, key: &String) -> (r: Option<Vec<ArbitrageOpportunity>>)
    ensures
        match r {
            Some(v) => history_contents(*m).contains_key(key@) && history_contents(*m)[key@] == opportunities(v@),
            None => !history_contents(*m).contains_key(key@),
        },
{
    m.get(key).map(|e| e.value().clone())
}

/// Relies on `DashMap::remove`: the value the key held, which it no longer
/// holds.
#[verifier::external_body]
pub(crate) fn history_remove(m: &mut HistoryMap, key: &String) -> (r: Option<Vec<ArbitrageOpportunity>>)
    ensures
        history_contents(*final(m)) == history_contents(*old(m)).remove(key@),
        match r {
            Some(v) => history_contents(*old(m)).contains_key(key@) && history_contents(*old(m))[key@]
                == opportunities(v@),
            None => !history_contents(*old(m)).contains_key(key@),
        },
{
    m.remove(key).map(|(_, v)| v)
}

/// Relies on `DashMap::insert`: the key then holds the value, other keys
/// keep theirs.
#[verifier::external_body]
pub(crate) fn history_insert(m: &mut HistoryMap, key: String, bucket: Vec<ArbitrageOpportunity>)
    ensures
        history_contents(*final(m)) == history_contents(*old(m)).insert(key@, opportunities(bucket@)),
{
    m.insert(key, bucket);
}

/// Relies on `DashMap::retain`, which hands each entry's value to the
/// closure once, keeps what the closure leaves in it, and drops the entries
/// for which it returns `false`. Here the closure is `keep_recent`, which
/// leaves the opportunities newer than the retention window and returns
/// whether any is left.
#[verifier::external_body]
pub(crate) fn history_retain_recent(m: &mut HistoryMap, now: i64)
    ensures
        history_contents(*final(m)) == Map::new(
            |k: Seq<char>| history_contents(*old(m)).contains_key(k) && recent(history_contents(*old(m))[k], now as int).len() > 0,
            |k: Seq<char>| recent(history_contents(*old(m))[k], now as int),
        ),
{
    m.retain(|_, bucket| keep_recent(bucket, now));
}

} // verus!
