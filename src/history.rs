//! The opportunity history: opportunities in buckets keyed by venue path and
//! UTC day, pruned of everything older than the retention window on every
//! write.
use crate::opportunity::{opportunities, ArbitrageOpportunity, ExecutionStep, OpportunityModel, steps, texts};
use crate::shared_maps::{
    history_contents, history_get, history_insert, history_remove, history_retain_recent, new_history, HistoryMap,
};
use vstd::prelude::*;

verus! {

/// How long an opportunity is kept: seven days, in milliseconds.
pub const RETENTION_MILLIS: i64 = 604_800_000;

/// The opportunities of `s` newer than the retention window before `now`,
/// in their order.
pub open spec fn recent(s: Seq<OpportunityModel>, now: int) -> Seq<OpportunityModel>
    decreases s.len(),
{
    if s.len() == 0 {
        s
    } else {
        let rest = recent(s.drop_last(), now);
        if s.last().timestamp > now - RETENTION_MILLIS {
            rest.push(s.last())
        } else {
            rest
        }
    }
}

/// How chrono writes the UTC day of a time as `YYYYMMDD`, or `None` where the
/// time is out of its range.
pub uninterp spec fn utc_day_label(millis: int) -> Option<Seq<char>>;

/// Times, in milliseconds either side of 1970, that chrono dates: about
/// 253,000 years, well inside the years -262,143 to 262,142 it supports.
pub const LABELLED_MILLIS: i64 = 8_000_000_000_000_000;

/// Relies on `DateTime::from_timestamp_millis`, which is `Some` across its
/// range of years, and `DateTime::format` with `%Y%m%d`.
#[verifier::external_body]
fn day_label(millis: i64) -> (r: Option<String>)
    ensures
        match r {
            Some(s) => utc_day_label(millis as int) == Some(s@),
            None => utc_day_label(millis as int) is None,
        },
        -LABELLED_MILLIS <= millis <= LABELLED_MILLIS ==> r is Some,
{
    chrono::DateTime::from_timestamp_millis(millis).map(|t| t.format("%Y%m%d").to_string())
}

/// The key of the bucket of an opportunity: its venue path, `_`, its UTC day.
pub open spec fn bucket_key(exchange: Seq<char>, millis: int) -> Option<Seq<char>> {
    match utc_day_label(millis) {
        Some(day) => Some(exchange + "_"@ + day),
        None => None,
    }
}

/// An exact copy of a step.
pub fn copy_step(s: &ExecutionStep) -> (r: ExecutionStep)
    ensures
        r@ == s@,
{
    ExecutionStep {
        action: s.action.clone(),
        symbol: s.symbol.clone(),
        side: s.side,
        quantity: s.quantity,
        expected_price: s.expected_price,
        fees: s.fees,
    }
}

/// An exact copy of an opportunity.
pub fn copy_opportunity(o: &ArbitrageOpportunity) -> (r: ArbitrageOpportunity)
    ensures
        r@ == o@,
{
    let mut path: Vec<String> = Vec::new();
    let mut i: usize = 0;
    while i < o.path.len()
        invariant
            i <= o.path@.len(),
            path@.len() == i,
            forall|k: int| 0 <= k < i ==> #[trigger] path@[k]@ == o.path@[k]@,
        decreases o.path@.len() - i,
    {
        path.push(o.path[i].clone());
        i = i + 1;
    }
    let mut plan: Vec<ExecutionStep> = Vec::new();
    let mut j: usize = 0;
    while j < o.execution_steps.len()
        invariant
            j <= o.execution_steps@.len(),
            plan@.len() == j,
            forall|k: int| 0 <= k < j ==> #[trigger] plan@[k]@ == o.execution_steps@[k]@,
        decreases o.execution_steps@.len() - j,
    {
        plan.push(copy_step(&o.execution_steps[j]));
        j = j + 1;
    }
    proof {
        assert(texts(path@) =~= texts(o.path@));
        assert(steps(plan@) =~= steps(o.execution_steps@));
    }
    ArbitrageOpportunity {
        exchange: o.exchange.clone(),
        path,
        profit_percentage: o.profit_percentage,
        net_profit_percentage: o.net_profit_percentage,
        required_amount: o.required_amount,
        estimated_profit_usd: o.estimated_profit_usd,
        risk_score: o.risk_score,
        execution_steps: plan,
        timestamp: o.timestamp,
    }
}

/// Drops from a bucket the opportunities that the retention window has
/// passed at `now`; returns whether any is left.
pub fn keep_recent(bucket: &mut Vec<ArbitrageOpportunity>, now: i64) -> (nonempty: bool)
    ensures
        opportunities(final(bucket)@) == recent(opportunities(old(bucket)@), now as int),
        nonempty == (final(bucket)@.len() > 0),
{
    let ghost all = opportunities(bucket@);
    let mut kept: Vec<ArbitrageOpportunity> = Vec::new();
    let mut i: usize = 0;
    let cutoff: i128 = now as i128 - RETENTION_MILLIS as i128;
    while i < bucket.len()
        invariant
            i <= bucket@.len(),
            all == opportunities(bucket@),
            cutoff == now - RETENTION_MILLIS,
            opportunities(kept@) == recent(all.subrange(0, i as int), now as int),
        decreases bucket@.len() - i,
    {
        proof {
            assert(all.subrange(0, i + 1).drop_last() =~= all.subrange(0, i as int));
        }
        if bucket[i].timestamp as i128 > cutoff {
            let copy = copy_opportunity(&bucket[i]);
            kept.push(copy);
        }
        i = i + 1;
    }
    proof {
        assert(all.subrange(0, bucket@.len() as int) =~= all);
    }
    *bucket = kept;
    bucket.len() > 0
}

/// No bucket is empty, and no opportunity in it is older than the retention
/// window before `now`.
pub open spec fn pruned_at(contents: Map<Seq<char>, Seq<OpportunityModel>>, now: int) -> bool {
    forall|k: Seq<char>| #[trigger]
        contents.contains_key(k) ==> contents[k].len() > 0 && forall|i: int|
            0 <= i < contents[k].len() ==> #[trigger] contents[k][i].timestamp > now - RETENTION_MILLIS
}

/// Every opportunity that pruning keeps is newer than the window, and it
/// keeps every such opportunity, in order.
pub proof fn lemma_recent_within_window(s: Seq<OpportunityModel>, now: int)
    ensures
        forall|i: int| 0 <= i < recent(s, now).len() ==> #[trigger] recent(s, now)[i].timestamp > now - RETENTION_MILLIS,
        recent(s, now).len() <= s.len(),
    decreases s.len(),
{
    if s.len() > 0 {
        lemma_recent_within_window(s.drop_last(), now);
    }
}

/// A write prunes the whole history: afterwards no bucket is empty and none
/// holds an opportunity older than the retention window, whatever was
/// written; the opportunity written is kept, last in its bucket, exactly
/// when it is itself within the window.
pub proof fn lemma_write_prunes(
    h: Map<Seq<char>, Seq<OpportunityModel>>,
    key: Seq<char>,
    o: OpportunityModel,
    now: int,
)
    ensures
        pruned_at(pruned(appended(h, key, o), now), now),
        pruned_at(pruned(h, now), now),
        o.timestamp > now - RETENTION_MILLIS ==> pruned(appended(h, key, o), now).contains_key(key) && pruned(
            appended(h, key, o),
            now,
        )[key].last() == o,
        o.timestamp <= now - RETENTION_MILLIS && !h.contains_key(key) ==> !pruned(appended(h, key, o), now).contains_key(
            key,
        ),
{
    let a = appended(h, key, o);
    assert forall|k: Seq<char>| #[trigger] pruned(a, now).contains_key(k) implies pruned(a, now)[k].len() > 0 && forall|
        i: int,
    | 0 <= i < pruned(a, now)[k].len() ==> #[trigger] pruned(a, now)[k][i].timestamp > now - RETENTION_MILLIS by {
        lemma_recent_within_window(a[k], now);
    }
    assert forall|k: Seq<char>| #[trigger] pruned(h, now).contains_key(k) implies pruned(h, now)[k].len() > 0 && forall|
        i: int,
    | 0 <= i < pruned(h, now)[k].len() ==> #[trigger] pruned(h, now)[k][i].timestamp > now - RETENTION_MILLIS by {
        lemma_recent_within_window(h[k], now);
    }
    if h.contains_key(key) {
        assert(a[key].drop_last() =~= h[key]);
    } else {
        assert(a[key].drop_last() =~= Seq::<OpportunityModel>::empty());
        assert(recent(Seq::<OpportunityModel>::empty(), now) =~= Seq::<OpportunityModel>::empty());
    }
}

/// Opportunities kept by venue path and day.
pub struct OpportunityHistory {
    buckets: HistoryMap,
}

impl View for OpportunityHistory {
    type V = Map<Seq<char>, Seq<OpportunityModel>>;

    closed spec fn view(&self) -> Map<Seq<char>, Seq<OpportunityModel>> {
        history_contents(self.buckets)
    }
}

/// The history after adding `o` to its bucket, before pruning.
pub open spec fn appended(h: Map<Seq<char>, Seq<OpportunityModel>>, key: Seq<char>, o: OpportunityModel) -> Map<
    Seq<char>,
    Seq<OpportunityModel>,
> {
    if h.contains_key(key) {
        h.insert(key, h[key].push(o))
    } else {
        h.insert(key, seq![o])
    }
}

/// The history pruned at `now`: each bucket keeps its recent opportunities,
/// and buckets left empty go.
pub open spec fn pruned(h: Map<Seq<char>, Seq<OpportunityModel>>, now: int) -> Map<Seq<char>, Seq<OpportunityModel>> {
    Map::new(|k: Seq<char>| h.contains_key(k) && recent(h[k], now).len() > 0, |k: Seq<char>| recent(h[k], now))
}

impl OpportunityHistory {
    pub fn new() -> (r: OpportunityHistory)
        ensures
            r@.dom().is_empty(),
    {
        OpportunityHistory { buckets: new_history() }
    }

    /// Adds `opportunity` to the bucket of its venue path and day, then prunes
    /// every bucket at `now`. An opportunity whose time has no UTC day is not
    /// added; the pruning still happens.
    pub fn record(&mut self, opportunity: &ArbitrageOpportunity, now: i64)
        ensures
            final(self)@ == pruned(
                match bucket_key(opportunity.exchange@, opportunity.timestamp as int) {
                    Some(key) => appended(old(self)@, key, opportunity@),
                    None => old(self)@,
                },
                now as int,
            ),
            -LABELLED_MILLIS <= opportunity.timestamp <= LABELLED_MILLIS ==> bucket_key(
                opportunity.exchange@,
                opportunity.timestamp as int,
            ) is Some,
    {
        let ghost before = self@;
        if let Some(day) = day_label(opportunity.timestamp) {
            let mut key = opportunity.exchange.clone();
            key.append("_");
            key.append(day.as_str());
            let ghost k = key@;
            let mut bucket = match history_remove(&mut self.buckets, &key) {
                Some(b) => b,
                None => Vec::new(),
            };
            let ghost held = opportunities(bucket@);
            let copy = copy_opportunity(opportunity);
            bucket.push(copy);
            proof {
                assert(opportunities(bucket@) =~= held.push(opportunity@));
            }
            history_insert(&mut self.buckets, key, bucket);
            proof {
                assert(k == opportunity.exchange@ + "_"@ + day@);
                if before.contains_key(k) {
                    assert(held == before[k]);
                    assert(self@ =~= before.insert(k, before[k].push(opportunity@)));
                } else {
                    assert(held =~= Seq::<OpportunityModel>::empty());
                    assert(held.push(opportunity@) =~= seq![opportunity@]);
                    assert(self@ =~= before.insert(k, seq![opportunity@]));
                }
            }
        }
        history_retain_recent(&mut self.buckets, now);
    }

    /// The opportunities of one venue path on one UTC day (`YYYYMMDD`).
    pub fn bucket(&self, exchange: &String, day: &String) -> (r: Option<Vec<ArbitrageOpportunity>>)
        ensures
            match r {
                Some(v) => self@.contains_key(exchange@ + "_"@ + day@) && self@[exchange@ + "_"@ + day@]
                    == opportunities(v@),
                None => !self@.contains_key(exchange@ + "_"@ + day@),
            },
    {
        let mut key = exchange.clone();
        key.append("_");
        key.append(day.as_str());
        history_get(&self.buckets, &key)
    }
}

} // verus!
