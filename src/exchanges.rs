//! Market data shared by the detectors: price snapshots, order books, fees
//! and order requests.
use crate::decimal::{gt, lemma_cmp_zero, Dec};
use vstd::prelude::*;

verus! {

/// One quoted price of a venue's ticker feed.
#[derive(Clone, Debug)]
pub struct TickerPrice {
    pub symbol: String,
    pub price: Dec,
    /// Milliseconds since the Unix epoch, where the venue gave a time.
    pub timestamp: Option<i64>,
}

/// Price levels of one symbol on one venue, best first, each a
/// `(price, quantity)` pair.
#[derive(Clone, Debug)]
pub struct OrderBook {
    pub symbol: String,
    pub bids: Vec<(Dec, Dec)>,
    pub asks: Vec<(Dec, Dec)>,
    /// Milliseconds since the Unix epoch.
    pub timestamp: i64,
}

/// A venue's fee schedule, as fractions of the traded notional.
#[derive(Clone, Copy, Debug)]
pub struct TradingFees {
    pub maker_fee: Dec,
    pub taker_fee: Dec,
    pub withdrawal_fee: Dec,
}

impl Default for TradingFees {
    /// 0.1% maker and taker fees, 0.05% withdrawal fee.
    fn default() -> (r: TradingFees)
        ensures
            r.maker_fee@ == (1int, 3int),
            r.taker_fee@ == (1int, 3int),
            r.withdrawal_fee@ == (5int, 4int),
    {
        TradingFees {
            maker_fee: Dec::fixed(1, 3),
            taker_fee: Dec::fixed(1, 3),
            withdrawal_fee: Dec::fixed(5, 4),
        }
    }
}

/// What can go wrong when talking to a venue.
#[derive(Clone, Debug)]
pub enum ExchangeError {
    MissingCredentials(String),
    NetworkError(String),
    ApiError(String),
    ParseError(String),
    RateLimitError(String),
    SignatureError(String),
    InsufficientBalance(String),
}

impl ExchangeError {
    /// The prefix that names the kind of error in its message.
    pub open spec fn spec_prefix(&self) -> Seq<char> {
        match self {
            ExchangeError::MissingCredentials(_) => "Missing credentials: "@,
            ExchangeError::NetworkError(_) => "Network error: "@,
            ExchangeError::ApiError(_) => "API error: "@,
            ExchangeError::ParseError(_) => "Parse error: "@,
            ExchangeError::RateLimitError(_) => "Rate limit error: "@,
            ExchangeError::SignatureError(_) => "Signature error: "@,
            ExchangeError::InsufficientBalance(_) => "Insufficient balance: "@,
        }
    }

    pub open spec fn spec_detail(&self) -> Seq<char> {
        match self {
            ExchangeError::MissingCredentials(s) => s@,
            ExchangeError::NetworkError(s) => s@,
            ExchangeError::ApiError(s) => s@,
            ExchangeError::ParseError(s) => s@,
            ExchangeError::RateLimitError(s) => s@,
            ExchangeError::SignatureError(s) => s@,
            ExchangeError::InsufficientBalance(s) => s@,
        }
    }

    /// The error as a line of text: its kind, then its detail.
    pub fn message(&self) -> (r: String)
        ensures
            r@ == self.spec_prefix() + self.spec_detail(),
    {
        let (prefix, detail) = match self {
            ExchangeError::MissingCredentials(s) => ("Missing credentials: ", s),
            ExchangeError::NetworkError(s) => ("Network error: ", s),
            ExchangeError::ApiError(s) => ("API error: ", s),
            ExchangeError::ParseError(s) => ("Parse error: ", s),
            ExchangeError::RateLimitError(s) => ("Rate limit error: ", s),
            ExchangeError::SignatureError(s) => ("Signature error: ", s),
            ExchangeError::InsufficientBalance(s) => ("Insufficient balance: ", s),
        };
        let mut text = String::from_str(prefix);
        text.append(detail.as_str());
        text
    }

    /// Whether a retry may succeed: network and rate-limit failures pass,
    /// every other failure stays.
    pub fn is_transient(&self) -> (r: bool)
        ensures
            r == (self is NetworkError || self is RateLimitError),
    {
        match self {
            ExchangeError::NetworkError(_) => true,
            ExchangeError::RateLimitError(_) => true,
            _ => false,
        }
    }
}

/// An order to submit to a venue.
#[derive(Clone, Debug)]
pub struct OrderRequest {
    pub symbol: String,
    pub side: OrderSide,
    pub quantity: Dec,
    pub price: Option<Dec>,
    pub order_type: OrderType,
}

#[derive(Clone, Copy, Debug, PartialEq, Eq, Structural)]
pub enum OrderSide {
    Buy,
    Sell,
}

#[derive(Clone, Copy, Debug, PartialEq, Eq, Structural)]
pub enum OrderType {
    Market,
    Limit,
}

/// The price of `symbol` in `entries`: the latest entry for it.
pub open spec fn find_price(entries: Seq<(String, Dec)>, symbol: Seq<char>) -> Option<Dec>
    decreases entries.len(),
{
    if entries.len() == 0 {
        None
    } else if entries.last().0@ == symbol {
        Some(entries.last().1)
    } else {
        find_price(entries.drop_last(), symbol)
    }
}

/// A snapshot of one venue's prices: at most one price per symbol.
#[derive(Clone, Debug)]
pub struct PriceMap {
    entries: Vec<(String, Dec)>,
}

impl PriceMap {
    /// The price held for `symbol`, if any.
    pub closed spec fn price(&self, symbol: Seq<char>) -> Option<Dec> {
        find_price(self.entries@, symbol)
    }

    /// No symbol has a price.
    pub closed spec fn spec_is_empty(&self) -> bool {
        self.entries@.len() == 0
    }

    pub fn new() -> (r: PriceMap)
        ensures
            forall|s: Seq<char>| r.price(s) is None,
            r.spec_is_empty(),
    {
        PriceMap { entries: Vec::new() }
    }

    /// Sets the price of `symbol`, replacing the one it had.
    pub fn insert(&mut self, symbol: String, price: Dec)
        ensures
            final(self).price(symbol@) == Some(price),
            forall|s: Seq<char>| s != symbol@ ==> final(self).price(s) == old(self).price(s),
            !final(self).spec_is_empty(),
    {
        self.entries.push((symbol, price));
        proof {
            assert(self.entries@.drop_last() =~= old(self).entries@);
        }
    }

    /// The price of `symbol`, if the snapshot has one.
    pub fn get(&self, symbol: &String) -> (r: Option<Dec>)
        ensures
            r == self.price(symbol@),
    {
        let mut i = self.entries.len();
        proof {
            assert(self.entries@.subrange(0, i as int) =~= self.entries@);
        }
        while i > 0
            invariant
                i <= self.entries@.len(),
                find_price(self.entries@, symbol@) == find_price(self.entries@.subrange(0, i as int), symbol@),
            decreases i,
        {
            let ghost prefix = self.entries@.subrange(0, i as int);
            proof {
                assert(prefix.drop_last() =~= self.entries@.subrange(0, i - 1));
            }
            if self.entries[i - 1].0 == *symbol {
                return Some(self.entries[i - 1].1);
            }
            i = i - 1;
        }
        proof {
            assert(self.entries@.subrange(0, 0) =~= Seq::<(String, Dec)>::empty());
        }
        None
    }

    pub fn is_empty(&self) -> (r: bool)
        ensures
            r == self.spec_is_empty(),
            r ==> forall|s: Seq<char>| self.price(s) is None,
    {
        self.entries.len() == 0
    }
}

/// The snapshot of a ticker feed: each ticker with a positive price, the
/// later of two tickers of one symbol winning.
pub open spec fn positive_prices(tickers: Seq<TickerPrice>, symbol: Seq<char>) -> Option<Dec>
    decreases tickers.len(),
{
    if tickers.len() == 0 {
        None
    } else if tickers.last().symbol@ == symbol && tickers.last().price@.0 > 0 {
        Some(tickers.last().price)
    } else {
        positive_prices(tickers.drop_last(), symbol)
    }
}

/// Keeps the tickers whose price is above zero.
pub fn price_map_from_tickers(tickers: Vec<TickerPrice>) -> (r: PriceMap)
    ensures
        forall|s: Seq<char>| #[trigger] r.price(s) == positive_prices(tickers@, s),
{
    let mut map = PriceMap::new();
    let mut i: usize = 0;
    let zero = Dec::zero();
    while i < tickers.len()
        invariant
            i <= tickers@.len(),
            zero@ == (0int, 0int),
            forall|s: Seq<char>| #[trigger] map.price(s) == positive_prices(tickers@.subrange(0, i as int), s),
        decreases tickers.len() - i,
    {
        let ticker = &tickers[i];
        let ghost next = tickers@.subrange(0, i + 1);
        proof {
            assert(next.drop_last() =~= tickers@.subrange(0, i as int));
            assert(next.last() == tickers@[i as int]);
            lemma_cmp_zero(ticker.price@);
        }
        let ghost before = map;
        if gt(&ticker.price, &zero) {
            let symbol = ticker.symbol.clone();
            map.insert(symbol, ticker.price);
        }
        assert forall|s: Seq<char>| #[trigger] map.price(s) == positive_prices(next, s) by {
            assert(before.price(s) == positive_prices(tickers@.subrange(0, i as int), s));
        }
        i = i + 1;
    }
    proof {
        assert(tickers@.subrange(0, tickers@.len() as int) =~= tickers@);
    }
    map
}

} // verus!
