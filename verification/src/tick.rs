//! Tick-level market data.

use vstd::prelude::*;

use crate::series::F64Bits;
use crate::symbol::Symbol;

verus! {

/// The mathematical value of a [`Tick`]: the same fields with text
/// abstracted to character sequences.
pub struct TickView {
    /// Symbol for this tick.
    pub symbol: Seq<char>,
    /// Timestamp of the tick, in milliseconds.
    pub timestamp: u64,
    /// Trade/quote price.
    pub price: F64Bits,
    /// Trade/quote size.
    pub size: F64Bits,
    /// Exchange where the tick occurred.
    pub exchange: Option<Seq<char>>,
    /// Trade conditions.
    pub conditions: Seq<Seq<char>>,
}

/// A single tick (trade or quote).
///
/// Price and size are carried as opaque [`F64Bits`] values; timestamps are
/// whole milliseconds.
#[derive(Debug, PartialEq)]
pub struct Tick {
    /// Symbol for this tick.
    pub symbol: Symbol,
    /// Timestamp of the tick, in milliseconds.
    pub timestamp: u64,
    /// Trade/quote price.
    pub price: F64Bits,
    /// Trade/quote size.
    pub size: F64Bits,
    /// Exchange where the tick occurred.
    pub exchange: Option<String>,
    /// Trade conditions (e.g., "regular", "odd lot").
    pub conditions: Vec<String>,
}

impl View for Tick {
    type V = TickView;

    open spec fn view(&self) -> TickView {
        TickView {
            symbol: self.symbol@,
            timestamp: self.timestamp,
            price: self.price,
            size: self.size,
            exchange: self.exchange.deep_view(),
            conditions: self.conditions.deep_view(),
        }
    }
}

impl DeepView for Tick {
    type V = TickView;

    open spec fn deep_view(&self) -> TickView {
        self@
    }
}

impl Tick {
    /// Creates a new tick with required fields.
    pub fn new(symbol: Symbol, timestamp: u64, price: F64Bits, size: F64Bits) -> (r: Self)
        ensures
            r@.symbol == symbol@,
            r@.timestamp == timestamp,
            r@.price == price,
            r@.size == size,
            r@.exchange is None,
            r@.conditions =~= Seq::<Seq<char>>::empty(),
    {
        Tick { symbol, timestamp, price, size, exchange: None, conditions: Vec::new() }
    }

    /// Sets the exchange for this tick.
    pub fn with_exchange(self, exchange: String) -> (r: Self)
        ensures
            r@ == (TickView { exchange: Some(exchange@), ..self@ }),
    {
        Tick { exchange: Some(exchange), ..self }
    }

    /// Sets the trade conditions for this tick.
    pub fn with_conditions(self, conditions: Vec<String>) -> (r: Self)
        ensures
            r@ == (TickView { conditions: conditions.deep_view(), ..self@ }),
    {
        Tick { conditions, ..self }
    }
}

impl Clone for Tick {
    /// The copy denotes the same tick.
    fn clone(&self) -> (r: Self)
        ensures
            r@ == self@,
    {
        let mut conditions: Vec<String> = Vec::new();
        let mut i: usize = 0;
        #[verifier::loop_isolation(false)]
        while i < self.conditions.len()
            invariant
                0 <= i <= self.conditions@.len(),
                conditions.deep_view() =~= self.conditions.deep_view().take(i as int),
            decreases self.conditions@.len() - i,
        {
            conditions.push(self.conditions[i].clone());
            proof {
                assert(conditions.deep_view() =~= self.conditions.deep_view().take(i + 1));
            }
            i += 1;
        }
        proof {
            assert(conditions.deep_view() =~= self.conditions.deep_view());
        }
        let r = Tick {
            symbol: self.symbol.clone(),
            timestamp: self.timestamp,
            price: self.price,
            size: self.size,
            exchange: match &self.exchange {
                Some(e) => Some(e.clone()),
                None => None,
            },
            conditions,
        };
        r
    }
}

/// The ticks of a sequence whose symbol is exactly `sym`.
pub open spec fn ticks_for(s: Seq<TickView>, sym: Seq<char>) -> Seq<TickView> {
    s.filter(|t: TickView| t.symbol == sym)
}

/// The least timestamp among the ticks; meaningful only for non-empty
/// sequences.
pub open spec fn spec_min_ts(s: Seq<TickView>) -> u64
    decreases s.len(),
{
    if s.len() == 0 {
        0
    } else if s.len() == 1 {
        s[0].timestamp
    } else {
        let rest = spec_min_ts(s.drop_last());
        if s.last().timestamp <= rest {
            s.last().timestamp
        } else {
            rest
        }
    }
}

/// The greatest timestamp among the ticks; meaningful only for non-empty
/// sequences.
pub open spec fn spec_max_ts(s: Seq<TickView>) -> u64
    decreases s.len(),
{
    if s.len() == 0 {
        0
    } else if s.len() == 1 {
        s[0].timestamp
    } else {
        let rest = spec_max_ts(s.drop_last());
        if rest <= s.last().timestamp {
            s.last().timestamp
        } else {
            rest
        }
    }
}

/// Collection of tick data with helper methods.
#[derive(Debug, PartialEq)]
pub struct TickData {
    ticks: Vec<Tick>,
}

impl View for TickData {
    type V = Seq<TickView>;

    closed spec fn view(&self) -> Seq<TickView> {
        self.ticks.deep_view()
    }
}

impl TickData {
    /// Creates an empty tick collection.
    pub fn new() -> (r: Self)
        ensures
            r@ =~= Seq::<TickView>::empty(),
    {
        TickData { ticks: Vec::new() }
    }

    /// Creates a tick collection from a vector of ticks.
    pub fn from_ticks(ticks: Vec<Tick>) -> (r: Self)
        ensures
            r@ == ticks.deep_view(),
    {
        TickData { ticks }
    }

    /// Adds a tick to the collection.
    pub fn push(&mut self, tick: Tick)
        ensures
            final(self)@ =~= old(self)@.push(tick@),
    {
        let ghost tv = tick@;
        self.ticks.push(tick);
        proof {
            assert(self@ =~= old(self)@.push(tv));
        }
    }

    /// Returns the number of ticks.
    pub fn len(&self) -> (r: usize)
        ensures
            r == self@.len(),
    {
        self.ticks.len()
    }

    /// Returns true if there are no ticks.
    pub fn is_empty(&self) -> (r: bool)
        ensures
            r == (self@.len() == 0),
    {
        self.ticks.len() == 0
    }

    /// Consumes the collection and returns the underlying vector.
    pub fn into_inner(self) -> (r: Vec<Tick>)
        ensures
            r.deep_view() == self@,
    {
        self.ticks
    }

    /// Filters ticks to only those for a specific symbol.
    pub fn filter_by_symbol(&self, symbol: &Symbol) -> (r: Self)
        ensures
            r@ =~= ticks_for(self@, symbol@),
    {
        let mut out: Vec<Tick> = Vec::new();
        let n = self.ticks.len();
        let mut i: usize = 0;
        proof {
            reveal(Seq::filter);
        }
        #[verifier::loop_isolation(false)]
        while i < n
            invariant
                n == self@.len(),
                0 <= i <= n,
                out.deep_view() =~= ticks_for(self@.take(i as int), symbol@),
            decreases n - i,
        {
            let ghost pre = self@.take(i as int);
            let ghost post = self@.take(i + 1);
            proof {
                reveal(Seq::filter);
                assert(post.drop_last() =~= pre);
                assert(post.last() == self@[i as int]);
            }
            if self.ticks[i].symbol.to_text() == symbol.to_text() {
                let ghost prev = out.deep_view();
                out.push(self.ticks[i].clone());
                proof {
                    assert(out.deep_view() =~= prev.push(self@[i as int]));
                }
            }
            i += 1;
        }
        proof {
            assert(self@.take(n as int) =~= self@);
        }
        TickData { ticks: out }
    }

    /// Returns the time range covered by these ticks, or `None` when there
    /// are none.
    pub fn time_range(&self) -> (r: Option<(u64, u64)>)
        ensures
            self@.len() == 0 ==> r is None,
            self@.len() > 0 ==> r == Some((spec_min_ts(self@), spec_max_ts(self@))),
    {
        let n = self.ticks.len();
        if n == 0 {
            return None;
        }
        let mut lo = self.ticks[0].timestamp;
        let mut hi = self.ticks[0].timestamp;
        let mut i: usize = 1;
        #[verifier::loop_isolation(false)]
        while i < n
            invariant
                n == self@.len(),
                1 <= i <= n,
                lo == spec_min_ts(self@.take(i as int)),
                hi == spec_max_ts(self@.take(i as int)),
            decreases n - i,
        {
            let t = self.ticks[i].timestamp;
            proof {
                assert(self@.take(i + 1).drop_last() =~= self@.take(i as int));
                assert(self@.take(i + 1).last() == self@[i as int]);
            }
            if t <= lo {
                lo = t;
            }
            if hi <= t {
                hi = t;
            }
            i += 1;
        }
        proof {
            assert(self@.take(n as int) =~= self@);
        }
        Some((lo, hi))
    }
}

impl Clone for TickData {
    /// The copy denotes the same sequence of ticks.
    fn clone(&self) -> (r: Self)
        ensures
            r@ == self@,
    {
        let mut ticks: Vec<Tick> = Vec::new();
        let mut i: usize = 0;
        #[verifier::loop_isolation(false)]
        while i < self.ticks.len()
            invariant
                0 <= i <= self.ticks@.len(),
                ticks.deep_view() =~= self.ticks.deep_view().take(i as int),
            decreases self.ticks@.len() - i,
        {
            ticks.push(self.ticks[i].clone());
            proof {
                assert(ticks.deep_view() =~= self.ticks.deep_view().take(i + 1));
            }
            i += 1;
        }
        proof {
            assert(ticks.deep_view() =~= self.ticks.deep_view());
        }
        TickData { ticks }
    }
}

} // verus!
