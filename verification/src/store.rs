//! Plain-value snapshot of what the shared state store holds for one
//! signal.
//!
//! The store itself is an external collaborator; before a signal is
//! judged, the caller reads the keys the checks consult and hands the
//! values in here. A field that is `Option` distinguishes a failed read
//! (`None`) from a value: every safety gate fails closed on `None`.

use vstd::prelude::*;
use crate::signal::{Signal, SignalKind};

verus! {

/// What the checks read from the store, keyed per symbol and region.
pub struct StoreSnapshot {
    /// Symbols restricted in the signal's region; `None` when the read failed.
    pub restricted_symbols: Option<Vec<String>>,
    /// Last known market timestamp for the symbol; `0` when unknown.
    pub market_timestamp: i64,
    /// Current leverage-adjusted exposure against the symbol, scaled;
    /// `None` when the read failed.
    pub portfolio_exposure: Option<u64>,
    /// Direction of each open position against the symbol.
    pub open_position_kinds: Vec<SignalKind>,
    /// How many recent signals are already queued for the symbol.
    pub recent_signal_count: usize,
    /// Market depth for the symbol, scaled; `0` when unknown.
    pub market_depth: u64,
    /// Broker commission for the symbol, scaled like the other ratios.
    pub commission_pct: u64,
    /// Observed market slippage for the symbol, whole basis points.
    pub recorded_slippage_bps: u64,
    /// Recent signal history for the symbol, for the duplicate check.
    pub signal_history: Vec<Signal>,
    /// Recorded daily loss fraction for the symbol, scaled; `None` when
    /// the read failed.
    pub daily_loss: Option<u64>,
}

impl StoreSnapshot {
    /// A snapshot with nothing known: no restrictions, no positions, no
    /// history, every numeric at its absent value.
    pub fn blank() -> (r: StoreSnapshot)
        ensures
            r.restricted_symbols matches Some(v) && v@.len() == 0,
            r.market_timestamp == 0,
            r.portfolio_exposure == Some(0u64),
            r.open_position_kinds@.len() == 0,
            r.recent_signal_count == 0,
            r.market_depth == 0,
            r.commission_pct == 0,
            r.recorded_slippage_bps == 0,
            r.signal_history@.len() == 0,
            r.daily_loss == Some(0u64),
    {
        StoreSnapshot {
            restricted_symbols: Some(Vec::new()),
            market_timestamp: 0,
            portfolio_exposure: Some(0),
            open_position_kinds: Vec::new(),
            recent_signal_count: 0,
            market_depth: 0,
            commission_pct: 0,
            recorded_slippage_bps: 0,
            signal_history: Vec::new(),
            daily_loss: Some(0),
        }
    }
}

/// Whether some element of `v` reads as `s`.
pub open spec fn contains_str(v: Seq<String>, s: Seq<char>) -> bool {
    exists|i: int| 0 <= i < v.len() && v[i]@ == s
}

/// An element-wise copy of a string vector, view-equal to its source.
pub fn clone_strings(v: &Vec<String>) -> (r: Vec<String>)
    ensures
        r@ == v@,
{
    let mut r: Vec<String> = Vec::new();
    let mut i: usize = 0;
    while i < v.len()
        invariant
            0 <= i <= v@.len(),
            r@ == v@.subrange(0, i as int),
        decreases v@.len() - i,
    {
        r.push(v[i].clone());
        proof {
            assert(r@ =~= v@.subrange(0, i as int + 1));
        }
        i = i + 1;
    }
    proof {
        assert(r@ =~= v@);
    }
    r
}

/// Linear scan deciding [`contains_str`].
pub fn contains_string(v: &Vec<String>, s: &String) -> (r: bool)
    ensures
        r == contains_str(v@, s@),
{
    let mut i: usize = 0;
    while i < v.len()
        invariant
            0 <= i <= v@.len(),
            forall|j: int| 0 <= j < i ==> v@[j]@ != s@,
        decreases v@.len() - i,
    {
        if v[i] == *s {
            return true;
        }
        i = i + 1;
    }
    false
}

} // verus!
