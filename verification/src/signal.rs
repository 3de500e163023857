//! The unit that flows through both pipelines.
//!
//! A signal is immutable once created: every stage reads it and either
//! forwards it unchanged or discards it with a reason. Required
//! attributes are the symbol, the kind, the size and the timestamp;
//! the remaining attributes are consumed only by specific validators and
//! may be absent.

use vstd::prelude::*;

verus! {

/// Direction of a proposed trade.
#[derive(Clone, Copy, Debug, PartialEq, Eq, Structural)]
pub enum SignalKind {
    Buy,
    Sell,
}

/// A proposed trade instruction.
///
/// Prices and the size are fixed-point quantities scaled by
/// [`crate::units::SCALE`]; the leverage is a plain multiplier; the
/// timestamp is epoch seconds.
pub struct Signal {
    pub symbol: String,
    pub kind: SignalKind,
    pub size: u64,
    pub timestamp: i64,
    pub entry_price: Option<u64>,
    pub exit_price: Option<u64>,
    pub stop_loss: Option<u64>,
    pub take_profit: Option<u64>,
    pub expected_price: Option<u64>,
    pub leverage: Option<u64>,
    pub region: Option<String>,
}

/// Mathematical image of a [`Signal`].
pub struct SignalView {
    pub symbol: Seq<char>,
    pub kind: SignalKind,
    pub size: int,
    pub timestamp: int,
    pub entry_price: Option<int>,
    pub exit_price: Option<int>,
    pub stop_loss: Option<int>,
    pub take_profit: Option<int>,
    pub expected_price: Option<int>,
    pub leverage: Option<int>,
    pub region: Option<Seq<char>>,
}

pub open spec fn opt_int(o: Option<u64>) -> Option<int> {
    match o {
        Some(v) => Some(v as int),
        None => None,
    }
}

pub open spec fn opt_chars(o: &Option<String>) -> Option<Seq<char>> {
    match o {
        Some(s) => Some(s@),
        None => None,
    }
}

impl View for Signal {
    type V = SignalView;

    open spec fn view(&self) -> SignalView {
        SignalView {
            symbol: self.symbol@,
            kind: self.kind,
            size: self.size as int,
            timestamp: self.timestamp as int,
            entry_price: opt_int(self.entry_price),
            exit_price: opt_int(self.exit_price),
            stop_loss: opt_int(self.stop_loss),
            take_profit: opt_int(self.take_profit),
            expected_price: opt_int(self.expected_price),
            leverage: opt_int(self.leverage),
            region: opt_chars(&self.region),
        }
    }
}

fn opt_u64_eq(a: &Option<u64>, b: &Option<u64>) -> (r: bool)
    ensures
        r == (opt_int(*a) == opt_int(*b)),
{
    match (a, b) {
        (Some(x), Some(y)) => *x == *y,
        (None, None) => true,
        _ => false,
    }
}

impl Signal {
    /// Structural equality, used by the duplicate-signal check.
    pub fn same_as(&self, other: &Signal) -> (r: bool)
        ensures
            r == (self@ == other@),
    {
        let regions_equal: bool = match (&self.region, &other.region) {
            (Some(a), Some(b)) => *a == *b,
            (None, None) => true,
            _ => false,
        };
        let r = self.symbol == other.symbol && self.kind == other.kind && self.size == other.size
            && self.timestamp == other.timestamp && opt_u64_eq(&self.entry_price, &other.entry_price)
            && opt_u64_eq(&self.exit_price, &other.exit_price) && opt_u64_eq(
            &self.stop_loss,
            &other.stop_loss,
        ) && opt_u64_eq(&self.take_profit, &other.take_profit) && opt_u64_eq(
            &self.expected_price,
            &other.expected_price,
        ) && opt_u64_eq(&self.leverage, &other.leverage) && regions_equal;
        proof {
            if r {
                assert(self@ == other@);
            } else {
                assert(self@ != other@);
            }
        }
        r
    }
}

impl Clone for Signal {
    fn clone(&self) -> (res: Signal)
        ensures
            res == *self,
    {
        Signal {
            symbol: self.symbol.clone(),
            kind: self.kind,
            size: self.size,
            timestamp: self.timestamp,
            entry_price: self.entry_price,
            exit_price: self.exit_price,
            stop_loss: self.stop_loss,
            take_profit: self.take_profit,
            expected_price: self.expected_price,
            leverage: self.leverage,
            region: match &self.region {
                Some(s) => Some(s.clone()),
                None => None,
            },
        }
    }
}

} // verus!
