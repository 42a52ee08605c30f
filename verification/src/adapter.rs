//! Settlement policy for the two market-data fetch operations: which raw
//! outcomes are delivered as messages, which are dropped silently, and when
//! the fixed rate fallback is substituted.

use vstd::prelude::*;

use crate::params::MarketUpdate;

verus! {

/// The life of one fetch operation: entered `Fetching` when a refresh is
/// requested, it either delivers messages into the inbox or is dropped
/// silently — no error surfaces, no retry is automatic.
#[derive(Clone, Copy, Debug, PartialEq, Eq, Structural)]
pub enum FetchState {
    Idle,
    Fetching,
    Delivered,
    Dropped,
}

/// Fallback nominal annual rate, in percent, as an IEEE 754 bit pattern
/// (the word that reads as ten and three quarters). Substituted when the
/// rate provider cannot be reached: a stale default is preferred to an
/// empty rate field.
pub const RATE_FALLBACK_BITS: u64 = 0x4025_8000_0000_0000;

/// What a risk-free-rate fetch came back with, before settlement.
pub enum RateFetchOutcome {
    /// The HTTP client could not even be built: nothing was asked of the
    /// provider.
    ClientUnavailable,
    /// The request itself failed: the provider could not be reached or
    /// answered with an error.
    TransportError,
    /// The provider answered: the closes of the returned quotes,
    /// chronological, each as an opaque 64-bit word.
    Quotes(Vec<u64>),
}

/// Settle a risk-free-rate fetch. A failed request is masked by the fixed
/// fallback rate; a successful answer delivers its most recent close. The
/// other two shapes are dropped without the fallback: a client that never
/// got to ask, and — deliberately asymmetric to the error path — a
/// successful answer that carried no quotes at all.
pub fn settle_rate_fetch(outcome: &RateFetchOutcome) -> (r: (FetchState, Vec<MarketUpdate>))
    ensures
        *outcome is ClientUnavailable ==> r.0 is Dropped && r.1@ == Seq::<
            MarketUpdate,
        >::empty(),
        *outcome is TransportError ==> r.0 is Delivered && r.1@ == seq![
            MarketUpdate::RiskFreeRate(RATE_FALLBACK_BITS),
        ],
        *outcome matches RateFetchOutcome::Quotes(q) ==> {
            &&& q@.len() == 0 ==> r.0 is Dropped && r.1@ == Seq::<MarketUpdate>::empty()
            &&& q@.len() > 0 ==> r.0 is Delivered && r.1@ == seq![
                MarketUpdate::RiskFreeRate(q@.last()),
            ]
        },
{
    match outcome {
        RateFetchOutcome::ClientUnavailable => {
            let msgs: Vec<MarketUpdate> = Vec::new();
            proof {
                assert(msgs@ =~= Seq::<MarketUpdate>::empty());
            }
            (FetchState::Dropped, msgs)
        }
        RateFetchOutcome::TransportError => {
            let mut msgs: Vec<MarketUpdate> = Vec::new();
            msgs.push(MarketUpdate::RiskFreeRate(RATE_FALLBACK_BITS));
            proof {
                assert(msgs@ =~= seq![MarketUpdate::RiskFreeRate(RATE_FALLBACK_BITS)]);
            }
            (FetchState::Delivered, msgs)
        }
        RateFetchOutcome::Quotes(q) => {
            if q.len() == 0 {
                let msgs: Vec<MarketUpdate> = Vec::new();
                proof {
                    assert(msgs@ =~= Seq::<MarketUpdate>::empty());
                }
                (FetchState::Dropped, msgs)
            } else {
                let w = q[q.len() - 1];
                let mut msgs: Vec<MarketUpdate> = Vec::new();
                msgs.push(MarketUpdate::RiskFreeRate(w));
                proof {
                    assert(msgs@ =~= seq![MarketUpdate::RiskFreeRate(q@.last())]);
                }
                (FetchState::Delivered, msgs)
            }
        }
    }
}

/// The 64-bit words whose IEEE 754 reading is a number greater than zero:
/// the positive finite values and positive infinity. Zeros, all negative
/// words and all NaN words fall outside the range.
pub open spec fn positive_bits(w: u64) -> bool {
    1 <= w <= 0x7FF0_0000_0000_0000
}

/// The indices into a close series whose consecutive pair yields a log
/// return: index i is kept exactly when the close before it reads as a
/// positive number.
pub open spec fn return_points(closes: Seq<u64>) -> Seq<usize>
    decreases closes.len(),
{
    if closes.len() <= 1 {
        Seq::empty()
    } else if positive_bits(closes[closes.len() - 2]) {
        return_points(closes.drop_last()).push((closes.len() - 1) as usize)
    } else {
        return_points(closes.drop_last())
    }
}

/// Screen a fetched close series for the volatility estimate: fewer than two
/// bars fail the whole fetch; otherwise the last close is the current price
/// and the returned indices are exactly the pairs a log return is taken
/// over, in chronological order.
pub fn screen_price_history(closes: &Vec<u64>) -> (r: Option<(u64, Vec<usize>)>)
    ensures
        closes@.len() < 2 ==> r is None,
        closes@.len() >= 2 ==> (r matches Some((last, pts))
            && last == closes@.last()
            && pts@ == return_points(closes@)),
{
    let n = closes.len();
    if n < 2 {
        return None;
    }
    let mut pts: Vec<usize> = Vec::new();
    let mut i: usize = 1;
    while i < n
        invariant
            1 <= i <= n,
            n == closes@.len(),
            pts@ == return_points(closes@.take(i as int)),
        decreases n - i,
    {
        proof {
            assert(closes@.take(i + 1).drop_last() =~= closes@.take(i as int));
            assert(closes@.take(i + 1)[i - 1] == closes@[i - 1]);
        }
        let prev = closes[i - 1];
        if 1 <= prev && prev <= 0x7FF0_0000_0000_0000 {
            pts.push(i);
        }
        i = i + 1;
    }
    proof {
        assert(closes@.take(n as int) =~= closes@);
    }
    Some((closes[n - 1], pts))
}

/// Settle a combined price-and-volatility fetch. An upstream error or a
/// screened-out series delivers nothing and is dropped; computed data is
/// delivered as two messages with the price strictly before the volatility.
pub fn settle_market_fetch(outcome: Option<(u64, u64)>) -> (r: (FetchState, Vec<MarketUpdate>))
    ensures
        outcome is None ==> r.0 is Dropped && r.1@ == Seq::<MarketUpdate>::empty(),
        outcome matches Some((p, v)) ==> r.0 is Delivered && r.1@ == seq![
            MarketUpdate::Price(p),
            MarketUpdate::Volatility(v),
        ],
{
    match outcome {
        None => {
            let msgs: Vec<MarketUpdate> = Vec::new();
            proof {
                assert(msgs@ =~= Seq::<MarketUpdate>::empty());
            }
            (FetchState::Dropped, msgs)
        }
        Some((p, v)) => {
            let mut msgs: Vec<MarketUpdate> = Vec::new();
            msgs.push(MarketUpdate::Price(p));
            msgs.push(MarketUpdate::Volatility(v));
            proof {
                assert(msgs@ =~= seq![MarketUpdate::Price(p), MarketUpdate::Volatility(v)]);
            }
            (FetchState::Delivered, msgs)
        }
    }
}

} // verus!
