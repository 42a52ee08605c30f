//! The authoritative parameter set and the messages that update it.

use vstd::prelude::*;

verus! {

/// The five pricing parameters exactly as the presentation layer edits them:
/// spot, strike, time to expiry in trading days, nominal annual rate in
/// percent, annualized volatility in percent. Each field holds the IEEE 754
/// bit pattern of the 64-bit value as an opaque word; conversion to the
/// model's units (years, continuous rate, volatility fraction) is numeric
/// work and happens outside the verified core.
#[derive(Clone, Copy, Debug, PartialEq, Eq, Structural)]
pub struct PricingInputs {
    pub spot: u64,
    pub strike: u64,
    pub time_days: u64,
    pub rate_percent: u64,
    pub vol_percent: u64,
}

/// A tagged market value, produced by one fetch operation, delivered through
/// the inbox and consumed exactly once by a drain pass. The payload is an
/// opaque 64-bit word (an IEEE 754 bit pattern).
#[derive(Clone, Copy, Debug, PartialEq, Eq, Structural)]
pub enum MarketUpdate {
    Price(u64),
    Volatility(u64),
    RiskFreeRate(u64),
}

/// The parameter set after one message is applied: the targeted field takes
/// the message's payload unconditionally, every other field keeps its value.
pub open spec fn applied(p: PricingInputs, u: MarketUpdate) -> PricingInputs {
    match u {
        MarketUpdate::Price(w) => PricingInputs { spot: w, ..p },
        MarketUpdate::Volatility(w) => PricingInputs { vol_percent: w, ..p },
        MarketUpdate::RiskFreeRate(w) => PricingInputs { rate_percent: w, ..p },
    }
}

/// The parameter set after a whole inbox is applied, first message first.
pub open spec fn applied_all(p: PricingInputs, us: Seq<MarketUpdate>) -> PricingInputs
    decreases us.len(),
{
    if us.len() == 0 {
        p
    } else {
        applied(applied_all(p, us.drop_last()), us.last())
    }
}

impl PricingInputs {
    /// Apply one drained message: an unconditional assignment to the field
    /// the message targets.
    pub fn apply(&mut self, u: MarketUpdate)
        ensures
            *final(self) == applied(*old(self), u),
    {
        match u {
            MarketUpdate::Price(w) => {
                self.spot = w;
            }
            MarketUpdate::Volatility(w) => {
                self.vol_percent = w;
            }
            MarketUpdate::RiskFreeRate(w) => {
                self.rate_percent = w;
            }
        }
    }

    /// Apply a whole drained inbox in delivery order.
    pub fn apply_all(&mut self, inbox: &Vec<MarketUpdate>)
        ensures
            *final(self) == applied_all(*old(self), inbox@),
    {
        let n = inbox.len();
        let mut i: usize = 0;
        while i < n
            invariant
                i <= n,
                n == inbox@.len(),
                *self == applied_all(*old(self), inbox@.take(i as int)),
            decreases n - i,
        {
            proof {
                assert(inbox@.take(i + 1).drop_last() =~= inbox@.take(i as int));
                assert(inbox@.take(i + 1).last() == inbox@[i as int]);
            }
            self.apply(inbox[i]);
            i = i + 1;
        }
        proof {
            assert(inbox@.take(n as int) =~= inbox@);
        }
    }
}

/// The payload of the last price message in an inbox, if any arrived.
pub open spec fn last_price(us: Seq<MarketUpdate>) -> Option<u64>
    decreases us.len(),
{
    if us.len() == 0 {
        None
    } else if us.last() is Price {
        Some(us.last()->Price_0)
    } else {
        last_price(us.drop_last())
    }
}

/// The payload of the last volatility message in an inbox, if any arrived.
pub open spec fn last_volatility(us: Seq<MarketUpdate>) -> Option<u64>
    decreases us.len(),
{
    if us.len() == 0 {
        None
    } else if us.last() is Volatility {
        Some(us.last()->Volatility_0)
    } else {
        last_volatility(us.drop_last())
    }
}

/// The payload of the last risk-free-rate message in an inbox, if any arrived.
pub open spec fn last_rate(us: Seq<MarketUpdate>) -> Option<u64>
    decreases us.len(),
{
    if us.len() == 0 {
        None
    } else if us.last() is RiskFreeRate {
        Some(us.last()->RiskFreeRate_0)
    } else {
        last_rate(us.drop_last())
    }
}

/// Draining is last-write-wins on the spot field: after a pass the spot is
/// the payload of the last price message, or unchanged when none arrived.
pub proof fn lemma_drain_spot(p: PricingInputs, us: Seq<MarketUpdate>)
    ensures
        applied_all(p, us).spot == match last_price(us) {
            Some(w) => w,
            None => p.spot,
        },
    decreases us.len(),
{
    if us.len() > 0 {
        lemma_drain_spot(p, us.drop_last());
    }
}

/// Draining is last-write-wins on the volatility field.
pub proof fn lemma_drain_volatility(p: PricingInputs, us: Seq<MarketUpdate>)
    ensures
        applied_all(p, us).vol_percent == match last_volatility(us) {
            Some(w) => w,
            None => p.vol_percent,
        },
    decreases us.len(),
{
    if us.len() > 0 {
        lemma_drain_volatility(p, us.drop_last());
    }
}

/// Draining is last-write-wins on the rate field.
pub proof fn lemma_drain_rate(p: PricingInputs, us: Seq<MarketUpdate>)
    ensures
        applied_all(p, us).rate_percent == match last_rate(us) {
            Some(w) => w,
            None => p.rate_percent,
        },
    decreases us.len(),
{
    if us.len() > 0 {
        lemma_drain_rate(p, us.drop_last());
    }
}

/// No message kind targets the strike or the day count: a drain pass never
/// changes them, however many messages it applies.
pub proof fn lemma_drain_fixed_fields(p: PricingInputs, us: Seq<MarketUpdate>)
    ensures
        applied_all(p, us).strike == p.strike,
        applied_all(p, us).time_days == p.time_days,
    decreases us.len(),
{
    if us.len() > 0 {
        lemma_drain_fixed_fields(p, us.drop_last());
    }
}

/// A combined market delivery — a price message followed by a volatility
/// message — drained in one pass settles both fields at once and touches
/// nothing else.
pub proof fn lemma_market_delivery_settles_both(p: PricingInputs, price: u64, vol: u64)
    ensures
        applied_all(p, seq![MarketUpdate::Price(price), MarketUpdate::Volatility(vol)])
            == (PricingInputs { spot: price, vol_percent: vol, ..p }),
{
    reveal_with_fuel(applied_all, 3);
    let us = seq![MarketUpdate::Price(price), MarketUpdate::Volatility(vol)];
    assert(us.drop_last() =~= seq![MarketUpdate::Price(price)]);
    assert(us.drop_last().drop_last() =~= Seq::<MarketUpdate>::empty());
}

/// Draining distributes over concatenation: a message deferred to a later
/// pass lands on exactly the state the earlier pass produced, so splitting
/// one inbox across two passes settles the same parameters.
pub proof fn lemma_drain_split(p: PricingInputs, a: Seq<MarketUpdate>, b: Seq<MarketUpdate>)
    ensures
        applied_all(p, a + b) == applied_all(applied_all(p, a), b),
    decreases b.len(),
{
    if b.len() == 0 {
        assert(a + b =~= a);
    } else {
        lemma_drain_split(p, a, b.drop_last());
        assert((a + b).drop_last() =~= a + b.drop_last());
    }
}

} // verus!
