//! The orchestrator of the recomputation loop: it owns the authoritative
//! parameter set and turns refresh requests and drained inboxes into
//! settled parameters, one recomputation per pass.

use vstd::prelude::*;

use crate::params::applied_all;
use crate::params::MarketUpdate;
use crate::params::PricingInputs;
use crate::ticker::normalize_ticker;
use crate::ticker::normalized;

verus! {

/// What the loop asks its surroundings to carry out concurrently. The loop
/// itself never blocks: it only emits these requests, and their results come
/// back later as inbox messages, if they come back at all.
#[derive(Debug)]
pub enum FetchAction {
    /// Fetch the risk-free-rate proxy's latest quote.
    FetchRiskFreeRate,
    /// Fetch the price history of the carried, already normalized symbol.
    FetchMarketData(String),
}

/// The single owner of the authoritative parameter set. Nothing else writes
/// the parameters: fetches only post messages, and the presentation layer
/// edits fields between passes.
pub struct Pipeline {
    pub inputs: PricingInputs,
}

impl Pipeline {
    /// A new pipeline starts from the given parameters and unconditionally
    /// issues the startup risk-free-rate fetch, so that the rate field is
    /// populated without a manual refresh.
    pub fn new(initial: PricingInputs) -> (r: (Pipeline, FetchAction))
        ensures
            r.0.inputs == initial,
            r.1 is FetchRiskFreeRate,
    {
        (Pipeline { inputs: initial }, FetchAction::FetchRiskFreeRate)
    }

    /// A manual refresh request: fire and forget. The returned action carries
    /// the normalized symbol; any results surface later through the inbox.
    pub fn request_refresh(&self, symbol: &str) -> (r: FetchAction)
        ensures
            r matches FetchAction::FetchMarketData(s) && s@ == normalized(symbol@),
    {
        FetchAction::FetchMarketData(normalize_ticker(symbol))
    }

    /// One loop iteration: drain the whole inbox that was queued at this
    /// instant, in delivery order, then hand back the settled parameter set
    /// for exactly one recomputation, however many messages were drained.
    pub fn tick(&mut self, inbox: &Vec<MarketUpdate>) -> (r: PricingInputs)
        ensures
            final(self).inputs == applied_all(old(self).inputs, inbox@),
            r == final(self).inputs,
    {
        self.inputs.apply_all(inbox);
        self.inputs
    }
}

} // verus!
