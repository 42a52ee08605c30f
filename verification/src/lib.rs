//! Core of a reactive Black-Scholes option terminal: the parameter state that
//! a recomputation loop keeps, the tagged market-update messages that
//! asynchronous fetches post into it, the drain discipline (all queued
//! messages, in delivery order, last write wins, one recomputation per pass),
//! and the settlement policy for each kind of fetch (insufficient price
//! history is dropped silently; a failed risk-free-rate fetch falls back to a
//! fixed default).
//!
//! Verus does not model IEEE 754 arithmetic, so every market value is carried
//! through this crate as an opaque 64-bit word: the value's bit pattern. The
//! verified code routes, stores and orders these words but never does numeric
//! work on them; evaluating the pricing formulas on the settled parameters is
//! the caller's side of the boundary.

pub mod adapter;
pub mod params;
pub mod pipeline;
pub mod ticker;
