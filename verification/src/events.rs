//! The events the contract logs.
use vstd::prelude::*;
use crate::address::Address;
use crate::biguint::BigUint;
use crate::env::Event;
use crate::model::EventView;

verus! {

/// Builds the contract's log entries.
pub trait EventsModule {
    /// `pingEvent`, indexed by user and timestamp, carrying the amount.
    fn emit_ping_event(&self, user: &Address, timestamp: u64, amount: &BigUint) -> (e: Event)
        ensures
            e@ == (EventView::Ping { user: *user, timestamp, amount: amount@ }),
    ;

    /// `pongEvent`, indexed by user and timestamp, carrying the amount.
    fn emit_pong_event(&self, user: &Address, timestamp: u64, amount: &BigUint) -> (e: Event)
        ensures
            e@ == (EventView::Pong { user: *user, timestamp, amount: amount@ }),
    ;
}

} // verus!
