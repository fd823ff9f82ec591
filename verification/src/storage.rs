//! The contract's storage and its read-only views.
use vstd::prelude::*;
use crate::address::Address;
use crate::biguint::BigUint;
use crate::model::ContractStorage;

verus! {

/// The storage entries of the contract, each readable through a view endpoint.
pub trait StorageModule {
    /// The storage, as mathematical values.
    spec fn storage(&self) -> ContractStorage;

    /// The well-formedness of the stored data. Deployment establishes it and
    /// every endpoint keeps it; it implies the storage invariant `storage().wf()`.
    spec fn wf(&self) -> bool;

    /// `isOpen`.
    fn is_open(&self) -> (r: bool)
        ensures
            r == self.storage().is_open,
    ;

    /// `getMaxPingAmount`.
    fn max_ping_amount(&self) -> (r: BigUint)
        ensures
            r@ == self.storage().max_ping_amount,
    ;

    /// `getPingAmount`: the amount recorded for `user`, zero if none was.
    fn ping_amount(&self, user: &Address) -> (r: BigUint)
        requires
            self.wf(),
        ensures
            r@ == self.storage().ping_amount_of(*user),
    ;

    /// `getDeadline`.
    fn deadline(&self) -> (r: u64)
        ensures
            r == self.storage().deadline,
    ;

    /// `getActivationTimestamp`.
    fn activation_timestamp(&self) -> (r: u64)
        ensures
            r == self.storage().activation_timestamp,
    ;

    /// `getMaxFunds`.
    fn max_funds(&self) -> (r: BigUint)
        ensures
            r@ == self.storage().max_funds,
    ;

    /// `getAllUsers`: the users that pinged and have not ponged, in storage
    /// order. The storage invariant holds of every reachable storage.
    fn all_users(&self) -> (r: Vec<Address>)
        requires
            self.wf(),
        ensures
            r@ == self.storage().all_users,
            self.storage().wf(),
    ;
}

} // verus!
