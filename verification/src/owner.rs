//! The endpoints reserved to the contract's owner.
use vstd::prelude::*;
use crate::biguint::BigUint;
use crate::env::CallEnv;
use crate::error::PingPongError;
use crate::model::{
    close_contract_outcome, open_contract_outcome, realizes_update, set_deadline_outcome,
    set_max_funds_outcome, set_max_ping_amount_outcome,
};
use crate::storage::StorageModule;

verus! {

/// Owner-only settings. Each accepts no payment, refuses any caller but the
/// owner, and on failure leaves the storage unchanged.
pub trait OwnerModule: StorageModule {
    /// Opens the contract for ping and pong.
    fn open_contract(&mut self, env: &CallEnv) -> (r: Result<(), PingPongError>)
        requires
            old(self).wf(),
        ensures
            realizes_update(
                old(self).storage(),
                final(self).storage(),
                r,
                open_contract_outcome(old(self).storage(), env@),
            ),
            final(self).wf(),
            final(self).storage().wf(),
    ;

    /// Closes the contract: ping and pong answer "maintenance".
    fn close_contract(&mut self, env: &CallEnv) -> (r: Result<(), PingPongError>)
        requires
            old(self).wf(),
        ensures
            realizes_update(
                old(self).storage(),
                final(self).storage(),
                r,
                close_contract_outcome(old(self).storage(), env@),
            ),
            final(self).wf(),
            final(self).storage().wf(),
    ;

    /// Sets the ping window; the activation timestamp must come before the deadline.
    fn set_deadline_and_activation_timestamp(
        &mut self,
        env: &CallEnv,
        deadline: u64,
        activation_timestamp: u64,
    ) -> (r: Result<(), PingPongError>)
        requires
            old(self).wf(),
        ensures
            realizes_update(
                old(self).storage(),
                final(self).storage(),
                r,
                set_deadline_outcome(old(self).storage(), env@, deadline, activation_timestamp),
            ),
            final(self).wf(),
            final(self).storage().wf(),
    ;

    /// Sets the largest deposit a ping may carry.
    fn set_max_ping_amount(&mut self, env: &CallEnv, max_ping_amount: BigUint) -> (r: Result<
        (),
        PingPongError,
    >)
        requires
            old(self).wf(),
        ensures
            realizes_update(
                old(self).storage(),
                final(self).storage(),
                r,
                set_max_ping_amount_outcome(old(self).storage(), env@, max_ping_amount@),
            ),
            final(self).wf(),
            final(self).storage().wf(),
    ;

    /// Sets the balance the contract may reach through pings.
    fn set_max_funds(&mut self, env: &CallEnv, max_funds: BigUint) -> (r: Result<(), PingPongError>)
        requires
            old(self).wf(),
        ensures
            realizes_update(
                old(self).storage(),
                final(self).storage(),
                r,
                set_max_funds_outcome(old(self).storage(), env@, max_funds@),
            ),
            final(self).wf(),
            final(self).storage().wf(),
    ;
}

} // verus!
