//! A ping-pong contract: users deposit EGLD once ("ping") before a deadline and
//! take it back ("pong") after it.
use vstd::prelude::*;
use crate::biguint::BigUint;
use crate::env::{result_view, Action, CallEnv};
use crate::error::PingPongError;
use crate::events::EventsModule;
use crate::model::{init_outcome, ping_outcome, pong_outcome, realizes, realizes_update};
use crate::owner::OwnerModule;
use crate::storage::StorageModule;

pub mod address;
pub mod biguint;
pub mod contract;
pub mod env;
pub mod error;
pub mod events;
pub mod laws;
pub mod model;
pub mod owner;
pub mod state;
pub mod storage;

verus! {

/// The ping-pong contract's entry points. Every call either fails, changing
/// nothing, or succeeds and leaves the storage and effects that the model states.
pub trait PingPong: OwnerModule + StorageModule + EventsModule {
    /// Deployment: writes the five settings and keeps the rest of the storage.
    fn init(
        &mut self,
        env: &CallEnv,
        max_ping_amount: BigUint,
        deadline: u64,
        activation_timestamp: u64,
        max_funds: BigUint,
        is_open: bool,
    ) -> (r: Result<(), PingPongError>)
        requires
            old(self).wf(),
        ensures
            realizes_update(
                old(self).storage(),
                final(self).storage(),
                r,
                init_outcome(
                    old(self).storage(),
                    env@,
                    max_ping_amount@,
                    deadline,
                    activation_timestamp,
                    max_funds@,
                    is_open,
                ),
            ),
            final(self).wf(),
            final(self).storage().wf(),
    ;

    /// Upgrade: the same as `init`, on the storage the contract already has.
    fn upgrade(
        &mut self,
        env: &CallEnv,
        max_ping_amount: BigUint,
        deadline: u64,
        activation_timestamp: u64,
        max_funds: BigUint,
        is_open: bool,
    ) -> (r: Result<(), PingPongError>)
        requires
            old(self).wf(),
        ensures
            realizes_update(
                old(self).storage(),
                final(self).storage(),
                r,
                init_outcome(
                    old(self).storage(),
                    env@,
                    max_ping_amount@,
                    deadline,
                    activation_timestamp,
                    max_funds@,
                    is_open,
                ),
            ),
            final(self).wf(),
            final(self).storage().wf(),
    ;

    /// Deposits the EGLD sent along with the call.
    fn ping(&mut self, env: &CallEnv) -> (r: Result<Vec<Action>, PingPongError>)
        requires
            old(self).wf(),
        ensures
            realizes(
                old(self).storage(),
                final(self).storage(),
                result_view(r),
                ping_outcome(old(self).storage(), env@),
            ),
            final(self).wf(),
            final(self).storage().wf(),
    ;

    /// Pays the caller's deposit back.
    fn pong(&mut self, env: &CallEnv) -> (r: Result<Vec<Action>, PingPongError>)
        requires
            old(self).wf(),
        ensures
            realizes(
                old(self).storage(),
                final(self).storage(),
                result_view(r),
                pong_outcome(old(self).storage(), env@),
            ),
            final(self).wf(),
            final(self).storage().wf(),
    ;
}

} // verus!
