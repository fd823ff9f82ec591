//! What the chain hands the contract for a call, and what the contract hands back.
use vstd::prelude::*;
use crate::address::Address;
use crate::biguint::BigUint;
use crate::error::PingPongError;
use crate::model::{ActionView, CallEnvView, EventView};

verus! {

/// What the blockchain tells the contract about the call being executed.
pub struct CallEnv {
    /// The account that sent the transaction.
    pub caller: Address,
    /// The contract's owner.
    pub owner: Address,
    /// The timestamp of the block the call runs in.
    pub block_timestamp: u64,
    /// EGLD sent along with the call.
    pub egld_value: BigUint,
    /// Number of ESDT token transfers sent along with the call.
    pub esdt_transfer_count: usize,
    /// The contract's EGLD balance as the chain reports it during the call.
    pub sc_balance: BigUint,
}

impl View for CallEnv {
    type V = CallEnvView;

    open spec fn view(&self) -> CallEnvView {
        CallEnvView {
            caller: self.caller,
            owner: self.owner,
            block_timestamp: self.block_timestamp,
            egld_value: self.egld_value@,
            esdt_transfer_count: self.esdt_transfer_count as nat,
            sc_balance: self.sc_balance@,
        }
    }
}

/// An event that the contract logs.
pub enum Event {
    /// `pingEvent`: `user` deposited `amount` at `timestamp`.
    Ping { user: Address, timestamp: u64, amount: BigUint },
    /// `pongEvent`: `user` was paid back `amount` at `timestamp`.
    Pong { user: Address, timestamp: u64, amount: BigUint },
}

impl View for Event {
    type V = EventView;

    open spec fn view(&self) -> EventView {
        match self {
            Event::Ping { user, timestamp, amount } => EventView::Ping {
                user: *user,
                timestamp: *timestamp,
                amount: amount@,
            },
            Event::Pong { user, timestamp, amount } => EventView::Pong {
                user: *user,
                timestamp: *timestamp,
                amount: amount@,
            },
        }
    }
}

/// A side effect that a successful call asks the chain to perform.
pub enum Action {
    /// Log the event.
    Emit(Event),
    /// Send `amount` EGLD from the contract to `to`.
    TransferEgld { to: Address, amount: BigUint },
}

impl View for Action {
    type V = ActionView;

    open spec fn view(&self) -> ActionView {
        match self {
            Action::Emit(e) => ActionView::Emit(e@),
            Action::TransferEgld { to, amount } => ActionView::TransferEgld { to: *to, amount: amount@ },
        }
    }
}

/// The mathematical form of an endpoint's answer.
pub open spec fn result_view(r: Result<Vec<Action>, PingPongError>) -> Result<
    Seq<ActionView>,
    PingPongError,
> {
    match r {
        Ok(v) => Ok(v@.map_values(|a: Action| a@)),
        Err(e) => Err(e),
    }
}

} // verus!
