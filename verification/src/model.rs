//! The contract as a state machine over mathematical values: its storage, the
//! call environment, what each endpoint answers, and what it leaves behind.
use vstd::prelude::*;
use crate::address::Address;
use crate::error::PingPongError;

verus! {

/// The contract's storage.
pub struct ContractStorage {
    /// `isOpen`: whether ping and pong are accepted.
    pub is_open: bool,
    /// `maxPingAmount`: the largest deposit a single ping may carry.
    pub max_ping_amount: nat,
    /// `deadline`: last timestamp at which a ping is accepted.
    pub deadline: u64,
    /// `activationTimestamp`: first timestamp at which a ping is accepted.
    pub activation_timestamp: u64,
    /// `maxFunds`: the balance the contract may reach through pings.
    pub max_funds: nat,
    /// `pingAmount`: the amount recorded for each user that ever pinged.
    pub ping_amounts: Map<Address, nat>,
    /// `allUsers`: the users that pinged and have not ponged, in storage order.
    pub all_users: Seq<Address>,
}

impl ContractStorage {
    /// The storage of a freshly deployed account: every entry empty.
    pub open spec fn empty() -> ContractStorage {
        ContractStorage {
            is_open: false,
            max_ping_amount: 0,
            deadline: 0,
            activation_timestamp: 0,
            max_funds: 0,
            ping_amounts: Map::empty(),
            all_users: Seq::empty(),
        }
    }

    /// What the `pingAmount` view answers for `user`: an unset entry reads as zero.
    pub open spec fn ping_amount_of(self, user: Address) -> nat {
        if self.ping_amounts.contains_key(user) {
            self.ping_amounts[user]
        } else {
            0
        }
    }

    /// The storage invariant: no user is listed twice, and every listed user has
    /// a recorded ping amount.
    pub open spec fn wf(self) -> bool {
        &&& self.all_users.no_duplicates()
        &&& forall|u: Address| #[trigger]
            self.all_users.contains(u) ==> self.ping_amounts.contains_key(u)
    }

    /// The same storage with the five settings that `init` writes replaced.
    pub open spec fn with_settings(
        self,
        max_ping_amount: nat,
        deadline: u64,
        activation_timestamp: u64,
        max_funds: nat,
        is_open: bool,
    ) -> ContractStorage {
        ContractStorage {
            is_open,
            max_ping_amount,
            deadline,
            activation_timestamp,
            max_funds,
            ..self
        }
    }
}

/// What the blockchain tells the contract about the call being executed.
pub struct CallEnvView {
    pub caller: Address,
    pub owner: Address,
    pub block_timestamp: u64,
    /// EGLD sent along with the call.
    pub egld_value: nat,
    /// Number of ESDT token transfers sent along with the call.
    pub esdt_transfer_count: nat,
    /// The contract's EGLD balance as the chain reports it during the call.
    pub sc_balance: nat,
}

/// An event that the contract logs.
pub enum EventView {
    Ping { user: Address, timestamp: u64, amount: nat },
    Pong { user: Address, timestamp: u64, amount: nat },
}

/// A side effect that a successful call asks the chain to perform.
pub enum ActionView {
    Emit(EventView),
    TransferEgld { to: Address, amount: nat },
}

/// What an endpoint with side effects gives: the new storage and the effects,
/// in order; or the error that reverts the call.
pub type Outcome = Result<(ContractStorage, Seq<ActionView>), PingPongError>;

/// The payment check of an endpoint that accepts no payment.
pub open spec fn not_payable_error(env: CallEnvView) -> Option<PingPongError> {
    if env.egld_value > 0 {
        Some(PingPongError::EgldPaymentNotAccepted)
    } else if env.esdt_transfer_count > 0 {
        Some(PingPongError::EsdtPaymentNotAccepted)
    } else {
        None
    }
}

/// The checks of an endpoint that only the owner may call and that accepts no payment.
pub open spec fn owner_call_error(env: CallEnvView) -> Option<PingPongError> {
    if not_payable_error(env) is Some {
        not_payable_error(env)
    } else if env.caller != env.owner {
        Some(PingPongError::NotOwner)
    } else {
        None
    }
}

/// The first check that a ping fails, if any.
pub open spec fn ping_error(s: ContractStorage, env: CallEnvView) -> Option<PingPongError> {
    if env.esdt_transfer_count > 0 {
        Some(PingPongError::EsdtPaymentRejected)
    } else if !s.is_open {
        Some(PingPongError::Maintenance)
    } else if env.egld_value > s.max_ping_amount {
        Some(PingPongError::PingAmountTooHigh)
    } else if env.sc_balance + env.egld_value > s.max_funds {
        Some(PingPongError::ContractFull)
    } else if env.block_timestamp < s.activation_timestamp {
        Some(PingPongError::NotActiveYet)
    } else if env.block_timestamp > s.deadline {
        Some(PingPongError::DeadlinePassed)
    } else if s.all_users.contains(env.caller) {
        Some(PingPongError::AlreadyPinged)
    } else {
        None
    }
}

/// The outcome of `ping`: on success the caller's deposit is recorded, the caller
/// joins the end of the user list, and a ping event is logged.
pub open spec fn ping_outcome(s: ContractStorage, env: CallEnvView) -> Outcome {
    match ping_error(s, env) {
        Some(e) => Err(e),
        None => Ok(
            (
                ContractStorage {
                    ping_amounts: s.ping_amounts.insert(env.caller, env.egld_value),
                    all_users: s.all_users.push(env.caller),
                    ..s
                },
                seq![
                    ActionView::Emit(
                        EventView::Ping {
                            user: env.caller,
                            timestamp: env.block_timestamp,
                            amount: env.egld_value,
                        },
                    ),
                ],
            ),
        ),
    }
}

/// The first check that a pong fails, if any.
pub open spec fn pong_error(s: ContractStorage, env: CallEnvView) -> Option<PingPongError> {
    if not_payable_error(env) is Some {
        not_payable_error(env)
    } else if !s.is_open {
        Some(PingPongError::Maintenance)
    } else if env.block_timestamp <= s.deadline {
        Some(PingPongError::DeadlineNotPassed)
    } else if !s.all_users.contains(env.caller) {
        Some(PingPongError::NotPinged)
    } else {
        None
    }
}

/// `users` with the element at `i` removed: the last element takes its place.
pub open spec fn swap_removed(users: Seq<Address>, i: int) -> Seq<Address> {
    users.update(i, users.last()).drop_last()
}

/// Removing the element at `i` by moving the last element into its place keeps
/// the elements distinct and drops exactly the removed one.
pub proof fn lemma_swap_removed(s: Seq<Address>, i: int)
    requires
        s.no_duplicates(),
        0 <= i < s.len(),
    ensures
        swap_removed(s, i).no_duplicates(),
        forall|u: Address| #[trigger]
            swap_removed(s, i).contains(u) == (s.contains(u) && u != s[i]),
{
    let r = swap_removed(s, i);
    let n = s.len() - 1;
    assert(r.len() == n);
    assert forall|a: int| 0 <= a < n implies #[trigger] r[a] == (if a == i {
        s[n]
    } else {
        s[a]
    }) by {}
    assert forall|a: int, b: int| 0 <= a < n && 0 <= b < n && a != b implies r[a] != r[b] by {
        if a == i {
            assert(s[n] != s[b]);
        } else if b == i {
            assert(s[a] != s[n]);
        } else {
            assert(s[a] != s[b]);
        }
    }
    assert forall|u: Address| #[trigger] r.contains(u) == (s.contains(u) && u != s[i]) by {
        if r.contains(u) {
            let a = choose|a: int| 0 <= a < r.len() && r[a] == u;
            if a == i {
                assert(s[n] == u);
                assert(n != i);
            } else {
                assert(s[a] == u);
            }
        }
        if s.contains(u) && u != s[i] {
            let a = choose|a: int| 0 <= a < s.len() && s[a] == u;
            if a == n {
                assert(r[i] == u);
            } else {
                assert(r[a] == u);
            }
        }
    }
}

/// The outcome of `pong`: on success the caller leaves the user list, the
/// recorded amount is sent back to the caller, and a pong event is logged.
/// The recorded amount itself stays in storage.
pub open spec fn pong_outcome(s: ContractStorage, env: CallEnvView) -> Outcome {
    match pong_error(s, env) {
        Some(e) => Err(e),
        None => {
            let amount = s.ping_amount_of(env.caller);
            Ok(
                (
                    ContractStorage {
                        all_users: swap_removed(s.all_users, s.all_users.index_of(env.caller)),
                        ..s
                    },
                    seq![
                        ActionView::TransferEgld { to: env.caller, amount },
                        ActionView::Emit(
                            EventView::Pong {
                                user: env.caller,
                                timestamp: env.block_timestamp,
                                amount,
                            },
                        ),
                    ],
                ),
            )
        },
    }
}

/// The outcome of `init` (and of `upgrade`): the five settings are written, the
/// rest of the storage is kept.
pub open spec fn init_outcome(
    s: ContractStorage,
    env: CallEnvView,
    max_ping_amount: nat,
    deadline: u64,
    activation_timestamp: u64,
    max_funds: nat,
    is_open: bool,
) -> Result<ContractStorage, PingPongError> {
    match not_payable_error(env) {
        Some(e) => Err(e),
        None => Ok(s.with_settings(max_ping_amount, deadline, activation_timestamp, max_funds, is_open)),
    }
}

/// The outcome of an owner-only setter whose success leaves `next`.
pub open spec fn owner_update_outcome(env: CallEnvView, next: ContractStorage) -> Result<
    ContractStorage,
    PingPongError,
> {
    match owner_call_error(env) {
        Some(e) => Err(e),
        None => Ok(next),
    }
}

/// The outcome of `open_contract`.
pub open spec fn open_contract_outcome(s: ContractStorage, env: CallEnvView) -> Result<
    ContractStorage,
    PingPongError,
> {
    owner_update_outcome(env, ContractStorage { is_open: true, ..s })
}

/// The outcome of `close_contract`.
pub open spec fn close_contract_outcome(s: ContractStorage, env: CallEnvView) -> Result<
    ContractStorage,
    PingPongError,
> {
    owner_update_outcome(env, ContractStorage { is_open: false, ..s })
}

/// The outcome of `set_deadline_and_activation_timestamp`.
pub open spec fn set_deadline_outcome(
    s: ContractStorage,
    env: CallEnvView,
    deadline: u64,
    activation_timestamp: u64,
) -> Result<ContractStorage, PingPongError> {
    if owner_call_error(env) is Some {
        Err(owner_call_error(env)->0)
    } else if activation_timestamp >= deadline {
        Err(PingPongError::ActivationNotBeforeDeadline)
    } else {
        Ok(ContractStorage { deadline, activation_timestamp, ..s })
    }
}

/// The outcome of `set_max_ping_amount`.
pub open spec fn set_max_ping_amount_outcome(
    s: ContractStorage,
    env: CallEnvView,
    max_ping_amount: nat,
) -> Result<ContractStorage, PingPongError> {
    owner_update_outcome(env, ContractStorage { max_ping_amount, ..s })
}

/// The outcome of `set_max_funds`.
pub open spec fn set_max_funds_outcome(s: ContractStorage, env: CallEnvView, max_funds: nat) -> Result<
    ContractStorage,
    PingPongError,
> {
    owner_update_outcome(env, ContractStorage { max_funds, ..s })
}

/// A call with effects did what `spec` says: on success the storage became the
/// spec's and the effects are the spec's; on error the storage is unchanged.
pub open spec fn realizes(
    pre: ContractStorage,
    post: ContractStorage,
    result: Result<Seq<ActionView>, PingPongError>,
    spec: Outcome,
) -> bool {
    match spec {
        Ok((next, actions)) => result == Ok::<Seq<ActionView>, PingPongError>(actions) && post == next,
        Err(e) => result == Err::<Seq<ActionView>, PingPongError>(e) && post == pre,
    }
}

/// A call without effects did what `spec` says.
pub open spec fn realizes_update(
    pre: ContractStorage,
    post: ContractStorage,
    result: Result<(), PingPongError>,
    spec: Result<ContractStorage, PingPongError>,
) -> bool {
    match spec {
        Ok(next) => result is Ok && post == next,
        Err(e) => result == Err::<(), PingPongError>(e) && post == pre,
    }
}

/// The amount that `amounts` records for `user`, zero if none.
pub open spec fn amount_in(amounts: Map<Address, nat>, user: Address) -> nat {
    if amounts.contains_key(user) {
        amounts[user]
    } else {
        0
    }
}

/// The sum of the amounts recorded for the listed `users`.
pub open spec fn deposits_of(amounts: Map<Address, nat>, users: Seq<Address>) -> nat
    decreases users.len(),
{
    if users.len() == 0 {
        0
    } else {
        deposits_of(amounts, users.drop_last()) + amount_in(amounts, users.last())
    }
}

impl ContractStorage {
    /// What the contract owes: the deposits of the users still on the list.
    pub open spec fn deposits(self) -> nat {
        deposits_of(self.ping_amounts, self.all_users)
    }
}

/// The EGLD that a sequence of effects sends out of the contract.
pub open spec fn paid_out(actions: Seq<ActionView>) -> nat
    decreases actions.len(),
{
    if actions.len() == 0 {
        0
    } else {
        paid_out(actions.drop_last()) + match actions.last() {
            ActionView::TransferEgld { amount, .. } => amount,
            ActionView::Emit(_) => 0,
        }
    }
}

/// A call to one of the contract's endpoints, with its arguments.
pub enum Call {
    Init {
        env: CallEnvView,
        max_ping_amount: nat,
        deadline: u64,
        activation_timestamp: u64,
        max_funds: nat,
        is_open: bool,
    },
    Upgrade {
        env: CallEnvView,
        max_ping_amount: nat,
        deadline: u64,
        activation_timestamp: u64,
        max_funds: nat,
        is_open: bool,
    },
    Ping { env: CallEnvView },
    Pong { env: CallEnvView },
    OpenContract { env: CallEnvView },
    CloseContract { env: CallEnvView },
    SetDeadlineAndActivationTimestamp { env: CallEnvView, deadline: u64, activation_timestamp: u64 },
    SetMaxPingAmount { env: CallEnvView, max_ping_amount: nat },
    SetMaxFunds { env: CallEnvView, max_funds: nat },
}

impl Call {
    /// The environment the call runs in.
    pub open spec fn env(self) -> CallEnvView {
        match self {
            Call::Init { env, .. } => env,
            Call::Upgrade { env, .. } => env,
            Call::Ping { env } => env,
            Call::Pong { env } => env,
            Call::OpenContract { env } => env,
            Call::CloseContract { env } => env,
            Call::SetDeadlineAndActivationTimestamp { env, .. } => env,
            Call::SetMaxPingAmount { env, .. } => env,
            Call::SetMaxFunds { env, .. } => env,
        }
    }

    /// Whether this is a ping or a pong sent by `u`.
    pub open spec fn is_ping_or_pong_by(self, u: Address) -> bool {
        (self is Ping || self is Pong) && self.env().caller == u
    }
}

/// An outcome without effects, as an outcome with no effects.
pub open spec fn without_effects(r: Result<ContractStorage, PingPongError>) -> Outcome {
    match r {
        Ok(next) => Ok((next, Seq::empty())),
        Err(e) => Err(e),
    }
}

/// The outcome of a call, as the endpoint's own outcome states it.
pub open spec fn call_outcome(s: ContractStorage, c: Call) -> Outcome {
    match c {
        Call::Init { env, max_ping_amount, deadline, activation_timestamp, max_funds, is_open } =>
            without_effects(
            init_outcome(s, env, max_ping_amount, deadline, activation_timestamp, max_funds, is_open),
        ),
        Call::Upgrade { env, max_ping_amount, deadline, activation_timestamp, max_funds, is_open } =>
            without_effects(
            init_outcome(s, env, max_ping_amount, deadline, activation_timestamp, max_funds, is_open),
        ),
        Call::Ping { env } => ping_outcome(s, env),
        Call::Pong { env } => pong_outcome(s, env),
        Call::OpenContract { env } => without_effects(open_contract_outcome(s, env)),
        Call::CloseContract { env } => without_effects(close_contract_outcome(s, env)),
        Call::SetDeadlineAndActivationTimestamp { env, deadline, activation_timestamp } =>
            without_effects(set_deadline_outcome(s, env, deadline, activation_timestamp)),
        Call::SetMaxPingAmount { env, max_ping_amount } => without_effects(
            set_max_ping_amount_outcome(s, env, max_ping_amount),
        ),
        Call::SetMaxFunds { env, max_funds } => without_effects(
            set_max_funds_outcome(s, env, max_funds),
        ),
    }
}

/// The storage after a call: the call's new storage if it succeeds, the same
/// storage if it fails.
pub open spec fn storage_after(s: ContractStorage, c: Call) -> ContractStorage {
    match call_outcome(s, c) {
        Ok((next, _)) => next,
        Err(_) => s,
    }
}

/// The storage after a sequence of calls, made in order.
pub open spec fn storage_after_all(s: ContractStorage, calls: Seq<Call>) -> ContractStorage
    decreases calls.len(),
{
    if calls.len() == 0 {
        s
    } else {
        storage_after(storage_after_all(s, calls.drop_last()), calls.last())
    }
}

} // verus!
