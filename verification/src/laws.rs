//! Properties of the contract that span calls, proved over the model that every
//! endpoint's contract refers to.
use vstd::prelude::*;
use crate::address::Address;
use crate::error::PingPongError;
use crate::model::{
    close_contract_outcome, init_outcome, lemma_swap_removed, open_contract_outcome, ping_outcome,
    pong_outcome, set_deadline_outcome, set_max_funds_outcome, set_max_ping_amount_outcome,
    swap_removed, ActionView, CallEnvView, ContractStorage, EventView, amount_in, deposits_of,
    paid_out, Call, call_outcome, storage_after, storage_after_all,
};

verus! {

/// Every successful call keeps the storage invariant: no user is listed twice,
/// and every listed user has a recorded ping amount.
pub proof fn law_calls_keep_invariant(
    s: ContractStorage,
    env: CallEnvView,
    max_ping_amount: nat,
    deadline: u64,
    activation_timestamp: u64,
    max_funds: nat,
    is_open: bool,
)
    requires
        s.wf(),
    ensures
        ping_outcome(s, env) is Ok ==> ping_outcome(s, env)->Ok_0.0.wf(),
        pong_outcome(s, env) is Ok ==> pong_outcome(s, env)->Ok_0.0.wf(),
        init_outcome(s, env, max_ping_amount, deadline, activation_timestamp, max_funds, is_open) is Ok
            ==> init_outcome(
            s,
            env,
            max_ping_amount,
            deadline,
            activation_timestamp,
            max_funds,
            is_open,
        )->Ok_0.wf(),
        open_contract_outcome(s, env) is Ok ==> open_contract_outcome(s, env)->Ok_0.wf(),
        close_contract_outcome(s, env) is Ok ==> close_contract_outcome(s, env)->Ok_0.wf(),
        set_deadline_outcome(s, env, deadline, activation_timestamp) is Ok ==> set_deadline_outcome(
            s,
            env,
            deadline,
            activation_timestamp,
        )->Ok_0.wf(),
        set_max_ping_amount_outcome(s, env, max_ping_amount) is Ok ==> set_max_ping_amount_outcome(
            s,
            env,
            max_ping_amount,
        )->Ok_0.wf(),
        set_max_funds_outcome(s, env, max_funds) is Ok ==> set_max_funds_outcome(
            s,
            env,
            max_funds,
        )->Ok_0.wf(),
{
    if ping_outcome(s, env) is Ok {
        let users = s.all_users;
        let next = ping_outcome(s, env)->Ok_0.0;
        assert(!users.contains(env.caller));
        assert forall|a: int, b: int|
            0 <= a < next.all_users.len() && 0 <= b < next.all_users.len() && a != b implies next.all_users[a]
            != next.all_users[b] by {
            if a == users.len() {
                if users[b] == env.caller {
                    assert(users.contains(env.caller));
                }
            } else if b == users.len() {
                if users[a] == env.caller {
                    assert(users.contains(env.caller));
                }
            } else {
                assert(users[a] != users[b]);
            }
        }
        assert forall|u: Address| #[trigger]
            next.all_users.contains(u) implies next.ping_amounts.contains_key(u) by {
            if u != env.caller {
                let a = choose|a: int| 0 <= a < next.all_users.len() && next.all_users[a] == u;
                assert(users[a] == u);
                assert(users.contains(u));
            }
        }
    }
    if pong_outcome(s, env) is Ok {
        let users = s.all_users;
        let i = users.index_of(env.caller);
        assert(users.contains(env.caller));
        assert(0 <= i < users.len() && users[i] == env.caller);
        lemma_swap_removed(users, i);
    }
}

/// What a pong pays back is exactly what the same caller's ping deposited, and
/// the pair leaves the user list as it was before the ping.
pub proof fn law_pong_refunds_ping(s: ContractStorage, ping_env: CallEnvView, pong_env: CallEnvView)
    requires
        s.wf(),
        ping_outcome(s, ping_env) is Ok,
        pong_env.caller == ping_env.caller,
        pong_outcome(ping_outcome(s, ping_env)->Ok_0.0, pong_env) is Ok,
    ensures
        ({
            let after_ping = ping_outcome(s, ping_env)->Ok_0.0;
            let (after_pong, actions) = pong_outcome(after_ping, pong_env)->Ok_0;
            &&& actions == seq![
                ActionView::TransferEgld { to: ping_env.caller, amount: ping_env.egld_value },
                ActionView::Emit(
                    EventView::Pong {
                        user: ping_env.caller,
                        timestamp: pong_env.block_timestamp,
                        amount: ping_env.egld_value,
                    },
                ),
            ]
            &&& after_pong.all_users == s.all_users
            &&& after_pong == (ContractStorage { all_users: s.all_users, ..after_ping })
        }),
{
    let caller = ping_env.caller;
    let after_ping = ping_outcome(s, ping_env)->Ok_0.0;
    let users = after_ping.all_users;
    let n = s.all_users.len();
    assert(users[n as int] == caller);
    assert(users.contains(caller));
    let i = users.index_of(caller);
    assert(0 <= i < users.len() && users[i] == caller);
    if i != n {
        assert(s.all_users[i] == caller);
        assert(s.all_users.contains(caller));
    }
    assert(swap_removed(users, i) =~= s.all_users);
}

/// No moment admits both a ping and a pong: a ping is accepted only up to the
/// deadline and a pong only after it, so every accepted ping comes strictly
/// before every accepted pong on the same settings.
pub proof fn law_ping_before_pong(s: ContractStorage, ping_env: CallEnvView, pong_env: CallEnvView)
    requires
        ping_outcome(s, ping_env) is Ok,
        pong_outcome(s, pong_env) is Ok,
    ensures
        ping_env.block_timestamp < pong_env.block_timestamp,
{
}

/// A user who pinged cannot ping again until they pong.
pub proof fn law_ping_once(s: ContractStorage, first: CallEnvView, second: CallEnvView)
    requires
        ping_outcome(s, first) is Ok,
        second.caller == first.caller,
    ensures
        ping_outcome(ping_outcome(s, first)->Ok_0.0, second) is Err,
{
    let next = ping_outcome(s, first)->Ok_0.0;
    assert(next.all_users[s.all_users.len() as int] == first.caller);
    assert(next.all_users.contains(first.caller));
}

/// Only listed users can pong, and a pong takes the caller off the list and
/// nothing else.
pub proof fn law_pong_removes_caller(s: ContractStorage, env: CallEnvView)
    requires
        s.wf(),
        pong_outcome(s, env) is Ok,
    ensures
        s.all_users.contains(env.caller),
        forall|u: Address| #[trigger]
            pong_outcome(s, env)->Ok_0.0.all_users.contains(u) == (s.all_users.contains(u) && u
                != env.caller),
{
    let users = s.all_users;
    let i = users.index_of(env.caller);
    assert(users.contains(env.caller));
    assert(0 <= i < users.len() && users[i] == env.caller);
    lemma_swap_removed(users, i);
}

/// A successful ping respects every limit: the deposit is at most the maximum
/// ping amount, the balance it reaches is at most the maximum funds, and the
/// time lies in the ping window.
pub proof fn law_ping_within_limits(s: ContractStorage, env: CallEnvView)
    requires
        ping_outcome(s, env) is Ok,
    ensures
        s.is_open,
        env.egld_value <= s.max_ping_amount,
        env.sc_balance + env.egld_value <= s.max_funds,
        s.activation_timestamp <= env.block_timestamp <= s.deadline,
        env.esdt_transfer_count == 0,
{
}

/// A closed contract refuses every ping and every pong.
pub proof fn law_closed_contract_refuses(s: ContractStorage, env: CallEnvView)
    requires
        !s.is_open,
    ensures
        ping_outcome(s, env) is Err,
        pong_outcome(s, env) is Err,
        env.esdt_transfer_count == 0 ==> ping_outcome(s, env) == Err::<
            (ContractStorage, Seq<ActionView>),
            PingPongError,
        >(PingPongError::Maintenance),
        env.esdt_transfer_count == 0 && env.egld_value == 0 ==> pong_outcome(s, env) == Err::<
            (ContractStorage, Seq<ActionView>),
            PingPongError,
        >(PingPongError::Maintenance),
{
}

/// Only the owner can change the settings; any other caller is refused.
pub proof fn law_only_owner_changes_settings(
    s: ContractStorage,
    env: CallEnvView,
    deadline: u64,
    activation_timestamp: u64,
    amount: nat,
)
    requires
        env.caller != env.owner,
    ensures
        open_contract_outcome(s, env) is Err,
        close_contract_outcome(s, env) is Err,
        set_deadline_outcome(s, env, deadline, activation_timestamp) is Err,
        set_max_ping_amount_outcome(s, env, amount) is Err,
        set_max_funds_outcome(s, env, amount) is Err,
{
}

/// Deploying or upgrading writes the five settings and keeps the user list and
/// the recorded ping amounts.
pub proof fn law_init_keeps_deposits(
    s: ContractStorage,
    env: CallEnvView,
    max_ping_amount: nat,
    deadline: u64,
    activation_timestamp: u64,
    max_funds: nat,
    is_open: bool,
)
    requires
        init_outcome(s, env, max_ping_amount, deadline, activation_timestamp, max_funds, is_open) is Ok,
    ensures
        ({
            let next = init_outcome(
                s,
                env,
                max_ping_amount,
                deadline,
                activation_timestamp,
                max_funds,
                is_open,
            )->Ok_0;
            &&& next.all_users == s.all_users
            &&& next.ping_amounts == s.ping_amounts
            &&& next.is_open == is_open
            &&& next.max_ping_amount == max_ping_amount
            &&& next.deadline == deadline
            &&& next.activation_timestamp == activation_timestamp
            &&& next.max_funds == max_funds
        }),
{
}

/// The settings the owner writes are what the views then read, and the ping
/// window the owner sets always opens before it closes.
pub proof fn law_owner_settings_take_effect(
    s: ContractStorage,
    env: CallEnvView,
    deadline: u64,
    activation_timestamp: u64,
    amount: nat,
)
    requires
        env.caller == env.owner,
        env.egld_value == 0,
        env.esdt_transfer_count == 0,
    ensures
        open_contract_outcome(s, env) == Ok::<ContractStorage, PingPongError>(
            ContractStorage { is_open: true, ..s },
        ),
        close_contract_outcome(s, env) == Ok::<ContractStorage, PingPongError>(
            ContractStorage { is_open: false, ..s },
        ),
        set_max_ping_amount_outcome(s, env, amount) == Ok::<ContractStorage, PingPongError>(
            ContractStorage { max_ping_amount: amount, ..s },
        ),
        set_max_funds_outcome(s, env, amount) == Ok::<ContractStorage, PingPongError>(
            ContractStorage { max_funds: amount, ..s },
        ),
        set_deadline_outcome(s, env, deadline, activation_timestamp) is Ok <==> activation_timestamp
            < deadline,
        set_deadline_outcome(s, env, deadline, activation_timestamp) is Ok ==> set_deadline_outcome(
            s,
            env,
            deadline,
            activation_timestamp,
        )->Ok_0.activation_timestamp < set_deadline_outcome(
            s,
            env,
            deadline,
            activation_timestamp,
        )->Ok_0.deadline,
{
}

/// One call's share of keeping deposits apart: a ping by anyone else leaves a
/// user's recorded amount and place on the list as they were, a pong changes no
/// recorded amount and moves no one else off the list, and every other endpoint
/// leaves both the amounts and the list alone.
pub proof fn law_deposit_untouched_by_others(
    s: ContractStorage,
    env: CallEnvView,
    u: Address,
    max_ping_amount: nat,
    deadline: u64,
    activation_timestamp: u64,
    max_funds: nat,
    is_open: bool,
)
    requires
        s.wf(),
    ensures
        ping_outcome(s, env) is Ok && env.caller != u ==> {
            let next = ping_outcome(s, env)->Ok_0.0;
            &&& next.ping_amount_of(u) == s.ping_amount_of(u)
            &&& next.all_users.contains(u) == s.all_users.contains(u)
        },
        pong_outcome(s, env) is Ok ==> {
            let next = pong_outcome(s, env)->Ok_0.0;
            &&& next.ping_amounts == s.ping_amounts
            &&& (env.caller != u ==> next.all_users.contains(u) == s.all_users.contains(u))
        },
        init_outcome(s, env, max_ping_amount, deadline, activation_timestamp, max_funds, is_open) is Ok
            ==> {
            let next = init_outcome(
                s,
                env,
                max_ping_amount,
                deadline,
                activation_timestamp,
                max_funds,
                is_open,
            )->Ok_0;
            next.ping_amounts == s.ping_amounts && next.all_users == s.all_users
        },
        open_contract_outcome(s, env) is Ok ==> {
            let next = open_contract_outcome(s, env)->Ok_0;
            next.ping_amounts == s.ping_amounts && next.all_users == s.all_users
        },
        close_contract_outcome(s, env) is Ok ==> {
            let next = close_contract_outcome(s, env)->Ok_0;
            next.ping_amounts == s.ping_amounts && next.all_users == s.all_users
        },
        set_deadline_outcome(s, env, deadline, activation_timestamp) is Ok ==> {
            let next = set_deadline_outcome(s, env, deadline, activation_timestamp)->Ok_0;
            next.ping_amounts == s.ping_amounts && next.all_users == s.all_users
        },
        set_max_ping_amount_outcome(s, env, max_ping_amount) is Ok ==> {
            let next = set_max_ping_amount_outcome(s, env, max_ping_amount)->Ok_0;
            next.ping_amounts == s.ping_amounts && next.all_users == s.all_users
        },
        set_max_funds_outcome(s, env, max_funds) is Ok ==> {
            let next = set_max_funds_outcome(s, env, max_funds)->Ok_0;
            next.ping_amounts == s.ping_amounts && next.all_users == s.all_users
        },
{
    if ping_outcome(s, env) is Ok && env.caller != u {
        let next = ping_outcome(s, env)->Ok_0.0;
        if s.all_users.contains(u) {
            let a = choose|a: int| 0 <= a < s.all_users.len() && s.all_users[a] == u;
            assert(next.all_users[a] == u);
        }
        if next.all_users.contains(u) {
            let a = choose|a: int| 0 <= a < next.all_users.len() && next.all_users[a] == u;
            assert(a < s.all_users.len());
            assert(s.all_users[a] == u);
        }
    }
    if pong_outcome(s, env) is Ok {
        law_pong_removes_caller(s, env);
    }
}

/// Only the amounts of listed users count towards the deposits.
proof fn lemma_deposits_frame(m1: Map<Address, nat>, m2: Map<Address, nat>, users: Seq<Address>)
    requires
        forall|u: Address| #[trigger] users.contains(u) ==> amount_in(m1, u) == amount_in(m2, u),
    ensures
        deposits_of(m1, users) == deposits_of(m2, users),
    decreases users.len(),
{
    if users.len() > 0 {
        let d = users.drop_last();
        assert forall|u: Address| #[trigger] d.contains(u) implies amount_in(m1, u) == amount_in(
            m2,
            u,
        ) by {
            let a = choose|a: int| 0 <= a < d.len() && d[a] == u;
            assert(users[a] == u);
            assert(users.contains(u));
        }
        lemma_deposits_frame(m1, m2, d);
        assert(users[users.len() - 1] == users.last());
        assert(users.contains(users.last()));
    }
}

/// Replacing one listed user by another changes the deposits by the difference
/// of their amounts.
proof fn lemma_deposits_update(m: Map<Address, nat>, t: Seq<Address>, i: int, x: Address)
    requires
        0 <= i < t.len(),
    ensures
        deposits_of(m, t.update(i, x)) + amount_in(m, t[i]) == deposits_of(m, t) + amount_in(m, x),
    decreases t.len(),
{
    let r = t.update(i, x);
    let n = t.len() - 1;
    if i == n {
        assert(r.drop_last() =~= t.drop_last());
    } else {
        assert(r.drop_last() =~= t.drop_last().update(i, x));
        lemma_deposits_update(m, t.drop_last(), i, x);
        assert(r.last() == t.last());
    }
}

/// Taking a user off the list takes exactly their amount off the deposits.
proof fn lemma_deposits_swap_removed(m: Map<Address, nat>, s: Seq<Address>, i: int)
    requires
        0 <= i < s.len(),
    ensures
        deposits_of(m, swap_removed(s, i)) + amount_in(m, s[i]) == deposits_of(m, s),
{
    let n = s.len() - 1;
    if i == n {
        assert(swap_removed(s, i) =~= s.drop_last());
    } else {
        assert(swap_removed(s, i) =~= s.drop_last().update(i, s.last()));
        lemma_deposits_update(m, s.drop_last(), i, s.last());
    }
}

/// A pong's effects send out exactly the refunded amount; a ping's send nothing.
proof fn lemma_paid_out_of_effects(to: Address, amount: nat, e: EventView)
    ensures
        paid_out(seq![ActionView::TransferEgld { to, amount }, ActionView::Emit(e)]) == amount,
        paid_out(seq![ActionView::Emit(e)]) == 0,
{
    let two = seq![ActionView::TransferEgld { to, amount }, ActionView::Emit(e)];
    let one = seq![ActionView::Emit(e)];
    assert(two.drop_last().drop_last() =~= Seq::<ActionView>::empty());
    assert(two.drop_last() =~= seq![ActionView::TransferEgld { to, amount }]);
    assert(one.drop_last() =~= Seq::<ActionView>::empty());
    assert(paid_out(Seq::<ActionView>::empty()) == 0);
    assert(paid_out(two.drop_last()) == paid_out(two.drop_last().drop_last()) + amount);
    assert(paid_out(two) == paid_out(two.drop_last()) + 0);
    assert(paid_out(one) == paid_out(one.drop_last()) + 0);
}

/// Every successful call keeps the books: what the contract owes afterwards,
/// plus what it sends out, equals what it owed before plus the EGLD the call
/// brought in. (Only a ping accepts EGLD; only a pong sends any.)
pub proof fn law_deposits_accounted(s: ContractStorage, c: Call)
    requires
        s.wf(),
    ensures
        call_outcome(s, c) is Ok ==> ({
            let (next, actions) = call_outcome(s, c)->Ok_0;
            next.deposits() + paid_out(actions) == s.deposits() + c.env().egld_value
        }),
{
    if call_outcome(s, c) is Ok {
        let (next, actions) = call_outcome(s, c)->Ok_0;
        match c {
            Call::Ping { env } => {
                let users = s.all_users;
                assert(!users.contains(env.caller));
                assert forall|u: Address| #[trigger] users.contains(u) implies amount_in(
                    s.ping_amounts,
                    u,
                ) == amount_in(next.ping_amounts, u) by {}
                lemma_deposits_frame(s.ping_amounts, next.ping_amounts, users);
                assert(next.all_users.drop_last() =~= users);
                assert(next.deposits() == deposits_of(next.ping_amounts, users) + amount_in(
                    next.ping_amounts,
                    env.caller,
                ));
                lemma_paid_out_of_effects(
                    env.caller,
                    0,
                    EventView::Ping {
                        user: env.caller,
                        timestamp: env.block_timestamp,
                        amount: env.egld_value,
                    },
                );
            },
            Call::Pong { env } => {
                let users = s.all_users;
                let i = users.index_of(env.caller);
                assert(users.contains(env.caller));
                assert(0 <= i < users.len() && users[i] == env.caller);
                lemma_deposits_swap_removed(s.ping_amounts, users, i);
                let amount = s.ping_amount_of(env.caller);
                lemma_paid_out_of_effects(
                    env.caller,
                    amount,
                    EventView::Pong { user: env.caller, timestamp: env.block_timestamp, amount },
                );
            },
            _ => {
                assert(actions =~= Seq::<ActionView>::empty());
            },
        }
    }
}

/// Solvency: if the contract's EGLD balance covers what it owes before a call,
/// then the call's transfers are covered, and the balance after the call (the
/// balance before, plus the EGLD the call brings in, minus what it sends out)
/// still covers what it owes. A failed call moves nothing and changes nothing.
pub proof fn law_balance_covers_deposits(s: ContractStorage, c: Call, balance: int)
    requires
        s.wf(),
        s.deposits() <= balance,
    ensures
        call_outcome(s, c) is Ok ==> ({
            let (next, actions) = call_outcome(s, c)->Ok_0;
            &&& paid_out(actions) <= balance + c.env().egld_value
            &&& next.deposits() <= balance + c.env().egld_value - paid_out(actions)
        }),
        call_outcome(s, c) is Err ==> storage_after(s, c) == s,
{
    law_deposits_accounted(s, c);
}

/// What one call does to the invariant and to a user's place and deposit.
proof fn lemma_call_keeps(s: ContractStorage, c: Call, u: Address)
    requires
        s.wf(),
    ensures
        storage_after(s, c).wf(),
        !c.is_ping_or_pong_by(u) && s.all_users.contains(u) ==> storage_after(s, c).all_users.contains(
            u,
        ) && storage_after(s, c).ping_amount_of(u) == s.ping_amount_of(u),
        !(c is Ping && c.env().caller == u) && !s.all_users.contains(u) ==> !storage_after(
            s,
            c,
        ).all_users.contains(u),
{
    match c {
        Call::Init { env, max_ping_amount, deadline, activation_timestamp, max_funds, is_open } => {
            law_calls_keep_invariant(s, env, max_ping_amount, deadline, activation_timestamp, max_funds, is_open);
            law_deposit_untouched_by_others(s, env, u, max_ping_amount, deadline, activation_timestamp, max_funds, is_open);
        },
        Call::Upgrade { env, max_ping_amount, deadline, activation_timestamp, max_funds, is_open } => {
            law_calls_keep_invariant(s, env, max_ping_amount, deadline, activation_timestamp, max_funds, is_open);
            law_deposit_untouched_by_others(s, env, u, max_ping_amount, deadline, activation_timestamp, max_funds, is_open);
        },
        Call::SetDeadlineAndActivationTimestamp { env, deadline, activation_timestamp } => {
            law_calls_keep_invariant(s, env, 0, deadline, activation_timestamp, 0, false);
            law_deposit_untouched_by_others(s, env, u, 0, deadline, activation_timestamp, 0, false);
        },
        Call::SetMaxPingAmount { env, max_ping_amount } => {
            law_calls_keep_invariant(s, env, max_ping_amount, 0, 0, 0, false);
            law_deposit_untouched_by_others(s, env, u, max_ping_amount, 0, 0, 0, false);
        },
        Call::SetMaxFunds { env, max_funds } => {
            law_calls_keep_invariant(s, env, 0, 0, 0, max_funds, false);
            law_deposit_untouched_by_others(s, env, u, 0, 0, 0, max_funds, false);
        },
        _ => {
            law_calls_keep_invariant(s, c.env(), 0, 0, 0, 0, false);
            law_deposit_untouched_by_others(s, c.env(), u, 0, 0, 0, 0, false);
        },
    }
}

/// Calls that include no ping or pong by `u` keep `u` listed with the same
/// recorded amount.
proof fn lemma_calls_keep_deposit(s: ContractStorage, calls: Seq<Call>, u: Address)
    requires
        s.wf(),
        s.all_users.contains(u),
        forall|i: int| 0 <= i < calls.len() ==> !(#[trigger] calls[i]).is_ping_or_pong_by(u),
    ensures
        storage_after_all(s, calls).wf(),
        storage_after_all(s, calls).all_users.contains(u),
        storage_after_all(s, calls).ping_amount_of(u) == s.ping_amount_of(u),
    decreases calls.len(),
{
    if calls.len() > 0 {
        let d = calls.drop_last();
        assert forall|i: int| 0 <= i < d.len() implies !(#[trigger] d[i]).is_ping_or_pong_by(u) by {
            assert(d[i] == calls[i]);
        }
        lemma_calls_keep_deposit(s, d, u);
        assert(!calls[calls.len() - 1].is_ping_or_pong_by(u));
        lemma_call_keeps(storage_after_all(s, d), calls.last(), u);
    }
}

/// Calls that include no ping by `u` keep an unlisted `u` off the list.
proof fn lemma_calls_keep_absent(s: ContractStorage, calls: Seq<Call>, u: Address)
    requires
        s.wf(),
        !s.all_users.contains(u),
        forall|i: int|
            0 <= i < calls.len() ==> !((#[trigger] calls[i]) is Ping && calls[i].env().caller == u),
    ensures
        storage_after_all(s, calls).wf(),
        !storage_after_all(s, calls).all_users.contains(u),
    decreases calls.len(),
{
    if calls.len() > 0 {
        let d = calls.drop_last();
        assert forall|i: int| 0 <= i < d.len() implies !((#[trigger] d[i]) is Ping && d[i].env().caller
            == u) by {
            assert(d[i] == calls[i]);
        }
        lemma_calls_keep_absent(s, d, u);
        assert(!(calls[calls.len() - 1] is Ping && calls[calls.len() - 1].env().caller == u));
        lemma_call_keeps(storage_after_all(s, d), calls.last(), u);
    }
}

/// Whatever other users and the owner do between a user's ping and the same
/// user's pong, the user stays listed with the amount they deposited; once the
/// contract is open and past its deadline their pong succeeds; and the pong
/// sends exactly that amount back to them, logs it, and takes them off the list.
pub proof fn law_pong_refunds_ping_after_any_calls(
    s: ContractStorage,
    ping_env: CallEnvView,
    calls: Seq<Call>,
    pong_env: CallEnvView,
)
    requires
        s.wf(),
        ping_outcome(s, ping_env) is Ok,
        forall|i: int| 0 <= i < calls.len() ==> !(#[trigger] calls[i]).is_ping_or_pong_by(ping_env.caller),
        pong_env.caller == ping_env.caller,
    ensures
        ({
            let u = ping_env.caller;
            let before_pong = storage_after_all(ping_outcome(s, ping_env)->Ok_0.0, calls);
            &&& before_pong.all_users.contains(u)
            &&& before_pong.ping_amount_of(u) == ping_env.egld_value
            &&& (before_pong.is_open && pong_env.block_timestamp > before_pong.deadline
                && pong_env.egld_value == 0 && pong_env.esdt_transfer_count == 0)
                ==> pong_outcome(before_pong, pong_env) is Ok
            &&& pong_outcome(before_pong, pong_env) is Ok ==> {
                let (after_pong, actions) = pong_outcome(before_pong, pong_env)->Ok_0;
                &&& actions == seq![
                    ActionView::TransferEgld { to: u, amount: ping_env.egld_value },
                    ActionView::Emit(
                        EventView::Pong {
                            user: u,
                            timestamp: pong_env.block_timestamp,
                            amount: ping_env.egld_value,
                        },
                    ),
                ]
                &&& paid_out(actions) == ping_env.egld_value
                &&& !after_pong.all_users.contains(u)
            }
        }),
{
    let u = ping_env.caller;
    let after_ping = ping_outcome(s, ping_env)->Ok_0.0;
    law_calls_keep_invariant(s, ping_env, 0, 0, 0, 0, false);
    assert(after_ping.all_users[s.all_users.len() as int] == u);
    assert(after_ping.all_users.contains(u));
    lemma_calls_keep_deposit(after_ping, calls, u);
    let before_pong = storage_after_all(after_ping, calls);
    if pong_outcome(before_pong, pong_env) is Ok {
        law_pong_removes_caller(before_pong, pong_env);
        let amount = ping_env.egld_value;
        lemma_paid_out_of_effects(
            u,
            amount,
            EventView::Pong { user: u, timestamp: pong_env.block_timestamp, amount },
        );
    }
}

/// A deposit is refunded at most once: after a user's successful pong, and
/// with no new ping by that user, any later pong by the user is refused
/// ("caller has not pinged" once the contract is open, past its deadline, and
/// the call carries no payment) and so sends nothing.
pub proof fn law_second_pong_fails(
    s: ContractStorage,
    first: CallEnvView,
    calls: Seq<Call>,
    second: CallEnvView,
)
    requires
        s.wf(),
        pong_outcome(s, first) is Ok,
        forall|i: int|
            0 <= i < calls.len() ==> !((#[trigger] calls[i]) is Ping && calls[i].env().caller
                == first.caller),
        second.caller == first.caller,
    ensures
        ({
            let before = storage_after_all(pong_outcome(s, first)->Ok_0.0, calls);
            &&& pong_outcome(before, second) is Err
            &&& (before.is_open && second.block_timestamp > before.deadline && second.egld_value == 0
                && second.esdt_transfer_count == 0) ==> pong_outcome(before, second) == Err::<
                (ContractStorage, Seq<ActionView>),
                PingPongError,
            >(PingPongError::NotPinged)
        }),
{
    let after_first = pong_outcome(s, first)->Ok_0.0;
    law_calls_keep_invariant(s, first, 0, 0, 0, 0, false);
    law_pong_removes_caller(s, first);
    lemma_calls_keep_absent(after_first, calls, first.caller);
}

/// A ping is accepted exactly when the contract is open, no ESDT is sent, the
/// deposit is at most the maximum ping amount, the reported balance plus the
/// deposit is at most the maximum funds, the block timestamp lies in
/// [activation timestamp, deadline], and the caller is not already listed;
/// who the caller is matters for nothing else. An accepted ping records the
/// deposit for the caller, appends the caller to the user list, changes nothing
/// else, and logs one ping event with the caller, the timestamp and the deposit.
pub proof fn law_ping_accepted_exactly_when_allowed(s: ContractStorage, env: CallEnvView)
    ensures
        ping_outcome(s, env) is Ok <==> (s.is_open && env.esdt_transfer_count == 0
            && env.egld_value <= s.max_ping_amount && env.sc_balance + env.egld_value <= s.max_funds
            && s.activation_timestamp <= env.block_timestamp <= s.deadline
            && !s.all_users.contains(env.caller)),
        ping_outcome(s, env) is Ok ==> ping_outcome(s, env) == Ok::<
            (ContractStorage, Seq<ActionView>),
            PingPongError,
        >(
            (
                ContractStorage {
                    is_open: s.is_open,
                    max_ping_amount: s.max_ping_amount,
                    deadline: s.deadline,
                    activation_timestamp: s.activation_timestamp,
                    max_funds: s.max_funds,
                    ping_amounts: s.ping_amounts.insert(env.caller, env.egld_value),
                    all_users: s.all_users.push(env.caller),
                },
                seq![
                    ActionView::Emit(
                        EventView::Ping {
                            user: env.caller,
                            timestamp: env.block_timestamp,
                            amount: env.egld_value,
                        },
                    ),
                ],
            ),
        ),
{
}

/// Which refusal a ping gets: the checks run in this order, and the first that
/// fails names the error.
pub proof fn law_ping_refusals(s: ContractStorage, env: CallEnvView)
    ensures
        env.esdt_transfer_count > 0 ==> ping_outcome(s, env) == Err::<
            (ContractStorage, Seq<ActionView>),
            PingPongError,
        >(PingPongError::EsdtPaymentRejected),
        env.esdt_transfer_count == 0 && !s.is_open ==> ping_outcome(s, env) == Err::<
            (ContractStorage, Seq<ActionView>),
            PingPongError,
        >(PingPongError::Maintenance),
        env.esdt_transfer_count == 0 && s.is_open && env.egld_value > s.max_ping_amount
            ==> ping_outcome(s, env) == Err::<(ContractStorage, Seq<ActionView>), PingPongError>(
            PingPongError::PingAmountTooHigh,
        ),
        env.esdt_transfer_count == 0 && s.is_open && env.egld_value <= s.max_ping_amount
            && env.sc_balance + env.egld_value > s.max_funds ==> ping_outcome(s, env) == Err::<
            (ContractStorage, Seq<ActionView>),
            PingPongError,
        >(PingPongError::ContractFull),
        env.esdt_transfer_count == 0 && s.is_open && env.egld_value <= s.max_ping_amount
            && env.sc_balance + env.egld_value <= s.max_funds && env.block_timestamp
            < s.activation_timestamp ==> ping_outcome(s, env) == Err::<
            (ContractStorage, Seq<ActionView>),
            PingPongError,
        >(PingPongError::NotActiveYet),
        env.esdt_transfer_count == 0 && s.is_open && env.egld_value <= s.max_ping_amount
            && env.sc_balance + env.egld_value <= s.max_funds && s.activation_timestamp
            <= env.block_timestamp && env.block_timestamp > s.deadline ==> ping_outcome(s, env)
            == Err::<(ContractStorage, Seq<ActionView>), PingPongError>(
            PingPongError::DeadlinePassed,
        ),
        env.esdt_transfer_count == 0 && s.is_open && env.egld_value <= s.max_ping_amount
            && env.sc_balance + env.egld_value <= s.max_funds && s.activation_timestamp
            <= env.block_timestamp <= s.deadline && s.all_users.contains(env.caller)
            ==> ping_outcome(s, env) == Err::<(ContractStorage, Seq<ActionView>), PingPongError>(
            PingPongError::AlreadyPinged,
        ),
{
}

/// A pong is accepted exactly when no payment is sent, the contract is open,
/// the deadline has passed and the caller is listed; it then sends the
/// caller's recorded amount back, logs it, and takes the caller off the list,
/// changing nothing else. The refusals come in this order: payment, closed,
/// deadline not passed, caller not listed.
pub proof fn law_pong_accepted_exactly_when_allowed(s: ContractStorage, env: CallEnvView)
    requires
        s.wf(),
    ensures
        pong_outcome(s, env) is Ok <==> (env.egld_value == 0 && env.esdt_transfer_count == 0
            && s.is_open && env.block_timestamp > s.deadline && s.all_users.contains(env.caller)),
        pong_outcome(s, env) is Ok ==> ({
            let (next, actions) = pong_outcome(s, env)->Ok_0;
            let amount = if s.ping_amounts.contains_key(env.caller) {
                s.ping_amounts[env.caller]
            } else {
                0
            };
            &&& actions == seq![
                ActionView::TransferEgld { to: env.caller, amount },
                ActionView::Emit(
                    EventView::Pong { user: env.caller, timestamp: env.block_timestamp, amount },
                ),
            ]
            &&& next.is_open == s.is_open
            &&& next.max_ping_amount == s.max_ping_amount
            &&& next.deadline == s.deadline
            &&& next.activation_timestamp == s.activation_timestamp
            &&& next.max_funds == s.max_funds
            &&& next.ping_amounts == s.ping_amounts
            &&& next.all_users.len() + 1 == s.all_users.len()
            &&& forall|u: Address| #[trigger]
                next.all_users.contains(u) == (s.all_users.contains(u) && u != env.caller)
        }),
        env.egld_value > 0 ==> pong_outcome(s, env) == Err::<
            (ContractStorage, Seq<ActionView>),
            PingPongError,
        >(PingPongError::EgldPaymentNotAccepted),
        env.egld_value == 0 && env.esdt_transfer_count > 0 ==> pong_outcome(s, env) == Err::<
            (ContractStorage, Seq<ActionView>),
            PingPongError,
        >(PingPongError::EsdtPaymentNotAccepted),
        env.egld_value == 0 && env.esdt_transfer_count == 0 && !s.is_open ==> pong_outcome(s, env)
            == Err::<(ContractStorage, Seq<ActionView>), PingPongError>(
            PingPongError::Maintenance,
        ),
        env.egld_value == 0 && env.esdt_transfer_count == 0 && s.is_open && env.block_timestamp
            <= s.deadline ==> pong_outcome(s, env) == Err::<
            (ContractStorage, Seq<ActionView>),
            PingPongError,
        >(PingPongError::DeadlineNotPassed),
        env.egld_value == 0 && env.esdt_transfer_count == 0 && s.is_open && env.block_timestamp
            > s.deadline && !s.all_users.contains(env.caller) ==> pong_outcome(s, env) == Err::<
            (ContractStorage, Seq<ActionView>),
            PingPongError,
        >(PingPongError::NotPinged),
{
    if pong_outcome(s, env) is Ok {
        law_pong_removes_caller(s, env);
    }
}

/// Deploying or upgrading without a payment always succeeds, whatever the five
/// settings and whenever it happens, and writes exactly those five settings,
/// keeping the user list and the recorded amounts. With EGLD it is refused with
/// the EGLD error; with only ESDT, with the ESDT error.
pub proof fn law_init_writes_settings(
    s: ContractStorage,
    env: CallEnvView,
    max_ping_amount: nat,
    deadline: u64,
    activation_timestamp: u64,
    max_funds: nat,
    is_open: bool,
)
    ensures
        env.egld_value == 0 && env.esdt_transfer_count == 0 ==> init_outcome(
            s,
            env,
            max_ping_amount,
            deadline,
            activation_timestamp,
            max_funds,
            is_open,
        ) == Ok::<ContractStorage, PingPongError>(
            ContractStorage {
                is_open,
                max_ping_amount,
                deadline,
                activation_timestamp,
                max_funds,
                ping_amounts: s.ping_amounts,
                all_users: s.all_users,
            },
        ),
        env.egld_value > 0 ==> init_outcome(
            s,
            env,
            max_ping_amount,
            deadline,
            activation_timestamp,
            max_funds,
            is_open,
        ) == Err::<ContractStorage, PingPongError>(PingPongError::EgldPaymentNotAccepted),
        env.egld_value == 0 && env.esdt_transfer_count > 0 ==> init_outcome(
            s,
            env,
            max_ping_amount,
            deadline,
            activation_timestamp,
            max_funds,
            is_open,
        ) == Err::<ContractStorage, PingPongError>(PingPongError::EsdtPaymentNotAccepted),
{
}

/// The owner's setters, called by the owner without payment, write exactly the
/// given values and nothing else; moving the ping window succeeds exactly when
/// the new activation timestamp is before the new deadline. Any payment is
/// refused first, then any caller who is not the owner.
pub proof fn law_owner_setters_write_exactly(
    s: ContractStorage,
    env: CallEnvView,
    deadline: u64,
    activation_timestamp: u64,
    amount: nat,
)
    ensures
        env.caller == env.owner && env.egld_value == 0 && env.esdt_transfer_count == 0
            && activation_timestamp < deadline ==> set_deadline_outcome(
            s,
            env,
            deadline,
            activation_timestamp,
        ) == Ok::<ContractStorage, PingPongError>(
            ContractStorage {
                is_open: s.is_open,
                max_ping_amount: s.max_ping_amount,
                deadline,
                activation_timestamp,
                max_funds: s.max_funds,
                ping_amounts: s.ping_amounts,
                all_users: s.all_users,
            },
        ),
        env.caller == env.owner && env.egld_value == 0 && env.esdt_transfer_count == 0
            && activation_timestamp >= deadline ==> set_deadline_outcome(
            s,
            env,
            deadline,
            activation_timestamp,
        ) == Err::<ContractStorage, PingPongError>(PingPongError::ActivationNotBeforeDeadline),
        env.caller == env.owner && env.egld_value == 0 && env.esdt_transfer_count == 0
            ==> set_max_ping_amount_outcome(s, env, amount) == Ok::<ContractStorage, PingPongError>(
            ContractStorage {
                is_open: s.is_open,
                max_ping_amount: amount,
                deadline: s.deadline,
                activation_timestamp: s.activation_timestamp,
                max_funds: s.max_funds,
                ping_amounts: s.ping_amounts,
                all_users: s.all_users,
            },
        ),
        env.caller == env.owner && env.egld_value == 0 && env.esdt_transfer_count == 0
            ==> set_max_funds_outcome(s, env, amount) == Ok::<ContractStorage, PingPongError>(
            ContractStorage {
                is_open: s.is_open,
                max_ping_amount: s.max_ping_amount,
                deadline: s.deadline,
                activation_timestamp: s.activation_timestamp,
                max_funds: amount,
                ping_amounts: s.ping_amounts,
                all_users: s.all_users,
            },
        ),
        env.caller == env.owner && env.egld_value == 0 && env.esdt_transfer_count == 0
            ==> open_contract_outcome(s, env) == Ok::<ContractStorage, PingPongError>(
            ContractStorage {
                is_open: true,
                max_ping_amount: s.max_ping_amount,
                deadline: s.deadline,
                activation_timestamp: s.activation_timestamp,
                max_funds: s.max_funds,
                ping_amounts: s.ping_amounts,
                all_users: s.all_users,
            },
        ),
        env.caller == env.owner && env.egld_value == 0 && env.esdt_transfer_count == 0
            ==> close_contract_outcome(s, env) == Ok::<ContractStorage, PingPongError>(
            ContractStorage {
                is_open: false,
                max_ping_amount: s.max_ping_amount,
                deadline: s.deadline,
                activation_timestamp: s.activation_timestamp,
                max_funds: s.max_funds,
                ping_amounts: s.ping_amounts,
                all_users: s.all_users,
            },
        ),
        env.egld_value > 0 ==> set_deadline_outcome(s, env, deadline, activation_timestamp)
            == Err::<ContractStorage, PingPongError>(PingPongError::EgldPaymentNotAccepted)
            && set_max_ping_amount_outcome(s, env, amount) == Err::<ContractStorage, PingPongError>(
            PingPongError::EgldPaymentNotAccepted,
        ) && set_max_funds_outcome(s, env, amount) == Err::<ContractStorage, PingPongError>(
            PingPongError::EgldPaymentNotAccepted,
        ) && open_contract_outcome(s, env) == Err::<ContractStorage, PingPongError>(
            PingPongError::EgldPaymentNotAccepted,
        ) && close_contract_outcome(s, env) == Err::<ContractStorage, PingPongError>(
            PingPongError::EgldPaymentNotAccepted,
        ),
        env.egld_value == 0 && env.esdt_transfer_count > 0 ==> set_deadline_outcome(
            s,
            env,
            deadline,
            activation_timestamp,
        ) == Err::<ContractStorage, PingPongError>(PingPongError::EsdtPaymentNotAccepted)
            && set_max_ping_amount_outcome(s, env, amount) == Err::<ContractStorage, PingPongError>(
            PingPongError::EsdtPaymentNotAccepted,
        ) && set_max_funds_outcome(s, env, amount) == Err::<ContractStorage, PingPongError>(
            PingPongError::EsdtPaymentNotAccepted,
        ) && open_contract_outcome(s, env) == Err::<ContractStorage, PingPongError>(
            PingPongError::EsdtPaymentNotAccepted,
        ) && close_contract_outcome(s, env) == Err::<ContractStorage, PingPongError>(
            PingPongError::EsdtPaymentNotAccepted,
        ),
        env.egld_value == 0 && env.esdt_transfer_count == 0 && env.caller != env.owner
            ==> set_deadline_outcome(s, env, deadline, activation_timestamp) == Err::<
            ContractStorage,
            PingPongError,
        >(PingPongError::NotOwner) && set_max_ping_amount_outcome(s, env, amount) == Err::<
            ContractStorage,
            PingPongError,
        >(PingPongError::NotOwner) && set_max_funds_outcome(s, env, amount) == Err::<
            ContractStorage,
            PingPongError,
        >(PingPongError::NotOwner) && open_contract_outcome(s, env) == Err::<
            ContractStorage,
            PingPongError,
        >(PingPongError::NotOwner) && close_contract_outcome(s, env) == Err::<
            ContractStorage,
            PingPongError,
        >(PingPongError::NotOwner),
{
}

} // verus!
