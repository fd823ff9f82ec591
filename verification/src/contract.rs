//! The contract's storage held in memory, and its endpoints.
use vstd::prelude::*;
use crate::address::Address;
use crate::biguint::BigUint;
use crate::env::{Action, CallEnv, Event};
use crate::error::PingPongError;
use crate::events::EventsModule;
use crate::model::{
    lemma_swap_removed, not_payable_error, owner_call_error, ping_outcome, pong_outcome,
    ContractStorage,
};
use crate::owner::OwnerModule;
use crate::storage::StorageModule;
use crate::PingPong;

verus! {

/// One `pingAmount` storage entry.
struct PingAmountEntry {
    user: Address,
    amount: BigUint,
}

/// No user has two entries.
spec fn keys_distinct(s: Seq<PingAmountEntry>) -> bool {
    forall|i: int, j: int|
        0 <= i < s.len() && 0 <= j < s.len() && #[trigger] s[i].user == #[trigger] s[j].user ==> i
            == j
}

/// Some entry belongs to `u`.
spec fn has_key(s: Seq<PingAmountEntry>, u: Address) -> bool {
    exists|i: int| 0 <= i < s.len() && #[trigger] s[i].user == u
}

/// The entries as a map from user to amount.
spec fn entries_map(s: Seq<PingAmountEntry>) -> Map<Address, nat> {
    Map::new(
        |u: Address| has_key(s, u),
        |u: Address| s[choose|i: int| 0 <= i < s.len() && #[trigger] s[i].user == u].amount@,
    )
}

proof fn lemma_entries_at(s: Seq<PingAmountEntry>, j: int)
    requires
        keys_distinct(s),
        0 <= j < s.len(),
    ensures
        entries_map(s).contains_key(s[j].user),
        entries_map(s)[s[j].user] == s[j].amount@,
{
    let u = s[j].user;
    assert(has_key(s, u));
    let c = choose|i: int| 0 <= i < s.len() && #[trigger] s[i].user == u;
    assert(s[c].user == s[j].user);
}

proof fn lemma_entries_push(s: Seq<PingAmountEntry>, e: PingAmountEntry)
    requires
        keys_distinct(s),
        !has_key(s, e.user),
    ensures
        keys_distinct(s.push(e)),
        entries_map(s.push(e)) == entries_map(s).insert(e.user, e.amount@),
{
    let t = s.push(e);
    assert forall|i: int, j: int|
        0 <= i < t.len() && 0 <= j < t.len() && #[trigger] t[i].user == #[trigger] t[j].user implies i
        == j by {
        if i < s.len() && j < s.len() {
            assert(s[i].user == s[j].user);
        } else if i < s.len() {
            assert(s[i].user == e.user);
        } else if j < s.len() {
            assert(s[j].user == e.user);
        }
    }
    assert forall|k: Address| #[trigger] has_key(t, k) == (has_key(s, k) || k == e.user) by {
        if has_key(s, k) {
            let w = choose|i: int| 0 <= i < s.len() && #[trigger] s[i].user == k;
            assert(t[w].user == k);
        }
        if k == e.user {
            assert(t[s.len() as int].user == k);
        }
        if has_key(t, k) && k != e.user {
            let w = choose|i: int| 0 <= i < t.len() && #[trigger] t[i].user == k;
            assert(w < s.len());
            assert(s[w].user == k);
        }
    }
    assert forall|k: Address| #[trigger]
        entries_map(t).contains_key(k) implies entries_map(t)[k] == entries_map(s).insert(
        e.user,
        e.amount@,
    )[k] by {
        if k == e.user {
            lemma_entries_at(t, s.len() as int);
        } else {
            let w = choose|i: int| 0 <= i < s.len() && #[trigger] s[i].user == k;
            lemma_entries_at(s, w);
            lemma_entries_at(t, w);
        }
    }
    assert(entries_map(t) =~= entries_map(s).insert(e.user, e.amount@));
}

proof fn lemma_entries_replace(s: Seq<PingAmountEntry>, j: int, e: PingAmountEntry)
    requires
        keys_distinct(s),
        0 <= j < s.len(),
        s[j].user == e.user,
    ensures
        keys_distinct(s.update(j, e)),
        entries_map(s.update(j, e)) == entries_map(s).insert(e.user, e.amount@),
{
    let t = s.update(j, e);
    assert forall|a: int, b: int|
        0 <= a < t.len() && 0 <= b < t.len() && #[trigger] t[a].user == #[trigger] t[b].user implies a
        == b by {
        assert(s[a].user == s[b].user);
    }
    assert forall|k: Address| #[trigger] has_key(t, k) == has_key(s, k) by {
        if has_key(s, k) {
            let w = choose|i: int| 0 <= i < s.len() && #[trigger] s[i].user == k;
            assert(t[w].user == k);
        }
        if has_key(t, k) {
            let w = choose|i: int| 0 <= i < t.len() && #[trigger] t[i].user == k;
            assert(s[w].user == k);
        }
    }
    assert forall|k: Address| #[trigger]
        entries_map(t).contains_key(k) implies entries_map(t)[k] == entries_map(s).insert(
        e.user,
        e.amount@,
    )[k] by {
        let w = choose|i: int| 0 <= i < t.len() && #[trigger] t[i].user == k;
        lemma_entries_at(t, w);
        if w != j {
            lemma_entries_at(s, w);
        }
    }
    assert(entries_map(t) =~= entries_map(s).insert(e.user, e.amount@));
}

/// The ping-pong contract with its storage.
pub struct PingPongContract {
    is_open: bool,
    max_ping_amount: BigUint,
    deadline: u64,
    activation_timestamp: u64,
    max_funds: BigUint,
    ping_amounts: Vec<PingAmountEntry>,
    all_users: Vec<Address>,
}

impl PingPongContract {
    /// A contract account whose storage is still empty, as before deployment.
    pub fn new() -> (c: PingPongContract)
        ensures
            c.wf(),
            c.storage() == ContractStorage::empty(),
    {
        let c = PingPongContract {
            is_open: false,
            max_ping_amount: BigUint::zero(),
            deadline: 0,
            activation_timestamp: 0,
            max_funds: BigUint::zero(),
            ping_amounts: Vec::new(),
            all_users: Vec::new(),
        };
        assert(entries_map(c.ping_amounts@) =~= Map::empty());
        assert(c.all_users@ =~= Seq::empty());
        c
    }

    fn find_entry(&self, user: &Address) -> (r: Option<usize>)
        ensures
            match r {
                Some(i) => i < self.ping_amounts@.len() && self.ping_amounts@[i as int].user == *user,
                None => !has_key(self.ping_amounts@, *user),
            },
    {
        let mut i: usize = 0;
        while i < self.ping_amounts.len()
            invariant
                i <= self.ping_amounts.len(),
                forall|j: int| 0 <= j < i ==> self.ping_amounts@[j].user != *user,
            decreases self.ping_amounts.len() - i,
        {
            if self.ping_amounts[i].user == *user {
                return Some(i);
            }
            i = i + 1;
        }
        None
    }

    fn find_user(&self, user: &Address) -> (r: Option<usize>)
        ensures
            match r {
                Some(i) => i < self.all_users@.len() && self.all_users@[i as int] == *user,
                None => !self.all_users@.contains(*user),
            },
    {
        let mut i: usize = 0;
        while i < self.all_users.len()
            invariant
                i <= self.all_users.len(),
                forall|j: int| 0 <= j < i ==> self.all_users@[j] != *user,
            decreases self.all_users.len() - i,
        {
            if self.all_users[i] == *user {
                return Some(i);
            }
            i = i + 1;
        }
        None
    }

    /// Records `amount` as the ping amount of `user`.
    fn set_ping_amount(&mut self, user: Address, amount: BigUint)
        requires
            old(self).wf(),
        ensures
            final(self).wf(),
            final(self).storage() == (ContractStorage {
                ping_amounts: old(self).storage().ping_amounts.insert(user, amount@),
                ..old(self).storage()
            }),
    {
        let ghost old_entries = self.ping_amounts@;
        let entry = PingAmountEntry { user, amount };
        match self.find_entry(&user) {
            Some(i) => {
                proof {
                    lemma_entries_replace(old_entries, i as int, entry);
                    assert forall|u: Address| #[trigger]
                        self.all_users@.contains(u) implies has_key(
                        old_entries.update(i as int, entry),
                        u,
                    ) by {
                        assert(entries_map(old_entries).contains_key(u));
                        assert(entries_map(old_entries.update(i as int, entry)).contains_key(u));
                    }
                }
                self.ping_amounts.set(i, entry);
            },
            None => {
                proof {
                    lemma_entries_push(old_entries, entry);
                    assert forall|u: Address| #[trigger]
                        self.all_users@.contains(u) implies has_key(old_entries.push(entry), u) by {
                        assert(entries_map(old_entries).contains_key(u));
                        assert(entries_map(old_entries.push(entry)).contains_key(u));
                    }
                }
                self.ping_amounts.push(entry);
            },
        }
    }

    fn check_not_payable(env: &CallEnv) -> (r: Option<PingPongError>)
        ensures
            r == not_payable_error(env@),
    {
        if !env.egld_value.le(&BigUint::zero()) {
            Some(PingPongError::EgldPaymentNotAccepted)
        } else if env.esdt_transfer_count > 0 {
            Some(PingPongError::EsdtPaymentNotAccepted)
        } else {
            None
        }
    }

    fn check_owner_call(env: &CallEnv) -> (r: Option<PingPongError>)
        ensures
            r == owner_call_error(env@),
    {
        match Self::check_not_payable(env) {
            Some(e) => Some(e),
            None => {
                if env.caller != env.owner {
                    Some(PingPongError::NotOwner)
                } else {
                    None
                }
            },
        }
    }

    fn write_settings(
        &mut self,
        max_ping_amount: BigUint,
        deadline: u64,
        activation_timestamp: u64,
        max_funds: BigUint,
        is_open: bool,
    )
        requires
            old(self).wf(),
        ensures
            final(self).wf(),
            final(self).storage() == old(self).storage().with_settings(
                max_ping_amount@,
                deadline,
                activation_timestamp,
                max_funds@,
                is_open,
            ),
    {
        self.max_ping_amount = max_ping_amount;
        self.deadline = deadline;
        self.activation_timestamp = activation_timestamp;
        self.max_funds = max_funds;
        self.is_open = is_open;
    }
}

impl StorageModule for PingPongContract {
    closed spec fn storage(&self) -> ContractStorage {
        ContractStorage {
            is_open: self.is_open,
            max_ping_amount: self.max_ping_amount@,
            deadline: self.deadline,
            activation_timestamp: self.activation_timestamp,
            max_funds: self.max_funds@,
            ping_amounts: entries_map(self.ping_amounts@),
            all_users: self.all_users@,
        }
    }

    closed spec fn wf(&self) -> bool {
        &&& self.all_users@.no_duplicates()
        &&& keys_distinct(self.ping_amounts@)
        &&& forall|u: Address| #[trigger]
            self.all_users@.contains(u) ==> has_key(self.ping_amounts@, u)
    }

    fn is_open(&self) -> (r: bool) {
        self.is_open
    }

    fn max_ping_amount(&self) -> (r: BigUint) {
        self.max_ping_amount.copy()
    }

    fn ping_amount(&self, user: &Address) -> (r: BigUint) {
        match self.find_entry(user) {
            Some(i) => {
                proof {
                    lemma_entries_at(self.ping_amounts@, i as int);
                }
                self.ping_amounts[i].amount.copy()
            },
            None => BigUint::zero(),
        }
    }

    fn deadline(&self) -> (r: u64) {
        self.deadline
    }

    fn activation_timestamp(&self) -> (r: u64) {
        self.activation_timestamp
    }

    fn max_funds(&self) -> (r: BigUint) {
        self.max_funds.copy()
    }

    fn all_users(&self) -> (r: Vec<Address>) {
        proof {
            assert forall|u: Address| #[trigger]
                self.all_users@.contains(u) implies entries_map(self.ping_amounts@).contains_key(
                u,
            ) by {}
        }
        self.all_users.clone()
    }
}

impl EventsModule for PingPongContract {
    fn emit_ping_event(&self, user: &Address, timestamp: u64, amount: &BigUint) -> (e: Event) {
        Event::Ping { user: *user, timestamp, amount: amount.copy() }
    }

    fn emit_pong_event(&self, user: &Address, timestamp: u64, amount: &BigUint) -> (e: Event) {
        Event::Pong { user: *user, timestamp, amount: amount.copy() }
    }
}

impl OwnerModule for PingPongContract {
    fn open_contract(&mut self, env: &CallEnv) -> (r: Result<(), PingPongError>) {
        if let Some(e) = Self::check_owner_call(env) {
            return Err(e);
        }
        self.is_open = true;
        Ok(())
    }

    fn close_contract(&mut self, env: &CallEnv) -> (r: Result<(), PingPongError>) {
        if let Some(e) = Self::check_owner_call(env) {
            return Err(e);
        }
        self.is_open = false;
        Ok(())
    }

    fn set_deadline_and_activation_timestamp(
        &mut self,
        env: &CallEnv,
        deadline: u64,
        activation_timestamp: u64,
    ) -> (r: Result<(), PingPongError>) {
        if let Some(e) = Self::check_owner_call(env) {
            return Err(e);
        }
        if activation_timestamp >= deadline {
            return Err(PingPongError::ActivationNotBeforeDeadline);
        }
        self.deadline = deadline;
        self.activation_timestamp = activation_timestamp;
        Ok(())
    }

    fn set_max_ping_amount(&mut self, env: &CallEnv, max_ping_amount: BigUint) -> (r: Result<
        (),
        PingPongError,
    >) {
        if let Some(e) = Self::check_owner_call(env) {
            return Err(e);
        }
        self.max_ping_amount = max_ping_amount;
        Ok(())
    }

    fn set_max_funds(&mut self, env: &CallEnv, max_funds: BigUint) -> (r: Result<(), PingPongError>) {
        if let Some(e) = Self::check_owner_call(env) {
            return Err(e);
        }
        self.max_funds = max_funds;
        Ok(())
    }
}

impl PingPong for PingPongContract {
    fn init(
        &mut self,
        env: &CallEnv,
        max_ping_amount: BigUint,
        deadline: u64,
        activation_timestamp: u64,
        max_funds: BigUint,
        is_open: bool,
    ) -> (r: Result<(), PingPongError>) {
        if let Some(e) = Self::check_not_payable(env) {
            return Err(e);
        }
        self.write_settings(max_ping_amount, deadline, activation_timestamp, max_funds, is_open);
        Ok(())
    }

    fn upgrade(
        &mut self,
        env: &CallEnv,
        max_ping_amount: BigUint,
        deadline: u64,
        activation_timestamp: u64,
        max_funds: BigUint,
        is_open: bool,
    ) -> (r: Result<(), PingPongError>) {
        self.init(env, max_ping_amount, deadline, activation_timestamp, max_funds, is_open)
    }

    fn ping(&mut self, env: &CallEnv) -> (r: Result<Vec<Action>, PingPongError>) {
        if env.esdt_transfer_count > 0 {
            return Err(PingPongError::EsdtPaymentRejected);
        }
        if !self.is_open {
            return Err(PingPongError::Maintenance);
        }
        let egld_amount = &env.egld_value;
        if !egld_amount.le(&self.max_ping_amount) {
            return Err(PingPongError::PingAmountTooHigh);
        }
        if !env.sc_balance.add(egld_amount).le(&self.max_funds) {
            return Err(PingPongError::ContractFull);
        }
        let block_timestamp = env.block_timestamp;
        if self.activation_timestamp > block_timestamp {
            return Err(PingPongError::NotActiveYet);
        }
        if block_timestamp > self.deadline {
            return Err(PingPongError::DeadlinePassed);
        }
        let caller = env.caller;
        if self.find_user(&caller).is_some() {
            return Err(PingPongError::AlreadyPinged);
        }
        let event = self.emit_ping_event(&caller, block_timestamp, egld_amount);
        self.set_ping_amount(caller, egld_amount.copy());
        let ghost old_users = self.all_users@;
        self.all_users.push(caller);
        proof {
            let users = self.all_users@;
            assert(entries_map(self.ping_amounts@).contains_key(caller));
            assert forall|a: int, b: int| 0 <= a < users.len() && 0 <= b < users.len() && a != b implies users[a] != users[b] by {
                if a == old_users.len() {
                    assert(users[b] == old_users[b]);
                    assert(old_users[b] != caller) by {
                        if old_users[b] == caller {
                            assert(old_users.contains(caller));
                        }
                    }
                } else if b == old_users.len() {
                    assert(users[a] == old_users[a]);
                    assert(old_users[a] != caller) by {
                        if old_users[a] == caller {
                            assert(old_users.contains(caller));
                        }
                    }
                } else {
                    assert(old_users[a] != old_users[b]);
                }
            }
            assert forall|u: Address| #[trigger] users.contains(u) implies has_key(self.ping_amounts@, u) by {
                if u != caller {
                    let a = choose|a: int| 0 <= a < users.len() && users[a] == u;
                    assert(old_users[a] == u);
                    assert(old_users.contains(u));
                }
            }
        }
        let mut actions: Vec<Action> = Vec::new();
        actions.push(Action::Emit(event));
        proof {
            assert(actions@.map_values(|a: Action| a@) =~= ping_outcome(old(self).storage(), env@)->Ok_0.1);
        }
        Ok(actions)
    }

    fn pong(&mut self, env: &CallEnv) -> (r: Result<Vec<Action>, PingPongError>) {
        if let Some(e) = Self::check_not_payable(env) {
            return Err(e);
        }
        if !self.is_open {
            return Err(PingPongError::Maintenance);
        }
        let block_timestamp = env.block_timestamp;
        if block_timestamp <= self.deadline {
            return Err(PingPongError::DeadlineNotPassed);
        }
        let caller = env.caller;
        let index = match self.find_user(&caller) {
            Some(i) => i,
            None => {
                return Err(PingPongError::NotPinged);
            },
        };
        proof {
            let users = self.all_users@;
            assert(users.contains(caller));
            let c = users.index_of(caller);
            assert(users[c] == caller);
            assert(c == index as int);
            lemma_swap_removed(users, index as int);
        }
        self.all_users.swap_remove(index);
        let ping_amount = self.ping_amount(&caller);
        let mut actions: Vec<Action> = Vec::new();
        actions.push(Action::TransferEgld { to: caller, amount: ping_amount.copy() });
        let event = self.emit_pong_event(&caller, block_timestamp, &ping_amount);
        actions.push(Action::Emit(event));
        proof {
            assert(actions@.map_values(|a: Action| a@) =~= pong_outcome(old(self).storage(), env@)->Ok_0.1);
        }
        Ok(actions)
    }
}

} // verus!
