use ping_pong::address::Address;
use ping_pong::biguint::BigUint;
use ping_pong::contract::PingPongContract;
use ping_pong::env::{Action, CallEnv, Event};
use ping_pong::error::PingPongError;
use ping_pong::events::EventsModule;
use ping_pong::owner::OwnerModule;
use ping_pong::state::State;
use ping_pong::storage::StorageModule;
use ping_pong::PingPong;

fn addr(n: u64) -> Address {
    Address::from_words(0, 0, 0, n)
}

fn owner() -> Address {
    addr(1)
}

fn env(caller: Address, block_timestamp: u64, egld: u64, sc_balance: u64) -> CallEnv {
    CallEnv {
        caller,
        owner: owner(),
        block_timestamp,
        egld_value: BigUint::from_u64(egld),
        esdt_transfer_count: 0,
        sc_balance: BigUint::from_u64(sc_balance),
    }
}

fn value(n: &BigUint) -> u128 {
    let mut v: u128 = 0;
    for (i, l) in n.to_limbs().iter().enumerate() {
        if i < 2 {
            v += (*l as u128) << (64 * i);
        } else {
            assert_eq!(*l, 0);
        }
    }
    v
}

/// Max ping 100, window [100, 1000], max funds 250, open.
fn deployed() -> PingPongContract {
    let mut c = PingPongContract::new();
    c.init(&env(owner(), 0, 0, 0), BigUint::from_u64(100), 1000, 100, BigUint::from_u64(250), true)
        .unwrap();
    c
}

fn err_of(r: Result<Vec<Action>, PingPongError>) -> PingPongError {
    match r {
        Ok(_) => panic!("expected an error"),
        Err(e) => e,
    }
}

#[test]
fn fresh_contract_storage_is_empty() {
    let c = PingPongContract::new();
    assert!(!c.is_open());
    assert_eq!(value(&c.max_ping_amount()), 0);
    assert_eq!(value(&c.max_funds()), 0);
    assert_eq!(c.deadline(), 0);
    assert_eq!(c.activation_timestamp(), 0);
    assert!(c.all_users().is_empty());
    assert_eq!(value(&c.ping_amount(&addr(7))), 0);
}

#[test]
fn init_refuses_payment() {
    let mut c = PingPongContract::new();
    let r = c.init(&env(owner(), 0, 5, 0), BigUint::from_u64(100), 1000, 100, BigUint::from_u64(250), true);
    assert_eq!(r, Err(PingPongError::EgldPaymentNotAccepted));
    assert_eq!(r.unwrap_err().return_code(), 10);
    assert!(!c.is_open());
    let mut e = env(owner(), 0, 0, 0);
    e.esdt_transfer_count = 1;
    let r = c.init(&e, BigUint::from_u64(100), 1000, 100, BigUint::from_u64(250), true);
    assert_eq!(r, Err(PingPongError::EsdtPaymentNotAccepted));
    assert_eq!(PingPongError::EsdtPaymentNotAccepted.message(), "function does not accept ESDT payment");
}

#[test]
fn ping_then_pong_refunds_deposit() {
    let mut c = deployed();
    let user = addr(2);
    c.ping(&env(user, 500, 40, 40)).unwrap();
    assert_eq!(c.all_users(), vec![user]);
    let actions = c.pong(&env(user, 1001, 0, 40)).unwrap();
    assert_eq!(actions.len(), 2);
    match &actions[0] {
        Action::TransferEgld { to, amount } => {
            assert_eq!(*to, user);
            assert_eq!(value(amount), 40);
        },
        _ => panic!("expected a transfer"),
    }
    match &actions[1] {
        Action::Emit(Event::Pong { user: u, timestamp, amount }) => {
            assert_eq!(*u, user);
            assert_eq!(*timestamp, 1001);
            assert_eq!(value(amount), 40);
        },
        _ => panic!("expected a pong event"),
    }
    assert!(c.all_users().is_empty());
    // The recorded amount stays in storage after the refund.
    assert_eq!(value(&c.ping_amount(&user)), 40);
}

#[test]
fn ping_errors_in_order() {
    let mut c = deployed();
    let user = addr(2);
    let mut e = env(user, 500, 10, 10);
    e.esdt_transfer_count = 1;
    let err = err_of(c.ping(&e));
    assert_eq!(err, PingPongError::EsdtPaymentRejected);
    assert_eq!(err.return_code(), 4);
    assert_eq!(err.message(), "function does not accept ESDT payment");
    let err = err_of(c.ping(&env(user, 500, 101, 101)));
    assert_eq!(err, PingPongError::PingAmountTooHigh);
    assert_eq!(err.message(), "the egld_amount must be lower or equal to the max ping amount");
    let err = err_of(c.ping(&env(user, 500, 100, 200)));
    assert_eq!(err, PingPongError::ContractFull);
    assert_eq!(err.message(), "contract is full");
    // Exactly at the limits is accepted.
    assert!(c.ping(&env(user, 1000, 100, 150)).is_ok());
    let err = err_of(c.ping(&env(user, 1000, 1, 1)));
    assert_eq!(err, PingPongError::AlreadyPinged);
    assert_eq!(err.message(), "caller already pinged");
    let err = err_of(c.ping(&env(addr(3), 1001, 1, 1)));
    assert_eq!(err, PingPongError::DeadlinePassed);
    assert_eq!(err.message(), "cannot ping anymore, deadline has passed");
    let err = err_of(c.ping(&env(addr(3), 99, 1, 1)));
    assert_eq!(err, PingPongError::NotActiveYet);
    assert_eq!(c.all_users(), vec![user]);
}

#[test]
fn closed_contract_answers_maintenance() {
    let mut c = deployed();
    c.ping(&env(addr(2), 500, 10, 10)).unwrap();
    assert_eq!(c.close_contract(&env(owner(), 600, 0, 10)), Ok(()));
    assert!(!c.is_open());
    let err = err_of(c.ping(&env(addr(3), 500, 10, 10)));
    assert_eq!(err, PingPongError::Maintenance);
    assert_eq!(err.message(), "maintenance");
    assert_eq!(err_of(c.pong(&env(addr(2), 1001, 0, 10))), PingPongError::Maintenance);
    assert_eq!(c.open_contract(&env(owner(), 1001, 0, 10)), Ok(()));
    assert!(c.is_open());
    assert!(c.pong(&env(addr(2), 1001, 0, 10)).is_ok());
}

#[test]
fn pong_errors() {
    let mut c = deployed();
    c.ping(&env(addr(2), 500, 10, 10)).unwrap();
    let err = err_of(c.pong(&env(addr(2), 1000, 0, 10)));
    assert_eq!(err, PingPongError::DeadlineNotPassed);
    assert_eq!(err.message(), "cannot pong yet, deadline has not passed");
    let err = err_of(c.pong(&env(addr(3), 1001, 0, 10)));
    assert_eq!(err, PingPongError::NotPinged);
    assert_eq!(err.message(), "caller has not pinged");
    let err = err_of(c.pong(&env(addr(2), 1001, 1, 10)));
    assert_eq!(err, PingPongError::EgldPaymentNotAccepted);
    assert_eq!(err.message(), "function does not accept EGLD payment");
    assert_eq!(err.return_code(), 10);
    assert_eq!(c.all_users(), vec![addr(2)]);
}

#[test]
fn pong_moves_last_user_into_the_gap() {
    let mut c = deployed();
    for n in 2..6u64 {
        c.ping(&env(addr(n), 500, n, 10)).unwrap();
    }
    assert_eq!(c.all_users(), vec![addr(2), addr(3), addr(4), addr(5)]);
    c.pong(&env(addr(3), 2000, 0, 10)).unwrap();
    assert_eq!(c.all_users(), vec![addr(2), addr(5), addr(4)]);
    c.pong(&env(addr(4), 2000, 0, 10)).unwrap();
    assert_eq!(c.all_users(), vec![addr(2), addr(5)]);
    assert_eq!(value(&c.ping_amount(&addr(2))), 2);
    assert_eq!(value(&c.ping_amount(&addr(5))), 5);
}

#[test]
fn repeated_ping_after_pong_overwrites_amount() {
    let mut c = deployed();
    c.ping(&env(addr(2), 500, 30, 30)).unwrap();
    c.set_deadline_and_activation_timestamp(&env(owner(), 600, 0, 30), 700, 100).unwrap();
    c.pong(&env(addr(2), 701, 0, 30)).unwrap();
    c.set_deadline_and_activation_timestamp(&env(owner(), 702, 0, 0), 2000, 100).unwrap();
    c.ping(&env(addr(2), 800, 20, 20)).unwrap();
    assert_eq!(value(&c.ping_amount(&addr(2))), 20);
}

#[test]
fn owner_endpoints() {
    let mut c = deployed();
    let stranger = env(addr(9), 0, 0, 0);
    for r in [
        c.open_contract(&stranger),
        c.close_contract(&stranger),
        c.set_max_funds(&stranger, BigUint::from_u64(1)),
        c.set_max_ping_amount(&stranger, BigUint::from_u64(1)),
        c.set_deadline_and_activation_timestamp(&stranger, 10, 5),
    ] {
        assert_eq!(r, Err(PingPongError::NotOwner));
    }
    assert_eq!(PingPongError::NotOwner.message(), "Endpoint can only be called by owner");
    assert_eq!(value(&c.max_funds()), 250);
    let o = env(owner(), 0, 0, 0);
    assert_eq!(
        c.set_deadline_and_activation_timestamp(&o, 10, 10),
        Err(PingPongError::ActivationNotBeforeDeadline)
    );
    assert_eq!(
        PingPongError::ActivationNotBeforeDeadline.message(),
        "activation timestamp cannot be after deadline"
    );
    assert_eq!(c.deadline(), 1000);
    assert_eq!(c.set_deadline_and_activation_timestamp(&o, 10, 9), Ok(()));
    assert_eq!((c.deadline(), c.activation_timestamp()), (10, 9));
    c.set_max_funds(&o, BigUint::from_u64(7)).unwrap();
    c.set_max_ping_amount(&o, BigUint::from_u64(3)).unwrap();
    assert_eq!(value(&c.max_funds()), 7);
    assert_eq!(value(&c.max_ping_amount()), 3);
    assert_eq!(c.open_contract(&env(owner(), 0, 1, 0)), Err(PingPongError::EgldPaymentNotAccepted));
}

#[test]
fn upgrade_keeps_users() {
    let mut c = deployed();
    c.ping(&env(addr(2), 500, 10, 10)).unwrap();
    c.upgrade(&env(owner(), 600, 0, 10), BigUint::from_u64(5), 50, 1, BigUint::from_u64(6), false)
        .unwrap();
    assert_eq!(c.all_users(), vec![addr(2)]);
    assert_eq!(value(&c.ping_amount(&addr(2))), 10);
    assert!(!c.is_open());
    assert_eq!((c.deadline(), c.activation_timestamp()), (50, 1));
    assert_eq!(value(&c.max_ping_amount()), 5);
    assert_eq!(value(&c.max_funds()), 6);
}

#[test]
fn events_carry_their_fields() {
    let c = PingPongContract::new();
    match c.emit_ping_event(&addr(4), 77, &BigUint::from_u64(9)) {
        Event::Ping { user, timestamp, amount } => {
            assert_eq!((user, timestamp, value(&amount)), (addr(4), 77, 9));
        },
        _ => panic!("expected a ping event"),
    }
    match c.emit_pong_event(&addr(5), 78, &BigUint::from_u64(8)) {
        Event::Pong { user, timestamp, amount } => {
            assert_eq!((user, timestamp, value(&amount)), (addr(5), 78, 8));
        },
        _ => panic!("expected a pong event"),
    }
}

#[test]
fn big_amounts_do_not_overflow() {
    let max = BigUint::from_u128(u128::MAX);
    let one = BigUint::from_u64(1);
    let sum = max.add(&one);
    assert_eq!(sum.to_limbs(), vec![0, 0, 1]);
    assert!(max.le(&sum));
    assert!(!sum.le(&max));
    assert!(sum.le(&sum));
    let a = BigUint::from_u64(u64::MAX);
    assert_eq!(a.add(&a).to_limbs(), vec![u64::MAX - 1, 1]);
    assert!(BigUint::zero().le(&BigUint::from_limbs(vec![0, 0, 0])));
    assert!(BigUint::from_limbs(vec![0, 0, 0]).to_limbs().is_empty());
    assert_eq!(BigUint::from_limbs(vec![7, 0, 9, 0, 0]).to_limbs(), vec![7, 0, 9]);
    assert!(BigUint::from_limbs(vec![0, 0, 0]).le(&BigUint::zero()));
    assert!(!BigUint::from_limbs(vec![0, 0, 5]).le(&BigUint::from_limbs(vec![u64::MAX, u64::MAX])));
    assert_eq!(value(&BigUint::from_u128(0x1234_0000_0000_0000_5678)), 0x1234_0000_0000_0000_5678);
    assert_eq!(value(&BigUint::from_u64(3).copy()), 3);
}

#[test]
fn huge_limits_are_honoured() {
    let mut c = PingPongContract::new();
    let huge = BigUint::from_limbs(vec![0, 0, 0, 1]);
    c.init(&env(owner(), 0, 0, 0), huge.copy(), 1000, 0, huge.copy(), true).unwrap();
    let mut e = env(addr(2), 10, 0, 0);
    e.egld_value = BigUint::from_u128(u128::MAX);
    e.sc_balance = BigUint::from_u128(u128::MAX);
    assert!(c.ping(&e).is_ok());
    assert_eq!(value(&c.ping_amount(&addr(2))), u128::MAX);
}

#[test]
fn interactor_state_keeps_address() {
    let mut s = State::default();
    assert!(s.contract_address.is_none());
    s.set_address("erd1qqqqqqqqqqqqqpgq".to_string());
    assert_eq!(s.current_address(), "erd1qqqqqqqqqqqqqpgq");
}

#[test]
fn deployment_is_recorded_as_bech32() {
    let mut s = State::default();
    let alice = Address::from_words(
        0x0139472eff688677,
        0x1a982f3083da5d42,
        0x1f24c29181e63888,
        0x228dc81ca60d69e1,
    );
    s.record_deployment(&alice);
    assert_eq!(s.current_address(), "erd1qyu5wthldzr8wx5c9ucg8kjagg0jfs53s8nr3zpz3hypefsdd8ssycr6th");
    s.record_deployment(&Address::from_words(0, 0, 0, 0));
    assert_eq!(s.current_address(), "erd1qqqqqqqqqqqqqqqqqqqqqqqqqqqqqqqqqqqqqqqqqqqqqqqqqqqq6gq4hu");
}

#[test]
fn refund_survives_other_calls_and_is_paid_once() {
    let mut c = deployed();
    let a = addr(2);
    let b = addr(3);
    c.ping(&env(a, 200, 70, 70)).unwrap();
    c.set_max_ping_amount(&env(owner(), 300, 0, 70), BigUint::from_u64(5)).unwrap();
    c.upgrade(&env(owner(), 300, 0, 70), BigUint::from_u64(100), 1000, 100, BigUint::from_u64(250), true)
        .unwrap();
    c.ping(&env(b, 400, 30, 100)).unwrap();
    c.pong(&env(b, 1001, 0, 100)).unwrap();
    assert_eq!(value(&c.ping_amount(&a)), 70);
    let actions = c.pong(&env(a, 1002, 0, 70)).unwrap();
    match &actions[0] {
        Action::TransferEgld { to, amount } => {
            assert_eq!(*to, a);
            assert_eq!(value(amount), 70);
        },
        _ => panic!("expected a transfer"),
    }
    assert_eq!(c.pong(&env(a, 1003, 0, 0)).err(), Some(PingPongError::NotPinged));
}

#[test]
fn balance_always_covers_deposits() {
    let mut c = deployed();
    let mut balance: u64 = 0;
    let mut owed: u64 = 0;
    for (n, amount) in [(2u64, 40u64), (3, 60), (4, 25)] {
        // The chain reports the balance with the payment already in it.
        c.ping(&env(addr(n), 500, amount, balance + amount)).unwrap();
        balance += amount;
        owed += amount;
        assert!(owed <= balance);
    }
    for n in [3u64, 2, 4] {
        let actions = c.pong(&env(addr(n), 1001, 0, balance)).unwrap();
        for action in actions.iter() {
            if let Action::TransferEgld { amount, .. } = action {
                let paid = value(amount) as u64;
                assert!(paid <= balance);
                balance -= paid;
                owed -= paid;
            }
        }
        assert!(owed <= balance);
    }
    assert_eq!(balance, 0);
    assert!(c.all_users().is_empty());
}
