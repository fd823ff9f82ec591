use ping_pong::address::Address;
use ping_pong::biguint::BigUint;
use ping_pong::contract::PingPongContract;
use ping_pong::env::{Action, CallEnv, Event};
use ping_pong::error::PingPongError;
use ping_pong::storage::StorageModule;
use ping_pong::PingPong;

const MAX_PING_AMOUNT: u64 = 1_000;
const DEADLINE: u64 = 10_000;
const ACTIVATION_TIMESTAMP: u64 = 100;
const MAX_FUNDS: u64 = 500;

fn owner() -> Address {
    Address::from_words(0x6f776e65725f5f5f, 0x5f5f5f5f5f5f5f5f, 0x5f5f5f5f5f5f5f5f, 0x5f5f5f5f5f5f5f5f)
}

fn second_user() -> Address {
    Address::from_words(0x7365636f6e642d75, 0x7365725f5f5f5f5f, 0x5f5f5f5f5f5f5f5f, 0x5f5f5f5f5f5f5f5f)
}

fn call(caller: Address, block_timestamp: u64, egld: u64, sc_balance: u64) -> CallEnv {
    CallEnv {
        caller,
        owner: owner(),
        block_timestamp,
        egld_value: BigUint::from_u64(egld),
        esdt_transfer_count: 0,
        sc_balance: BigUint::from_u64(sc_balance),
    }
}

fn value(n: &BigUint) -> u128 {
    let limbs = n.to_limbs();
    let mut v: u128 = 0;
    for (i, l) in limbs.iter().enumerate() {
        assert!(i < 2 || *l == 0);
        if i < 2 {
            v += (*l as u128) << (64 * i);
        }
    }
    v
}

fn deploy(block_timestamp: u64, is_open: bool) -> PingPongContract {
    let mut contract = PingPongContract::new();
    let result = contract.init(
        &call(owner(), block_timestamp, 0, 0),
        BigUint::from_u64(MAX_PING_AMOUNT),
        DEADLINE,
        ACTIVATION_TIMESTAMP,
        BigUint::from_u64(MAX_FUNDS),
        is_open,
    );
    assert_eq!(result, Ok(()));
    contract
}

#[test]
fn ping_pong_blackbox() {
    let contract = deploy(0, false);
    assert!(!contract.is_open());
    assert_eq!(value(&contract.max_ping_amount()), 1_000);
    assert_eq!(contract.deadline(), DEADLINE);
    assert_eq!(contract.activation_timestamp(), ACTIVATION_TIMESTAMP);
    assert_eq!(value(&contract.max_funds()), 500);
    assert!(contract.all_users().is_empty());
}

#[test]
fn ping_pong_blackbox_timestamp() {
    let mut contract = deploy(10, true);

    // The deposit arrives with the call, so the chain reports it in the balance.
    let early = contract.ping(&call(second_user(), 10, 10, 10));
    let err = early.err().unwrap();
    assert_eq!(err.return_code(), 4u64);
    assert_eq!(err.message(), "smart contract not active yet");

    let on_time = contract.ping(&call(second_user(), 101, 10, 10));
    let actions = on_time.unwrap();
    assert_eq!(actions.len(), 1);
    match &actions[0] {
        Action::Emit(Event::Ping { user, timestamp, amount }) => {
            assert_eq!(*user, second_user());
            assert_eq!(*timestamp, 101);
            assert_eq!(value(amount), 10);
        },
        _ => panic!("expected a ping event"),
    }

    let vec_of_users = contract.all_users();
    assert!(vec_of_users.contains(&second_user()));

    let ping_amount = contract.ping_amount(&second_user());
    assert_eq!(value(&ping_amount), 10);
}

#[test]
fn ping_pong_go() {
    // The trace of the deployment in `ping_pong_blackbox`.
    let contract = deploy(0, false);
    assert!(!contract.is_open());
    assert!(contract.all_users().is_empty());
}

#[test]
fn ping_pong_go2() {
    // The trace of `ping_pong_blackbox_timestamp`.
    let mut contract = deploy(10, true);
    assert_eq!(
        contract.ping(&call(second_user(), 10, 10, 10)).err(),
        Some(PingPongError::NotActiveYet)
    );
    assert!(contract.ping(&call(second_user(), 101, 10, 10)).is_ok());
    assert_eq!(contract.all_users(), vec![second_user()]);
    assert_eq!(value(&contract.ping_amount(&second_user())), 10);
}

#[test]
fn ping_pong_rs() {
    let contract = deploy(0, false);
    assert_eq!(contract.deadline(), DEADLINE);
    assert_eq!(contract.activation_timestamp(), ACTIVATION_TIMESTAMP);
}
