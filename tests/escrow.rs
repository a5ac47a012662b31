use time_escrow::config::ConfigStore;
use time_escrow::error::ContractError;
use time_escrow::escrow::{Action, Escrow};
use time_escrow::store::{EscrowRecord, EscrowStore};

const START: u64 = 1571797419;

fn s(x: &str) -> String {
    x.to_string()
}

fn new_escrow() -> Escrow {
    Escrow::instantiate(s("owner"), s("usdc"))
}

#[test]
fn escrow_then_redeem_after_maturity() {
    let mut e = new_escrow();
    let config = e.query_config();
    assert_eq!(config.owner, "owner");
    assert_eq!(config.token, "usdc");

    let ev = e.receive(&s("usdc"), s("alice"), 500, 100, START).unwrap();
    assert_eq!(ev.action.name(), "escrow");
    assert_eq!(ev.depositor, "alice");
    assert_eq!(ev.amount, 500);
    assert_eq!(e.balance(), 500);
    assert_eq!(
        e.query_escrow(&s("alice")),
        Ok(EscrowRecord { amount: 500, maturity: START + 100 })
    );

    assert_eq!(
        e.receive(&s("usdc"), s("alice"), 500, 100, START).err(),
        Some(ContractError::DuplicateEscrow)
    );
    assert_eq!(
        e.redeem(&s("alice"), START).err(),
        Some(ContractError::EscrowNotMatured)
    );

    let out = e.redeem(&s("alice"), START + 100).unwrap();
    assert_eq!(out.event.action.name(), "redeem");
    assert_eq!(out.event.depositor, "alice");
    assert_eq!(out.event.amount, 500);
    assert_eq!(out.transfer.token, "usdc");
    assert_eq!(out.transfer.recipient, "alice");
    assert_eq!(out.transfer.amount, 500);
    assert_eq!(e.balance(), 0);
    assert_eq!(
        e.query_escrow(&s("alice")),
        Err(ContractError::NoActiveEscrow)
    );
}

#[test]
fn zero_amount_is_rejected() {
    let mut e = new_escrow();
    assert_eq!(
        e.receive(&s("usdc"), s("alice"), 0, 100, START).err(),
        Some(ContractError::InvalidZeroAmount)
    );
    assert_eq!(e.balance(), 0);
    assert_eq!(
        e.query_escrow(&s("alice")),
        Err(ContractError::NoActiveEscrow)
    );
}

#[test]
fn deposit_from_other_ledger_is_unauthorized() {
    let mut e = new_escrow();
    assert_eq!(
        e.receive(&s("fake"), s("alice"), 10, 100, START).err(),
        Some(ContractError::Unauthorized)
    );
    assert_eq!(e.balance(), 0);
    assert_eq!(
        e.query_escrow(&s("alice")),
        Err(ContractError::NoActiveEscrow)
    );
}

#[test]
fn duplicate_leaves_record_unchanged() {
    let mut e = new_escrow();
    e.receive(&s("usdc"), s("alice"), 300, 50, START).unwrap();
    assert_eq!(
        e.receive(&s("usdc"), s("alice"), 700, 999, START + 1).err(),
        Some(ContractError::DuplicateEscrow)
    );
    assert_eq!(
        e.query_escrow(&s("alice")),
        Ok(EscrowRecord { amount: 300, maturity: START + 50 })
    );
    assert_eq!(e.balance(), 300);
}

#[test]
fn redeem_without_escrow_fails() {
    let mut e = new_escrow();
    assert_eq!(
        e.redeem(&s("bob"), START).err(),
        Some(ContractError::NoActiveEscrow)
    );
}

#[test]
fn maturity_gate_one_second_early() {
    let mut e = new_escrow();
    e.receive(&s("usdc"), s("alice"), 42, 10, START).unwrap();
    assert_eq!(
        e.redeem(&s("alice"), START + 9).err(),
        Some(ContractError::EscrowNotMatured)
    );
    assert_eq!(e.balance(), 42);
    assert!(e.redeem(&s("alice"), START + 10).is_ok());
}

#[test]
fn redeem_later_than_maturity_succeeds() {
    let mut e = new_escrow();
    e.receive(&s("usdc"), s("alice"), 42, 10, START).unwrap();
    let out = e.redeem(&s("alice"), START + 1000).unwrap();
    assert_eq!(out.transfer.amount, 42);
}

#[test]
fn redeem_is_terminal() {
    let mut e = new_escrow();
    e.receive(&s("usdc"), s("alice"), 5, 1, START).unwrap();
    e.redeem(&s("alice"), START + 1).unwrap();
    assert_eq!(
        e.redeem(&s("alice"), START + 2).err(),
        Some(ContractError::NoActiveEscrow)
    );
    assert_eq!(
        e.query_escrow(&s("alice")),
        Err(ContractError::NoActiveEscrow)
    );
    // A new deposit creates a fresh record.
    e.receive(&s("usdc"), s("alice"), 8, 3, START + 2).unwrap();
    assert_eq!(
        e.query_escrow(&s("alice")),
        Ok(EscrowRecord { amount: 8, maturity: START + 5 })
    );
}

#[test]
fn conservation_over_several_depositors() {
    let mut e = new_escrow();
    e.receive(&s("usdc"), s("alice"), 500, 100, START).unwrap();
    e.receive(&s("usdc"), s("bob"), 250, 10, START).unwrap();
    e.receive(&s("usdc"), s("carol"), 1, 1, START).unwrap();
    assert_eq!(e.balance(), 751);
    e.redeem(&s("bob"), START + 10).unwrap();
    assert_eq!(e.balance(), 501);
    e.redeem(&s("carol"), START + 10).unwrap();
    assert_eq!(e.balance(), 500);
    assert_eq!(
        e.query_escrow(&s("alice")),
        Ok(EscrowRecord { amount: 500, maturity: START + 100 })
    );
}

#[test]
fn round_trip_pays_back_largest_amount() {
    let mut e = new_escrow();
    let amount = 999_999_999_999_999u128;
    e.receive(&s("usdc"), s("alice"), amount, 99_999, START).unwrap();
    let out = e.redeem(&s("alice"), START + 99_999).unwrap();
    assert_eq!(out.transfer.amount, amount);
    assert_eq!(e.balance(), 0);
}

#[test]
fn action_names() {
    assert_eq!(Action::Escrow.name(), "escrow");
    assert_eq!(Action::Redeem.name(), "redeem");
}

#[test]
fn config_is_set_once() {
    let mut c = ConfigStore::new();
    assert!(c.get().is_none());
    assert_eq!(c.initialize(s("owner"), s("usdc")), Ok(()));
    assert_eq!(
        c.initialize(s("other"), s("fake")),
        Err(ContractError::AlreadyInitialized)
    );
    let config = c.get().unwrap();
    assert_eq!(config.owner, "owner");
    assert_eq!(config.token, "usdc");
}

#[test]
fn store_put_get_remove() {
    let mut st = EscrowStore::new();
    let rec = EscrowRecord { amount: 7, maturity: 9 };
    assert_eq!(st.get(&s("alice")), None);
    assert_eq!(st.put_if_absent(s("alice"), rec), Ok(()));
    assert_eq!(
        st.put_if_absent(s("alice"), EscrowRecord { amount: 1, maturity: 1 }),
        Err(ContractError::DuplicateEscrow)
    );
    assert_eq!(st.put_if_absent(s("bob"), EscrowRecord { amount: 3, maturity: 4 }), Ok(()));
    assert_eq!(st.get(&s("alice")), Some(rec));
    assert_eq!(st.remove(&s("alice")), Ok(rec));
    assert_eq!(st.remove(&s("alice")), Err(ContractError::NoActiveEscrow));
    assert_eq!(st.get(&s("bob")), Some(EscrowRecord { amount: 3, maturity: 4 }));
}
