use vstd::prelude::*;

use crate::error::ContractError;
use crate::escrow::{
    deposit_spec, escrowed_total, lemma_total_remove, query_spec, redeem_spec, valid_state,
    EscrowState,
};
use crate::store::EscrowRecord;

verus! {

/// One state-changing call on an escrow, with its inputs.
pub enum Operation {
    Deposit { ledger: Seq<char>, sender: Seq<char>, amount: u128, lock_duration: u64, now: u64 },
    Redeem { caller: Seq<char>, now: u64 },
}

/// The state after one operation, or the error it fails with.
pub open spec fn step(s: EscrowState, op: Operation) -> Result<EscrowState, ContractError> {
    match op {
        Operation::Deposit { ledger, sender, amount, lock_duration, now } => deposit_spec(
            s,
            ledger,
            sender,
            amount,
            lock_duration,
            now,
        ),
        Operation::Redeem { caller, now } => match redeem_spec(s, caller, now) {
            Ok((t, _)) => Ok(t),
            Err(e) => Err(e),
        },
    }
}

/// The state after the operations `ops` in order, or the first error.
pub open spec fn run(s: EscrowState, ops: Seq<Operation>) -> Result<EscrowState, ContractError>
    decreases ops.len(),
{
    if ops.len() == 0 {
        Ok(s)
    } else {
        match run(s, ops.drop_last()) {
            Ok(t) => step(t, ops.last()),
            Err(e) => Err(e),
        }
    }
}

proof fn lemma_step_valid(s: EscrowState, op: Operation)
    requires
        valid_state(s),
        step(s, op) is Ok,
    ensures
        valid_state(step(s, op)->Ok_0),
{
    let t = step(s, op)->Ok_0;
    match op {
        Operation::Deposit { ledger, sender, amount, lock_duration, now } => {
            lemma_total_remove(t.records, sender);
            assert(t.records.remove(sender) =~= s.records);
        },
        Operation::Redeem { caller, now } => {
            lemma_total_remove(s.records, caller);
        },
    }
}

/// Conservation: along any sequence of operations that all succeed, the
/// balance held stays equal to the sum of the amounts of the active records
/// (and no record is ever for zero).
pub proof fn lemma_conservation(s: EscrowState, ops: Seq<Operation>)
    requires
        valid_state(s),
        run(s, ops) is Ok,
    ensures
        valid_state(run(s, ops)->Ok_0),
        run(s, ops)->Ok_0.held == escrowed_total(run(s, ops)->Ok_0.records),
    decreases ops.len(),
{
    if ops.len() > 0 {
        lemma_conservation(s, ops.drop_last());
        lemma_step_valid(run(s, ops.drop_last())->Ok_0, ops.last());
    }
}

/// No duplicate escrow: a valid deposit notification from a depositor that
/// already has an active record fails with `DuplicateEscrow`.
pub proof fn lemma_no_duplicate_escrow(
    s: EscrowState,
    sender: Seq<char>,
    amount: u128,
    lock_duration: u64,
    now: u64,
)
    requires
        s.records.contains_key(sender),
        amount > 0,
    ensures
        deposit_spec(s, s.token, sender, amount, lock_duration, now) == Err::<
            EscrowState,
            ContractError,
        >(ContractError::DuplicateEscrow),
{
}

/// Maturity gate: for an active record, redemption before its maturity fails
/// with `EscrowNotMatured`, and at or after it succeeds.
pub proof fn lemma_maturity_gate(s: EscrowState, caller: Seq<char>, now: u64)
    requires
        s.records.contains_key(caller),
    ensures
        now < s.records[caller].maturity ==> redeem_spec(s, caller, now) == Err::<
            (EscrowState, u128),
            ContractError,
        >(ContractError::EscrowNotMatured),
        now >= s.records[caller].maturity ==> redeem_spec(s, caller, now) is Ok,
{
}

/// Zero rejected: a deposit notification of zero fails with
/// `InvalidZeroAmount`, so no record is created.
pub proof fn lemma_zero_rejected(
    s: EscrowState,
    ledger: Seq<char>,
    sender: Seq<char>,
    lock_duration: u64,
    now: u64,
)
    ensures
        deposit_spec(s, ledger, sender, 0, lock_duration, now) == Err::<
            EscrowState,
            ContractError,
        >(ContractError::InvalidZeroAmount),
{
}

/// Redeem is terminal: after a successful redemption, redeeming again at any
/// time, or querying, fails with `NoActiveEscrow`.
pub proof fn lemma_redeem_terminal(s: EscrowState, caller: Seq<char>, now: u64, later: u64)
    requires
        redeem_spec(s, caller, now) is Ok,
    ensures
        redeem_spec(redeem_spec(s, caller, now)->Ok_0.0, caller, later) == Err::<
            (EscrowState, u128),
            ContractError,
        >(ContractError::NoActiveEscrow),
        query_spec(redeem_spec(s, caller, now)->Ok_0.0, caller) == Err::<
            EscrowRecord,
            ContractError,
        >(ContractError::NoActiveEscrow),
{
}

/// Whether `op` is a deposit notification for `who`.
pub open spec fn is_deposit_by(op: Operation, who: Seq<char>) -> bool {
    match op {
        Operation::Deposit { sender, .. } => sender == who,
        Operation::Redeem { .. } => false,
    }
}

/// A depositor without an active record stays without one, and queries for
/// it fail with `NoActiveEscrow`, along any successful run of operations
/// that holds no deposit notification for it.
pub proof fn lemma_absent_until_deposit(s: EscrowState, who: Seq<char>, ops: Seq<Operation>)
    requires
        !s.records.contains_key(who),
        run(s, ops) is Ok,
        forall|i: int| 0 <= i < ops.len() ==> !is_deposit_by(#[trigger] ops[i], who),
    ensures
        !run(s, ops)->Ok_0.records.contains_key(who),
        query_spec(run(s, ops)->Ok_0, who) == Err::<EscrowRecord, ContractError>(
            ContractError::NoActiveEscrow,
        ),
    decreases ops.len(),
{
    if ops.len() > 0 {
        let init = ops.drop_last();
        assert forall|i: int| 0 <= i < init.len() implies !is_deposit_by(#[trigger] init[i], who) by {
            assert(init[i] == ops[i]);
        }
        lemma_absent_until_deposit(s, who, init);
        assert(!is_deposit_by(ops[ops.len() - 1], who));
    }
}

/// Round trip: a successful deposit followed by a successful redemption by
/// the same depositor pays back exactly the amount deposited, and leaves the
/// escrow as it was before the deposit.
pub proof fn lemma_round_trip(
    s: EscrowState,
    ledger: Seq<char>,
    sender: Seq<char>,
    amount: u128,
    lock_duration: u64,
    now: u64,
    later: u64,
)
    requires
        deposit_spec(s, ledger, sender, amount, lock_duration, now) is Ok,
        redeem_spec(
            deposit_spec(s, ledger, sender, amount, lock_duration, now)->Ok_0,
            sender,
            later,
        ) is Ok,
    ensures
        redeem_spec(
            deposit_spec(s, ledger, sender, amount, lock_duration, now)->Ok_0,
            sender,
            later,
        )->Ok_0.1 == amount,
        redeem_spec(
            deposit_spec(s, ledger, sender, amount, lock_duration, now)->Ok_0,
            sender,
            later,
        )->Ok_0.0 == s,
{
    let t = deposit_spec(s, ledger, sender, amount, lock_duration, now)->Ok_0;
    assert(t.records.remove(sender) =~= s.records);
}

} // verus!
