use vstd::prelude::*;

use crate::config::{Config, ConfigStore};
use crate::error::ContractError;
use crate::store::{EscrowRecord, EscrowStore};

verus! {

/// The kind of state change that an event reports.
#[derive(Clone, Copy, Debug, PartialEq, Eq, Structural)]
pub enum Action {
    Escrow,
    Redeem,
}

impl Action {
    /// The name under which the event is published.
    pub fn name(&self) -> (r: &'static str)
        ensures
            *self == Action::Escrow ==> r@ == "escrow"@,
            *self == Action::Redeem ==> r@ == "redeem"@,
    {
        proof {
            reveal_strlit("escrow");
            reveal_strlit("redeem");
        }
        match self {
            Action::Escrow => "escrow",
            Action::Redeem => "redeem",
        }
    }
}

/// What a successful state change publishes.
pub struct Event {
    pub action: Action,
    pub depositor: String,
    pub amount: u128,
}

/// An instruction to the token ledger `token`: move `amount` from the
/// escrow's balance to `recipient`.
pub struct Transfer {
    pub token: String,
    pub recipient: String,
    pub amount: u128,
}

/// What a successful redemption hands out: the return transfer and its event.
pub struct Redemption {
    pub transfer: Transfer,
    pub event: Event,
}

/// The abstract state of an escrow: its configuration, the active records by
/// depositor, and the balance that the token ledger holds for it.
pub struct EscrowState {
    pub owner: Seq<char>,
    pub token: Seq<char>,
    pub records: Map<Seq<char>, EscrowRecord>,
    pub held: int,
}

/// The sum of the amounts of all records in `m`.
pub open spec fn escrowed_total(m: Map<Seq<char>, EscrowRecord>) -> int
    decreases m.dom().len(),
    when m.dom().finite()
{
    if m.dom().len() == 0 {
        0
    } else {
        let k = m.dom().choose();
        m[k].amount + escrowed_total(m.remove(k))
    }
}

/// Taking one record out of `m` lowers the total by its amount.
pub proof fn lemma_total_remove(m: Map<Seq<char>, EscrowRecord>, k: Seq<char>)
    requires
        m.dom().finite(),
        m.contains_key(k),
    ensures
        escrowed_total(m) == m[k].amount + escrowed_total(m.remove(k)),
    decreases m.dom().len(),
{
    assert(m.dom().len() > 0) by {
        if m.dom().len() == 0 {
            m.dom().lemma_len0_is_empty();
        }
    }
    let c = m.dom().choose();
    if c != k {
        lemma_total_remove(m.remove(c), k);
        lemma_total_remove(m.remove(k), c);
        assert(m.remove(c).remove(k) =~= m.remove(k).remove(c));
    }
}

/// A total is never negative.
pub proof fn lemma_total_nonneg(m: Map<Seq<char>, EscrowRecord>)
    requires
        m.dom().finite(),
    ensures
        escrowed_total(m) >= 0,
    decreases m.dom().len(),
{
    if m.dom().len() > 0 {
        lemma_total_nonneg(m.remove(m.dom().choose()));
    }
}

/// The balance held equals the sum of the escrowed amounts, and no record is
/// for zero.
pub open spec fn valid_state(s: EscrowState) -> bool {
    &&& s.records.dom().finite()
    &&& s.held == escrowed_total(s.records)
    &&& forall|k: Seq<char>| #[trigger] s.records.contains_key(k) ==> s.records[k].amount > 0
}

/// The outcome of a deposit notification from `ledger` reporting that
/// `sender` sent `amount`, asking for a lock of `lock_duration` from `now`.
pub open spec fn deposit_spec(
    s: EscrowState,
    ledger: Seq<char>,
    sender: Seq<char>,
    amount: u128,
    lock_duration: u64,
    now: u64,
) -> Result<EscrowState, ContractError> {
    if amount == 0 {
        Err(ContractError::InvalidZeroAmount)
    } else if ledger != s.token {
        Err(ContractError::Unauthorized)
    } else if s.records.contains_key(sender) {
        Err(ContractError::DuplicateEscrow)
    } else {
        Ok(
            EscrowState {
                owner: s.owner,
                token: s.token,
                records: s.records.insert(
                    sender,
                    EscrowRecord { amount, maturity: (now + lock_duration) as u64 },
                ),
                held: s.held + amount,
            },
        )
    }
}

/// The outcome of a redemption by `caller` at time `now`: the next state and
/// the amount paid back.
pub open spec fn redeem_spec(s: EscrowState, caller: Seq<char>, now: u64) -> Result<
    (EscrowState, u128),
    ContractError,
> {
    if !s.records.contains_key(caller) {
        Err(ContractError::NoActiveEscrow)
    } else if now < s.records[caller].maturity {
        Err(ContractError::EscrowNotMatured)
    } else {
        Ok(
            (
                EscrowState {
                    owner: s.owner,
                    token: s.token,
                    records: s.records.remove(caller),
                    held: s.held - s.records[caller].amount,
                },
                s.records[caller].amount,
            ),
        )
    }
}

/// The answer to a query for the escrow of `depositor`.
pub open spec fn query_spec(s: EscrowState, depositor: Seq<char>) -> Result<
    EscrowRecord,
    ContractError,
> {
    if s.records.contains_key(depositor) {
        Ok(s.records[depositor])
    } else {
        Err(ContractError::NoActiveEscrow)
    }
}

/// One escrow contract instance: its configuration, its records, and the
/// token balance that the ledger holds for it.
pub struct Escrow {
    config: ConfigStore,
    store: EscrowStore,
    held: u128,
}

impl View for Escrow {
    type V = EscrowState;

    closed spec fn view(&self) -> EscrowState {
        EscrowState {
            owner: self.config.current()->Some_0.owner@,
            token: self.config.current()->Some_0.token@,
            records: self.store@,
            held: self.held as int,
        }
    }
}

impl Escrow {
    /// The configuration is set, the store is well formed, and the state
    /// is valid.
    pub closed spec fn wf(&self) -> bool {
        &&& self.config.current() is Some
        &&& self.store.wf()
        &&& valid_state(self@)
    }

    /// A new escrow with no records, owned by `owner` and trusting the token
    /// ledger `token`.
    pub fn instantiate(owner: String, token: String) -> (r: Escrow)
        ensures
            r.wf(),
            r@.owner == owner@,
            r@.token == token@,
            r@.records == Map::<Seq<char>, EscrowRecord>::empty(),
            r@.held == 0,
    {
        let mut config = ConfigStore::new();
        let _ = config.initialize(owner, token);
        let r = Escrow { config, store: EscrowStore::new(), held: 0 };
        assert(r@.records.dom() =~= Set::empty());
        r
    }

    /// Handles a notification from `ledger` that `sender` sent `amount`
    /// tokens with the instruction to escrow them for `lock_duration`
    /// seconds. On success the record `{amount, now + lock_duration}` is
    /// stored and an escrow event returned; on failure nothing changes.
    pub fn receive(
        &mut self,
        ledger: &String,
        sender: String,
        amount: u128,
        lock_duration: u64,
        now: u64,
    ) -> (r: Result<Event, ContractError>)
        requires
            old(self).wf(),
            old(self)@.held + amount <= u128::MAX,
            now + lock_duration <= u64::MAX,
        ensures
            final(self).wf(),
            match deposit_spec(old(self)@, ledger@, sender@, amount, lock_duration, now) {
                Ok(s) => {
                    &&& final(self)@ == s
                    &&& r is Ok
                    &&& r->Ok_0.action == Action::Escrow
                    &&& r->Ok_0.depositor@ == sender@
                    &&& r->Ok_0.amount == amount
                },
                Err(e) => final(self)@ == old(self)@ && r == Err::<Event, ContractError>(e),
            },
    {
        if amount == 0 {
            return Err(ContractError::InvalidZeroAmount);
        }
        let trusted = *ledger == self.config.get().unwrap().token;
        if !trusted {
            return Err(ContractError::Unauthorized);
        }
        let ghost s0 = self@;
        let depositor = sender.clone();
        let record = EscrowRecord { amount, maturity: now + lock_duration };
        match self.store.put_if_absent(sender, record) {
            Err(e) => Err(e),
            Ok(()) => {
                self.held = self.held + amount;
                proof {
                    lemma_total_remove(self.store@, depositor@);
                    assert(self.store@.remove(depositor@) =~= s0.records);
                }
                Ok(Event { action: Action::Escrow, depositor, amount })
            },
        }
    }

    /// Handles a redemption by `caller` at time `now`. On success the record
    /// is deleted and the transfer of its amount back to `caller` returned
    /// with a redeem event; on failure nothing changes.
    pub fn redeem(&mut self, caller: &String, now: u64) -> (r: Result<Redemption, ContractError>)
        requires
            old(self).wf(),
        ensures
            final(self).wf(),
            match redeem_spec(old(self)@, caller@, now) {
                Ok((s, paid)) => {
                    &&& final(self)@ == s
                    &&& r is Ok
                    &&& r->Ok_0.transfer.token@ == old(self)@.token
                    &&& r->Ok_0.transfer.recipient@ == caller@
                    &&& r->Ok_0.transfer.amount == paid
                    &&& r->Ok_0.event.action == Action::Redeem
                    &&& r->Ok_0.event.depositor@ == caller@
                    &&& r->Ok_0.event.amount == paid
                },
                Err(e) => final(self)@ == old(self)@ && r == Err::<Redemption, ContractError>(e),
            },
    {
        match self.store.get(caller) {
            None => {
                return Err(ContractError::NoActiveEscrow);
            },
            Some(record) => {
                if now < record.maturity {
                    return Err(ContractError::EscrowNotMatured);
                }
            },
        }
        let ghost s0 = self@;
        let record = match self.store.remove(caller) {
            Ok(record) => record,
            Err(e) => {
                return Err(e);
            },
        };
        proof {
            lemma_total_remove(s0.records, caller@);
            lemma_total_nonneg(s0.records.remove(caller@));
        }
        self.held = self.held - record.amount;
        let token = self.config.get().unwrap().token.clone();
        Ok(
            Redemption {
                transfer: Transfer { token, recipient: caller.clone(), amount: record.amount },
                event: Event { action: Action::Redeem, depositor: caller.clone(), amount: record.amount },
            },
        )
    }

    /// The active escrow of `depositor`, or `NoActiveEscrow`.
    pub fn query_escrow(&self, depositor: &String) -> (r: Result<EscrowRecord, ContractError>)
        requires
            self.wf(),
        ensures
            r == query_spec(self@, depositor@),
    {
        match self.store.get(depositor) {
            Some(record) => Ok(record),
            None => Err(ContractError::NoActiveEscrow),
        }
    }

    /// The owner and the trusted token ledger.
    pub fn query_config(&self) -> (r: &Config)
        requires
            self.wf(),
        ensures
            r.owner@ == self@.owner,
            r.token@ == self@.token,
    {
        self.config.get().unwrap()
    }

    /// The token balance that the ledger holds for this escrow.
    pub fn balance(&self) -> (r: u128)
        ensures
            r == self@.held,
    {
        self.held
    }
}

} // verus!
