use vstd::prelude::*;

use crate::error::ContractError;

verus! {

/// One depositor's active escrow: the exact amount held and the time from
/// which it may be redeemed.
#[derive(Clone, Copy, Debug, PartialEq, Eq, Structural)]
pub struct EscrowRecord {
    pub amount: u128,
    pub maturity: u64,
}

/// The escrow records, keyed by depositor, with at most one record for each
/// depositor. Its view is the map from depositor to record.
pub struct EscrowStore {
    entries: Vec<(String, EscrowRecord)>,
    records: Ghost<Map<Seq<char>, EscrowRecord>>,
}

impl View for EscrowStore {
    type V = Map<Seq<char>, EscrowRecord>;

    closed spec fn view(&self) -> Map<Seq<char>, EscrowRecord> {
        self.records@
    }
}

impl EscrowStore {
    /// The entries hold each depositor once, and they are exactly the map.
    pub closed spec fn wf(&self) -> bool {
        &&& self.records@.dom().finite()
        &&& forall|i: int, j: int|
            #![trigger self.entries@[i], self.entries@[j]]
            0 <= i < self.entries@.len() && 0 <= j < self.entries@.len() && i != j
                ==> self.entries@[i].0@ != self.entries@[j].0@
        &&& forall|i: int|
            #![trigger self.entries@[i]]
            0 <= i < self.entries@.len() ==> self.records@.contains_key(self.entries@[i].0@)
                && self.records@[self.entries@[i].0@] == self.entries@[i].1
        &&& forall|k: Seq<char>|
            #[trigger] self.records@.contains_key(k) ==> exists|i: int|
                #![trigger self.entries@[i]]
                0 <= i < self.entries@.len() && self.entries@[i].0@ == k
    }

    /// An empty store.
    pub fn new() -> (r: EscrowStore)
        ensures
            r.wf(),
            r@ == Map::<Seq<char>, EscrowRecord>::empty(),
    {
        EscrowStore { entries: Vec::new(), records: Ghost(Map::empty()) }
    }

    fn index_of(&self, depositor: &String) -> (r: Option<usize>)
        requires
            self.wf(),
        ensures
            match r {
                Some(i) => i < self.entries@.len() && self.entries@[i as int].0@ == depositor@,
                None => !self@.contains_key(depositor@),
            },
    {
        let mut i: usize = 0;
        while i < self.entries.len()
            invariant
                self.wf(),
                i <= self.entries@.len(),
                forall|j: int| 0 <= j < i ==> (#[trigger] self.entries@[j]).0@ != depositor@,
            decreases self.entries@.len() - i,
        {
            if self.entries[i].0 == *depositor {
                return Some(i);
            }
            i += 1;
        }
        None
    }

    /// The record of `depositor`, if there is one.
    pub fn get(&self, depositor: &String) -> (r: Option<EscrowRecord>)
        requires
            self.wf(),
        ensures
            r == (if self@.contains_key(depositor@) {
                Some(self@[depositor@])
            } else {
                None
            }),
    {
        match self.index_of(depositor) {
            Some(i) => Some(self.entries[i].1),
            None => None,
        }
    }

    /// Inserts a record for `depositor` when it has none; otherwise fails
    /// with `DuplicateEscrow` and changes nothing.
    pub fn put_if_absent(&mut self, depositor: String, record: EscrowRecord) -> (r: Result<
        (),
        ContractError,
    >)
        requires
            old(self).wf(),
        ensures
            final(self).wf(),
            old(self)@.contains_key(depositor@) ==> r == Err::<(), ContractError>(
                ContractError::DuplicateEscrow,
            ) && final(self)@ == old(self)@,
            !old(self)@.contains_key(depositor@) ==> r == Ok::<(), ContractError>(())
                && final(self)@ == old(self)@.insert(depositor@, record),
    {
        match self.index_of(&depositor) {
            Some(_) => Err(ContractError::DuplicateEscrow),
            None => {
                let ghost k = depositor@;
                let ghost old_entries = self.entries@;
                let ghost old_records = self.records@;
                self.entries.push((depositor, record));
                self.records = Ghost(self.records@.insert(k, record));
                proof {
                    assert forall|i: int|
                        #![trigger self.entries@[i]]
                        0 <= i < old_entries.len() implies self.entries@[i] == old_entries[i]
                        && self.entries@[i].0@ != k by {
                        assert(old_records.contains_key(old_entries[i].0@));
                    }
                    assert(self.entries@[old_entries.len() as int].0@ == k);
                    assert forall|k2: Seq<char>|
                        #[trigger] self.records@.contains_key(k2) implies exists|i: int|
                            #![trigger self.entries@[i]]
                            0 <= i < self.entries@.len() && self.entries@[i].0@ == k2 by {
                        if k2 != k {
                            assert(old_records.contains_key(k2));
                            let w = choose|w: int|
                                #![trigger old_entries[w]]
                                0 <= w < old_entries.len() && old_entries[w].0@ == k2;
                            assert(self.entries@[w] == old_entries[w]);
                        }
                    }
                }
                Ok(())
            },
        }
    }

    /// Deletes and returns the record of `depositor`, or fails with
    /// `NoActiveEscrow` when there is none.
    pub fn remove(&mut self, depositor: &String) -> (r: Result<EscrowRecord, ContractError>)
        requires
            old(self).wf(),
        ensures
            final(self).wf(),
            old(self)@.contains_key(depositor@) ==> r == Ok::<EscrowRecord, ContractError>(
                old(self)@[depositor@],
            ) && final(self)@ == old(self)@.remove(depositor@),
            !old(self)@.contains_key(depositor@) ==> r == Err::<EscrowRecord, ContractError>(
                ContractError::NoActiveEscrow,
            ) && final(self)@ == old(self)@,
    {
        match self.index_of(depositor) {
            None => Err(ContractError::NoActiveEscrow),
            Some(i) => {
                let ghost k = depositor@;
                let ghost old_entries = self.entries@;
                let ghost old_records = self.records@;
                let (_, record) = self.entries.remove(i);
                self.records = Ghost(self.records@.remove(k));
                proof {
                    assert(old_entries[i as int].0@ == k);
                    assert forall|j: int|
                        #![trigger self.entries@[j]]
                        0 <= j < self.entries@.len() implies self.entries@[j] == (if j < i {
                            old_entries[j]
                        } else {
                            old_entries[j + 1]
                        }) && self.entries@[j].0@ != k by {
                        if j < i {
                            assert(old_entries[j] == self.entries@[j]);
                        } else {
                            assert(old_entries[j + 1] == self.entries@[j]);
                        }
                    }
                    assert forall|k2: Seq<char>|
                        #[trigger] self.records@.contains_key(k2) implies exists|j: int|
                            #![trigger self.entries@[j]]
                            0 <= j < self.entries@.len() && self.entries@[j].0@ == k2 by {
                        assert(old_records.contains_key(k2));
                        let w = choose|w: int|
                            #![trigger old_entries[w]]
                            0 <= w < old_entries.len() && old_entries[w].0@ == k2;
                        if w < i {
                            assert(self.entries@[w] == old_entries[w]);
                        } else {
                            assert(w != i);
                            assert(self.entries@[w - 1] == old_entries[w]);
                        }
                    }
                }
                Ok(record)
            },
        }
    }
}

} // verus!
