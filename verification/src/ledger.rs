//! The transaction ledger: what was committed, found by signature.

use crate::address::{same_signature, Signature};
use crate::engine::InnerInstruction;
use crate::error::TransactionError;
use crate::message::SanitizedTransaction;
use vstd::prelude::*;

verus! {

/// What is recorded of a committed transaction beside the transaction
/// itself.
#[derive(Clone, Debug, PartialEq, Eq)]
pub struct ConfirmedTransactionMeta {
    pub fee: u64,
    pub inner_instructions: Option<Vec<Vec<InnerInstruction>>>,
    /// The balances of the message's accounts before execution.
    pub pre_balances: Vec<u64>,
    /// The balances of the message's accounts after execution.
    pub post_balances: Vec<u64>,
    pub log_messages: Option<Vec<String>>,
    /// The error that execution ended in, if any.
    pub err: Option<TransactionError>,
    pub compute_units_consumed: Option<u64>,
}

/// A committed transaction with the slot it was committed in, what is
/// recorded of it, and the clock's time at the commit.
#[derive(Debug, PartialEq, Eq)]
pub struct TransactionData {
    pub slot: u64,
    pub tx: SanitizedTransaction,
    pub meta: Option<ConfirmedTransactionMeta>,
    pub block_time: Option<i64>,
}

impl TransactionData {
    /// Puts a record together.
    pub fn new(
        slot: u64,
        tx: SanitizedTransaction,
        meta: Option<ConfirmedTransactionMeta>,
        block_time: Option<i64>,
    ) -> (r: Self)
        ensures
            r == (TransactionData { slot, tx, meta, block_time }),
    {
        TransactionData { slot, tx, meta, block_time }
    }
}

/// A signature-keyed, append-only table of committed transactions.
pub struct TransactionLedger {
    entries: Vec<(Signature, TransactionData)>,
}

impl TransactionLedger {
    /// No signature occurs twice.
    pub closed spec fn wf(&self) -> bool {
        forall|i: int, j: int|
            0 <= i < j < self.entries@.len() ==> self.entries@[i].0 != self.entries@[j].0
    }

    /// Where `signature` is recorded, if anywhere.
    pub closed spec fn slot_of(&self, signature: Signature) -> int {
        choose|i: int| 0 <= i < self.entries@.len() && self.entries@[i].0 == signature
    }

    /// The ledger as a map from signature to record.
    pub closed spec fn view(&self) -> Map<Signature, TransactionData> {
        Map::new(
            |s: Signature| exists|i: int| 0 <= i < self.entries@.len() && self.entries@[i].0 == s,
            |s: Signature| self.entries@[self.slot_of(s)].1,
        )
    }

    proof fn lemma_entry(&self, i: int)
        requires
            self.wf(),
            0 <= i < self.entries@.len(),
        ensures
            self@.contains_key(self.entries@[i].0),
            self@[self.entries@[i].0] == self.entries@[i].1,
            self.slot_of(self.entries@[i].0) == i,
    {
        let s = self.slot_of(self.entries@[i].0);
        assert(0 <= s < self.entries@.len() && self.entries@[s].0 == self.entries@[i].0);
        if s < i {
            assert(self.entries@[s].0 != self.entries@[i].0);
        } else if i < s {
            assert(self.entries@[i].0 != self.entries@[s].0);
        }
    }

    /// An empty ledger.
    pub fn new() -> (r: Self)
        ensures
            r.wf(),
            r@ == Map::<Signature, TransactionData>::empty(),
    {
        let r = TransactionLedger { entries: Vec::new() };
        assert(r@ =~= Map::<Signature, TransactionData>::empty());
        r
    }

    /// The record under `signature`; `None` where nothing was committed
    /// under it.
    pub fn get(&self, signature: &Signature) -> (r: Option<&TransactionData>)
        requires
            self.wf(),
        ensures
            r is Some == self@.contains_key(*signature),
            r is Some ==> *r->0 == self@[*signature],
    {
        let mut i: usize = 0;
        while i < self.entries.len()
            invariant
                self.wf(),
                i <= self.entries@.len(),
                forall|j: int| 0 <= j < i ==> self.entries@[j].0 != *signature,
            decreases self.entries@.len() - i,
        {
            if same_signature(&self.entries[i].0, signature) {
                proof {
                    self.lemma_entry(i as int);
                }
                return Some(&self.entries[i].1);
            }
            i += 1;
        }
        None
    }

    /// Whether something was committed under `signature`.
    pub fn contains(&self, signature: &Signature) -> (r: bool)
        requires
            self.wf(),
        ensures
            r == self@.contains_key(*signature),
    {
        self.get(signature).is_some()
    }

    /// Records `data` under `signature`, under which nothing was recorded
    /// before. What is recorded stays as it is.
    pub fn insert(&mut self, signature: Signature, data: TransactionData)
        requires
            old(self).wf(),
            !old(self)@.contains_key(signature),
        ensures
            final(self).wf(),
            final(self)@ == old(self)@.insert(signature, data),
    {
        let ghost before = *self;
        assert forall|j: int| 0 <= j < before.entries@.len() implies before.entries@[j].0
            != signature by {
            before.lemma_entry(j);
        }
        self.entries.push((signature, data));
        proof {
            let n = before.entries@.len() as int;
            assert(self.wf());
            assert forall|s: Signature| #[trigger] self@.contains_key(s) == before@.insert(
                signature,
                data,
            ).contains_key(s) by {
                if self@.contains_key(s) {
                    let j = self.slot_of(s);
                    if j < n {
                        assert(before.entries@[j].0 == s);
                    }
                }
                if before@.contains_key(s) {
                    let j = before.slot_of(s);
                    assert(self.entries@[j].0 == s);
                }
                if s == signature {
                    assert(self.entries@[n].0 == s);
                }
            }
            assert forall|s: Signature| self@.contains_key(s) implies #[trigger] self@[s]
                == before@.insert(signature, data)[s] by {
                let j = self.slot_of(s);
                self.lemma_entry(j);
                if j < n {
                    before.lemma_entry(j);
                }
            }
            assert(self@ =~= before@.insert(signature, data));
        }
    }
}

} // verus!
