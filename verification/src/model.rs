//! The mathematical model of a record store and the facts that hold of it.
//!
//! A store is a finite sequence of records together with a cursor. One step
//! hands out the record under the cursor and moves the cursor forward by one;
//! at the end of the sequence a step hands out nothing and changes nothing.

use vstd::prelude::*;

verus! {

/// What a record store holds: the records, in order, and the index of the
/// record that the next step hands out.
pub struct StoreState {
    pub records: Seq<Seq<char>>,
    pub cursor: nat,
}

impl StoreState {
    /// The cursor lies between zero and the number of records, both included.
    pub open spec fn wf(self) -> bool {
        self.cursor <= self.records.len()
    }

    /// A store over `records` on which no step has been taken yet.
    pub open spec fn fresh(records: Seq<Seq<char>>) -> StoreState {
        StoreState { records, cursor: 0 }
    }

    /// No record is left to hand out.
    pub open spec fn exhausted(self) -> bool {
        self.cursor >= self.records.len()
    }

    /// The record that the next step hands out, or `None` at the end.
    pub open spec fn pending(self) -> Option<Seq<char>> {
        if self.exhausted() {
            None
        } else {
            Some(self.records[self.cursor as int])
        }
    }

    /// The store after one step: the cursor moves forward by one unless the
    /// store is exhausted, and the records stay as they are.
    pub open spec fn advanced(self) -> StoreState {
        if self.exhausted() {
            self
        } else {
            StoreState { records: self.records, cursor: self.cursor + 1 }
        }
    }

    /// The store after `n` steps.
    pub open spec fn advanced_by(self, n: nat) -> StoreState
        decreases n,
    {
        if n == 0 {
            self
        } else {
            self.advanced().advanced_by((n - 1) as nat)
        }
    }

    /// A step keeps a store well formed, never touches the records and never
    /// moves the cursor backwards or by more than one.
    pub proof fn lemma_step_is_monotone(self)
        requires
            self.wf(),
        ensures
            self.advanced().wf(),
            self.advanced().records == self.records,
            self.cursor <= self.advanced().cursor <= self.cursor + 1,
            self.advanced().cursor == self.cursor <==> self.pending() is None,
    {
    }

    /// After `n` steps the records are unchanged and the cursor has moved
    /// forward by `n`, stopping at the number of records.
    pub proof fn lemma_advanced_by(self, n: nat)
        requires
            self.wf(),
        ensures
            self.advanced_by(n).wf(),
            self.advanced_by(n).records == self.records,
            self.advanced_by(n).cursor == if self.cursor + n <= self.records.len() {
                self.cursor + n
            } else {
                self.records.len()
            },
        decreases n,
    {
        if n > 0 {
            self.advanced().lemma_advanced_by((n - 1) as nat);
        }
    }

    /// Every record is handed out exactly once and in order: once `k` steps
    /// have been taken, the next one hands out the record `k` places past
    /// the cursor if there is one, and nothing if there is none.
    pub proof fn lemma_hands_out_in_order(self, k: nat)
        requires
            self.wf(),
        ensures
            self.cursor + k < self.records.len() ==> self.advanced_by(k).pending() == Some(
                self.records[(self.cursor + k) as int],
            ),
            self.cursor + k >= self.records.len() ==> self.advanced_by(k).pending() is None,
    {
        self.lemma_advanced_by(k);
    }

    /// On a fresh store of `n` records exactly the first `n` steps hand out
    /// a record, the records come in the order in which the store was given
    /// them, and step `n + 1` and every step after it hand out nothing.
    pub proof fn lemma_fresh_store_hands_out_all(records: Seq<Seq<char>>, k: nat)
        ensures
            k < records.len() ==> StoreState::fresh(records).advanced_by(k).pending() == Some(
                records[k as int],
            ),
            k >= records.len() ==> StoreState::fresh(records).advanced_by(k).pending() is None,
    {
        StoreState::fresh(records).lemma_hands_out_in_order(k);
    }

    /// Exhaustion is final: once a store hands out nothing, any number of
    /// further steps leave it exactly as it is.
    pub proof fn lemma_exhaustion_is_final(self, n: nat)
        requires
            self.exhausted(),
        ensures
            self.advanced_by(n) == self,
            self.advanced_by(n).pending() is None,
        decreases n,
    {
        if n > 0 {
            self.lemma_exhaustion_is_final((n - 1) as nat);
        }
    }
}

} // verus!
