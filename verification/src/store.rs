//! The record store: an owned list of raw records and a cursor over it.
//!
//! The store lends each record out as a borrowed string slice. A slice
//! borrows from the exclusive access that produced it, so at most one of
//! them is alive at any time.

use vstd::prelude::*;
use crate::model::StoreState;

verus! {

/// An ordered list of raw records, each a string, and the index of the next
/// one to hand out. The records are fixed when the store is made; only the
/// cursor moves, one record at a time and never backwards.
#[derive(Debug, PartialEq)]
pub struct RecordStore {
    records: Vec<String>,
    cursor: usize,
}

impl View for RecordStore {
    type V = StoreState;

    closed spec fn view(&self) -> StoreState {
        StoreState { records: self.records.deep_view(), cursor: self.cursor as nat }
    }
}

impl RecordStore {
    /// Holds of every store at all times: the cursor never passes the end.
    #[verifier::type_invariant]
    pub open spec fn wf(self) -> bool {
        self@.wf()
    }

    /// A store over `records` with the cursor on the first of them.
    pub fn new(records: Vec<String>) -> (store: Self)
        ensures
            store@ == StoreState::fresh(records.deep_view()),
    {
        RecordStore { records, cursor: 0 }
    }

    /// The number of records in the store, handed out or not.
    pub fn len(&self) -> (n: usize)
        ensures
            n == self@.records.len(),
    {
        self.records.len()
    }

    /// The index of the record that the next step hands out; equal to
    /// `len()` once the store is exhausted.
    pub fn position(&self) -> (p: usize)
        ensures
            p == self@.cursor,
            p <= self@.records.len(),
    {
        proof {
            use_type_invariant(self);
        }
        self.cursor
    }

    /// Hands out the record under the cursor and moves the cursor forward by
    /// one. At the end of the records it hands out `None` and leaves the
    /// store as it is, however often it is called.
    pub fn advance(&mut self) -> (record: Option<&str>)
        ensures
            final(self)@ == old(self)@.advanced(),
            match record {
                Some(text) => old(self)@.pending() == Some(text@),
                None => old(self)@.pending() is None,
            },
    {
        if self.cursor >= self.records.len() {
            return None;
        }
        let res = &self.records[self.cursor];
        self.cursor += 1;
        Some(res.as_str())
    }

    /// Takes one step and hands the record to `f`, giving back what `f`
    /// returns. At the end of the records `f` is not called: nothing is
    /// asked of it there, so even a function that accepts no input may be
    /// passed. `f` is consumed, so it runs at most once.
    pub fn transform<F, T>(&mut self, f: F) -> (out: Option<T>) where F: FnOnce(&str) -> T
        requires
            forall|text: &str|
                old(self)@.pending() == Some(text@) ==> #[trigger] f.requires((text,)),
        ensures
            final(self)@ == old(self)@.advanced(),
            match out {
                Some(value) => exists|text: &str|
                    old(self)@.pending() == Some(text@) && #[trigger] f.ensures((text,), value),
                None => old(self)@.pending() is None,
            },
    {
        self.advance().map(f)
    }
}

} // verus!
