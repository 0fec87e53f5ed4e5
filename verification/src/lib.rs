//! Sequential processors over in-memory payment records.
//!
//! A processor owns an ordered list of raw records, each a string holding
//! one payment as a JSON object or as a CSV row, and a cursor. It lends the
//! records out one at a time, in order, as borrowed string slices, and can
//! pass the next record through a function supplied by the caller. The
//! records are never parsed here: what a record means is the business of
//! the function that receives it.
//!
//! Every processor is a [`store::RecordStore`] under another name; what
//! holds of a store over any number of steps is stated and proved in
//! [`model`].

use vstd::prelude::*;
use crate::model::StoreState;
use crate::store::RecordStore;

pub mod day1_replication;
pub mod model;
pub mod store;

verus! {

/// A source of payments that lends them out one at a time.
///
/// `Payment<'a>` is what one step lends: a value that may borrow from the
/// processor for as long as the exclusive access of that step lasts, so no
/// two of them can be held together.
pub trait AsyncPaymentProcessor {
    type Payment<'a> where Self: 'a;

    /// The records and the cursor that the processor stands for.
    spec fn state(&self) -> StoreState;

    /// The text of the record that a lent payment carries.
    spec fn text(payment: Self::Payment<'_>) -> Seq<char>;

    /// Lends the payment under the cursor and moves the cursor forward by
    /// one. At the end of the records it gives `None` and changes nothing.
    fn next_payment(&mut self) -> (payment: Option<Self::Payment<'_>>)
        ensures
            final(self).state() == old(self).state().advanced(),
            match payment {
                Some(lent) => old(self).state().pending() == Some(Self::text(lent)),
                None => old(self).state().pending() is None,
            },
    ;

    /// Takes one step, as `next_payment` does, and hands the payment to `f`,
    /// giving back what `f` returns. At the end of the records `f` is not
    /// called and the result is `None`: nothing is asked of `f` there. `f`
    /// is consumed, so it runs at most once.
    fn process<F, T>(&mut self, f: F) -> (out: Option<T>) where
        F: FnOnce(Self::Payment<'_>) -> T + Send,
        T: Send,

        requires
            forall|lent: Self::Payment<'_>|
                old(self).state().pending() == Some(Self::text(lent)) ==> #[trigger] f.requires(
                    (lent,),
                ),
        ensures
            final(self).state() == old(self).state().advanced(),
            match out {
                Some(value) => exists|lent: Self::Payment<'_>|
                    old(self).state().pending() == Some(Self::text(lent)) && #[trigger] f.ensures(
                        (lent,),
                        value,
                    ),
                None => old(self).state().pending() is None,
            },
    ;
}

/// Processes a list of payments, each a JSON object in a string.
pub struct PaymentsData {
    store: RecordStore,
}

impl PaymentsData {
    /// A processor over `tx_list` with the cursor on the first payment.
    pub fn new(tx_list: Vec<String>) -> (processor: Self)
        ensures
            processor.state() == StoreState::fresh(tx_list.deep_view()),
    {
        PaymentsData { store: RecordStore::new(tx_list) }
    }
}

impl AsyncPaymentProcessor for PaymentsData {
    type Payment<'a> = &'a str;

    closed spec fn state(&self) -> StoreState {
        self.store@
    }

    open spec fn text(payment: &str) -> Seq<char> {
        payment@
    }

    fn next_payment(&mut self) -> (payment: Option<&str>) {
        self.store.advance()
    }

    fn process<F, T>(&mut self, f: F) -> (out: Option<T>) where
        F: FnOnce(&str) -> T + Send,
        T: Send,
    {
        self.store.transform(f)
    }
}

/// Processes a list of payments, each a CSV row in a string.
#[derive(Debug, PartialEq)]
pub struct CsvPaymentsData {
    store: RecordStore,
}

impl CsvPaymentsData {
    /// A processor over `rows` with the cursor on the first row.
    pub fn new(rows: Vec<String>) -> (processor: Self)
        ensures
            processor.state() == StoreState::fresh(rows.deep_view()),
    {
        CsvPaymentsData { store: RecordStore::new(rows) }
    }
}

impl AsyncPaymentProcessor for CsvPaymentsData {
    type Payment<'a> = &'a str;

    closed spec fn state(&self) -> StoreState {
        self.store@
    }

    open spec fn text(payment: &str) -> Seq<char> {
        payment@
    }

    fn next_payment(&mut self) -> (payment: Option<&str>) {
        self.store.advance()
    }

    fn process<F, T>(&mut self, f: F) -> (out: Option<T>) where
        F: FnOnce(&str) -> T + Send,
        T: Send,
    {
        self.store.transform(f)
    }
}

} // verus!
