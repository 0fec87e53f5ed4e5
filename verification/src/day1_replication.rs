//! The JSON processor under the name `JSONPayments`, with the processor
//! interface re-exported beside it.

use vstd::prelude::*;
use crate::model::StoreState;
use crate::store::RecordStore;

pub use crate::AsyncPaymentProcessor;

verus! {

/// Processes a list of payments, each a JSON object in a string.
#[derive(Debug, PartialEq)]
pub struct JSONPayments {
    store: RecordStore,
}

impl JSONPayments {
    /// A processor over `tx_list` with the cursor on the first payment.
    pub fn new(tx_list: Vec<String>) -> (processor: Self)
        ensures
            processor.state() == StoreState::fresh(tx_list.deep_view()),
    {
        JSONPayments { store: RecordStore::new(tx_list) }
    }
}

impl AsyncPaymentProcessor for JSONPayments {
    type Payment<'a> = &'a str;

    closed spec fn state(&self) -> StoreState {
        self.store@
    }

    open spec fn text(payment: &str) -> Seq<char> {
        payment@
    }

    fn next_payment(&mut self) -> (payment: Option<&str>) {
        self.store.advance()
    }

    fn process<F, T>(&mut self, f: F) -> (out: Option<T>) where
        F: FnOnce(&str) -> T + Send,
        T: Send,
    {
        self.store.transform(f)
    }
}

} // verus!
