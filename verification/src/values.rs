//! The shapes of what the exchange sends back: the envelope around every
//! answer and the records that carry no fractional numbers.

use vstd::prelude::*;

verus! {

/// The envelope around an answer that holds one record.
pub struct APIResult<T> {
    pub success: bool,
    pub message: Option<String>,
    pub result: Option<T>,
}

/// The envelope around an answer that holds a list of records.
pub struct APIVecResult<T> {
    pub success: bool,
    pub message: Option<String>,
    pub result: Option<Vec<T>>,
}

/// A deposit address for one currency.
#[derive(Debug)]
pub struct Address {
    pub currency: String,
    pub address: String,
}

/// The identifier the exchange gives a submitted withdrawal.
pub struct Id {
    pub withdrawal_id: String,
}

/// The outcome of placing an order.
pub struct SubmitOrder {
    pub order_id: u32,
    pub filled: Vec<u32>,
}

/// The orders that a cancellation removed.
pub struct CancelOrder {
    pub canceled_orders: Vec<u32>,
}

/// The outcome of a transfer to another user.
pub struct SubmitTransfer {
    pub data: String,
}

} // verus!
