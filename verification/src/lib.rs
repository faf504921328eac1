//! A client for the REST interface of the TradeSatoshi exchange, without
//! the sending.
//!
//! The library decides what a call puts on the wire and what an answer
//! means: it builds the parameter set of each endpoint, writes it as a query
//! string or as a JSON body, signs private requests, and reads the envelope
//! of a response into a result or an error. Sending the request is left to
//! the caller, who hands over a nonce and gets a request back, and later
//! hands over the body of the answer.
//!
//! - [`params`]: the parameter set and its two wire forms.
//! - [`reading`]: the JSON body read back, and the proof that nothing is
//!   lost or added on the way.
//! - [`sign`]: the nonce and the value of the `Authorization` header.
//! - [`query`]: the client, its endpoints, and the request a query turns
//!   into.
//! - [`envelope`]: the envelope around every answer.
//! - [`error`]: the one error type.
//! - [`values`]: the records of the exchange.
//! - [`codec`]: what other crates are called for, and what is believed of
//!   them.
//! - [`text`]: decimal numerals and ASCII case folding.

pub mod codec;
pub mod envelope;
pub mod error;
pub mod params;
pub mod query;
pub mod reading;
pub mod sign;
pub mod text;
pub mod values;
