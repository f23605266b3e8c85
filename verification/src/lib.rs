//! A small notes service: a verified data model, an in-memory model of the
//! notes table, and the request handlers as pure mappings from parsed input
//! and storage outcome to an HTTP status and a JSON body.

pub mod json;
pub mod models;
pub mod store;
pub mod handlers;

use vstd::prelude::*;

verus! {

/// A reply handed back to the HTTP layer: a status code and a JSON body.
pub struct HttpReply {
    pub status: u16,
    pub body: String,
}

} // verus!
