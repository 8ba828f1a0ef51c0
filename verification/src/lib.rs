//! Request and response shaping for hosted model inference.
//!
//! The crate classifies attachment references, turns them into the content
//! blocks that each wire schema expects, assembles requests and conversation
//! turns, and decodes replies. Transport and file access are left to the
//! caller, who hands in bytes and typed replies as plain values.

pub mod amazon_nova;
pub mod converse;
pub mod decode;
pub mod file;
pub mod invoke_model;
pub mod listing;
pub mod models;

pub use crate::listing::{list_models, ModelDetails};
use vstd::prelude::*;

verus! {

/// The identifier under which the service traced one request.
#[derive(Debug, Clone, PartialEq, Eq)]
pub struct TraceId(String);

impl View for TraceId {
    type V = Seq<char>;

    closed spec fn view(&self) -> Seq<char> {
        self.0@
    }
}

impl TraceId {
    /// The request id that the transport reported, or `UNKNOWN` where it
    /// reported none.
    pub fn new(request_id: Option<String>) -> (trace_id: Self)
        ensures
            trace_id@ == match request_id {
                Some(id) => id@,
                None => "UNKNOWN"@,
            },
    {
        match request_id {
            Some(id) => TraceId(id),
            None => TraceId("UNKNOWN".to_string()),
        }
    }

    /// The id as text.
    pub fn to_string(&self) -> (text: String)
        ensures
            text@ == self@,
    {
        self.0.clone()
    }

    pub fn as_ref(&self) -> (text: &str)
        ensures
            text@ == self@,
    {
        self.0.as_str()
    }
}

} // verus!
