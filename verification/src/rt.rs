//! What the runtime's adapters share with the library.

use crate::types::{PeerAddr, QueryKey, QueryValue, SockAddr};
use vstd::prelude::*;

verus! {

/// A spawned task did not run to its end.
#[derive(Copy, Clone, Debug)]
pub struct JoinError;

impl JoinError {
    /// The error's text: its name.
    pub fn message(&self) -> (r: &'static str)
        ensures
            r@ == "JoinError"@,
    {
        "JoinError"
    }
}

/// A transport's answer to a question: it knows its peer's address, if the
/// socket can tell it, and nothing else.
pub fn transport_query(key: QueryKey, peer: Option<SockAddr>) -> (r: Option<QueryValue>)
    ensures
        r == (match (key, peer) {
            (QueryKey::PeerAddr, Some(addr)) => Some(QueryValue::PeerAddr(PeerAddr(addr))),
            _ => None,
        }),
{
    match key {
        QueryKey::PeerAddr => match peer {
            Some(addr) => Some(QueryValue::PeerAddr(PeerAddr(addr))),
            None => None,
        },
        _ => None,
    }
}

} // verus!
