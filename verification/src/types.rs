//! What a connection can be asked about itself, and the answers.

use std::marker::PhantomData;
use vstd::prelude::*;

verus! {

/// A socket address as plain numbers.
#[derive(Copy, Clone, Debug, PartialEq, Eq, Structural)]
pub enum SockAddr {
    /// An IPv4 address, its four bytes as one big-endian number, and a port.
    V4 { ip: u32, port: u16 },
    /// An IPv6 address, its sixteen bytes as one big-endian number, a port,
    /// flow information and a scope.
    V6 { ip6: u128, port: u16, flowinfo: u32, scope_id: u32 },
}

/// The address of the transport's peer.
#[derive(Copy, Clone, Debug, PartialEq, Eq, Structural)]
pub struct PeerAddr(pub SockAddr);

impl PeerAddr {
    /// The address itself.
    pub fn into_inner(self) -> (r: SockAddr)
        ensures
            r == self.0,
    {
        self.0
    }
}

impl From<SockAddr> for PeerAddr {
    fn from(addr: SockAddr) -> (r: PeerAddr) {
        PeerAddr(addr)
    }
}

impl vstd::std_specs::convert::FromSpecImpl<SockAddr> for PeerAddr {
    open spec fn obeys_from_spec() -> bool {
        true
    }

    open spec fn from_spec(addr: SockAddr) -> PeerAddr {
        PeerAddr(addr)
    }
}

/// The protocol that the peers agreed on while the session was set up.
#[derive(Copy, Clone, Debug, PartialEq, Eq, Structural)]
pub enum HttpProtocol {
    Http1,
    Http2,
}

/// What can be asked.
#[derive(Copy, Clone, Debug, PartialEq, Eq, Structural)]
pub enum QueryKey {
    /// The peer's address, which the transport knows.
    PeerAddr,
    /// The negotiated protocol, which a TLS filter knows.
    HttpProtocol,
}

/// An answer.
#[derive(Copy, Clone, Debug, PartialEq, Eq, Structural)]
pub enum QueryValue {
    PeerAddr(PeerAddr),
    HttpProtocol(HttpProtocol),
}

impl QueryValue {
    /// The question that a value answers.
    pub open spec fn spec_key(self) -> QueryKey {
        match self {
            QueryValue::PeerAddr(_) => QueryKey::PeerAddr,
            QueryValue::HttpProtocol(_) => QueryKey::HttpProtocol,
        }
    }

    /// The question that a value answers.
    pub fn key(&self) -> (k: QueryKey)
        ensures
            k == self.spec_key(),
    {
        match self {
            QueryValue::PeerAddr(_) => QueryKey::PeerAddr,
            QueryValue::HttpProtocol(_) => QueryKey::HttpProtocol,
        }
    }
}

/// A type that is the answer to one question.
pub trait Queryable: Sized {
    /// The question.
    spec fn spec_key() -> QueryKey;

    /// The value of this type inside an answer, if it holds one.
    spec fn spec_extract(v: QueryValue) -> Option<Self>;

    /// The question.
    fn key() -> (k: QueryKey)
        ensures
            k == Self::spec_key(),
    ;

    /// The value of this type inside an answer, if it holds one.
    fn extract(v: &QueryValue) -> (r: Option<&Self>)
        ensures
            r == (match Self::spec_extract(*v) {
                Some(x) => Some(&x),
                None => None,
            }),
    ;
}

impl Queryable for PeerAddr {
    open spec fn spec_key() -> QueryKey {
        QueryKey::PeerAddr
    }

    open spec fn spec_extract(v: QueryValue) -> Option<PeerAddr> {
        match v {
            QueryValue::PeerAddr(a) => Some(a),
            _ => None,
        }
    }

    fn key() -> (k: QueryKey) {
        QueryKey::PeerAddr
    }

    fn extract(v: &QueryValue) -> (r: Option<&PeerAddr>) {
        match v {
            QueryValue::PeerAddr(a) => Some(a),
            _ => None,
        }
    }
}

impl Queryable for HttpProtocol {
    open spec fn spec_key() -> QueryKey {
        QueryKey::HttpProtocol
    }

    open spec fn spec_extract(v: QueryValue) -> Option<HttpProtocol> {
        match v {
            QueryValue::HttpProtocol(p) => Some(p),
            _ => None,
        }
    }

    fn key() -> (k: QueryKey) {
        QueryKey::HttpProtocol
    }

    fn extract(v: &QueryValue) -> (r: Option<&HttpProtocol>) {
        match v {
            QueryValue::HttpProtocol(p) => Some(p),
            _ => None,
        }
    }
}

/// The chain's answer to a question of type `T`: empty where no filter
/// answered.
pub struct QueryItem<T> {
    item: Option<QueryValue>,
    _t: PhantomData<T>,
}

impl<T: Queryable> QueryItem<T> {
    /// The answer that is held, if any.
    pub closed spec fn value(&self) -> Option<QueryValue> {
        self.item
    }

    /// The value of type `T` in the answer: `None` where there is no answer
    /// or it answers another question.
    pub open spec fn spec_get(&self) -> Option<T> {
        match self.value() {
            Some(v) => T::spec_extract(v),
            None => None,
        }
    }

    /// Wraps an answer.
    pub fn new(item: QueryValue) -> (r: Self)
        ensures
            r.value() == Some(item),
    {
        QueryItem { item: Some(item), _t: PhantomData }
    }

    /// No answer.
    pub fn empty() -> (r: Self)
        ensures
            r.value().is_none(),
    {
        QueryItem { item: None, _t: PhantomData }
    }

    /// A copy of the value.
    pub fn get(&self) -> (r: Option<T>) where T: Copy
        ensures
            r == self.spec_get(),
    {
        match self.as_ref() {
            Some(x) => Some(*x),
            None => None,
        }
    }

    /// The value, by reference.
    pub fn as_ref(&self) -> (r: Option<&T>)
        ensures
            r == (match self.spec_get() {
                Some(x) => Some(&x),
                None => None,
            }),
    {
        if let Some(ref item) = self.item {
            T::extract(item)
        } else {
            None
        }
    }
}

} // verus!
