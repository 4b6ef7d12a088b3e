use std::sync::atomic::{AtomicUsize, Ordering};
use std::sync::Arc;
use std::task::{Wake, Waker};
use stream_io::accept::{Acceptor, BoxedFactory, Counter, DEFAULT_HANDSHAKE_TIMEOUT};
use stream_io::filter::Base;
use stream_io::rt::{transport_query, JoinError};
use stream_io::status::{Millis, Poll};
use stream_io::types::{
    HttpProtocol, PeerAddr, QueryItem, QueryKey, QueryValue, Queryable, SockAddr,
};

struct Count(AtomicUsize);

impl Wake for Count {
    fn wake(self: Arc<Self>) {
        self.0.fetch_add(1, Ordering::SeqCst);
    }
}

fn counting_waker() -> (Arc<Count>, Waker) {
    let count = Arc::new(Count(AtomicUsize::new(0)));
    (count.clone(), Waker::from(count))
}

fn woken(count: &Arc<Count>) -> usize {
    count.0.load(Ordering::SeqCst)
}

const ADDR: SockAddr = SockAddr::V4 { ip: 0xc0a8_0001, port: 443 };

#[test]
fn peer_addr_wraps_an_address() {
    let peer = PeerAddr::from(ADDR);
    assert_eq!(peer, PeerAddr(ADDR));
    assert_eq!(peer.into_inner(), ADDR);
    let v6 = SockAddr::V6 { ip6: 1, port: 80, flowinfo: 0, scope_id: 2 };
    assert_ne!(PeerAddr(v6), peer);
}

#[test]
fn query_item_get_and_as_ref() {
    let item: QueryItem<PeerAddr> = QueryItem::new(QueryValue::PeerAddr(PeerAddr(ADDR)));
    assert_eq!(item.get(), Some(PeerAddr(ADDR)));
    assert_eq!(item.as_ref(), Some(&PeerAddr(ADDR)));

    let other: QueryItem<HttpProtocol> = QueryItem::new(QueryValue::PeerAddr(PeerAddr(ADDR)));
    assert_eq!(other.get(), None);
    assert_eq!(other.as_ref(), None);

    let proto: QueryItem<HttpProtocol> =
        QueryItem::new(QueryValue::HttpProtocol(HttpProtocol::Http2));
    assert_eq!(proto.get(), Some(HttpProtocol::Http2));

    let empty: QueryItem<PeerAddr> = QueryItem::empty();
    assert_eq!(empty.get(), None);
    assert_eq!(empty.as_ref(), None);
}

#[test]
fn query_keys_and_values() {
    assert_eq!(<PeerAddr as Queryable>::key(), QueryKey::PeerAddr);
    assert_eq!(<HttpProtocol as Queryable>::key(), QueryKey::HttpProtocol);
    assert_eq!(QueryValue::PeerAddr(PeerAddr(ADDR)).key(), QueryKey::PeerAddr);
    assert_eq!(
        QueryValue::HttpProtocol(HttpProtocol::Http1).key(),
        QueryKey::HttpProtocol
    );
    assert_eq!(
        <HttpProtocol as Queryable>::extract(&QueryValue::HttpProtocol(HttpProtocol::Http1)),
        Some(&HttpProtocol::Http1)
    );
}

#[test]
fn a_transport_knows_its_peer_only() {
    assert_eq!(
        transport_query(QueryKey::PeerAddr, Some(ADDR)),
        Some(QueryValue::PeerAddr(PeerAddr(ADDR)))
    );
    assert_eq!(transport_query(QueryKey::PeerAddr, None), None);
    assert_eq!(transport_query(QueryKey::HttpProtocol, Some(ADDR)), None);
}

#[test]
fn join_error_text() {
    assert_eq!(JoinError.message(), "JoinError");
    assert_eq!(format!("{:?}", JoinError), "JoinError");
}

#[test]
fn counter_counts_and_wakes_at_capacity() {
    let (count, waker) = counting_waker();
    let mut c = Counter::new(2);
    assert_eq!(c.count(), 0);
    assert!(c.available(&waker));
    let g1 = c.get();
    assert!(c.available(&waker));
    let g2 = c.get();
    assert_eq!(c.count(), 2);
    assert!(!c.available(&waker));
    assert_eq!(woken(&count), 0);
    c.release(g1);
    assert_eq!(woken(&count), 1);
    assert_eq!(c.count(), 1);
    assert!(c.available(&waker));
    c.release(g2);
    assert_eq!(woken(&count), 1);
    assert_eq!(c.count(), 0);
}

#[test]
fn counter_at_zero_stays_at_zero() {
    let mut c = Counter::new(1);
    let g = c.get();
    c.release(g);
    let mut other = Counter::new(1);
    let stray = other.get();
    c.release(stray);
    assert_eq!(c.count(), 0);
}

#[test]
fn acceptor_defaults_and_builder() {
    assert_eq!(DEFAULT_HANDSHAKE_TIMEOUT, 5000);
    let mut conns = Counter::new(1);
    let acceptor: Acceptor<Base> = Acceptor::new();
    let resp = acceptor.new_service().call(&mut conns);
    assert_eq!(resp.timeout(), Millis(5000));
    resp.finish(&mut conns);

    let acceptor = acceptor.timeout(Millis(250));
    let copy = acceptor.duplicate();
    let sealed: BoxedFactory<Acceptor<Base>> = acceptor.seal();
    let svc = sealed.into_inner().new_service();
    let resp = svc.call(&mut conns);
    assert_eq!(resp.timeout(), Millis(250));
    assert_eq!(copy.new_service().call(&mut conns).timeout(), Millis(250));
}

#[test]
fn acceptor_service_is_ready_while_there_is_room() {
    let (count, waker) = counting_waker();
    let mut conns = Counter::new(1);
    let svc = Acceptor::<Base>::new().new_service();
    assert!(matches!(svc.poll_ready(&mut conns, &waker), Poll::Ready(Ok(()))));
    let resp = svc.call(&mut conns);
    assert_eq!(conns.count(), 1);
    assert!(matches!(svc.poll_ready(&mut conns, &waker), Poll::Pending));
    resp.finish(&mut conns);
    assert_eq!(woken(&count), 1);
    assert_eq!(conns.count(), 0);
    assert!(matches!(svc.poll_ready(&mut conns, &waker), Poll::Ready(Ok(()))));
}
