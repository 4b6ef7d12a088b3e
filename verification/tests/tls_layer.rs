use ntex_bytes::{BytesMut, PoolId};
use rustls::{ClientConfig, ClientConnection, RootCertStore, ServerName};
use std::cell::RefCell;
use std::rc::Rc;
use std::sync::atomic::{AtomicUsize, Ordering};
use std::sync::Arc;
use std::task::{Wake, Waker};
use stream_io::error::IoError;
use stream_io::filter::{Base, Filter, Handle, Io, IoStream};
use stream_io::flags::Flag;
use stream_io::pool::MemoryPool;
use stream_io::status::{Poll, ReadStatus, WriteStatus};
use stream_io::tasks::{ReadContext, WriteContext};
use stream_io::tls::{
    another_round, from_below, handshake_next, handshake_read_ready, is_h2, plaintext_behind,
    plaintext_to_ask, protocol_of, session_error, settle, source_after, write_outcome,
    HandshakeIo, HandshakeStep,
    TlsClientFilter,
};
use stream_io::types::{HttpProtocol, PeerAddr, QueryKey, QueryValue, SockAddr};

struct Count(AtomicUsize);

impl Wake for Count {
    fn wake(self: Arc<Self>) {
        self.0.fetch_add(1, Ordering::SeqCst);
    }
}

fn counting_waker() -> (Arc<Count>, Waker) {
    let count = Arc::new(Count(AtomicUsize::new(0)));
    (count.clone(), Waker::from(count))
}

struct Peer(SockAddr);

impl Handle for Peer {
    fn query(&self, key: QueryKey) -> Option<QueryValue> {
        stream_io::rt::transport_query(key, Some(self.0))
    }
}

struct Capture(Rc<RefCell<Option<(ReadContext, WriteContext)>>>, Option<SockAddr>);

impl IoStream for Capture {
    fn start(self, read: ReadContext, write: WriteContext) -> Option<Box<dyn Handle>> {
        *self.0.borrow_mut() = Some((read, write));
        match self.1 {
            Some(addr) => Some(Box::new(Peer(addr))),
            None => None,
        }
    }
}

fn connect(peer: Option<SockAddr>) -> (Io<Base>, ReadContext, WriteContext) {
    let id = PoolId::DEFAULT;
    id.set_read_params(4096, 1024);
    id.set_write_params(4096, 1024);
    let slot = Rc::new(RefCell::new(None));
    let io = Io::new(Capture(slot.clone(), peer), MemoryPool::new(id.pool_ref()));
    let (r, w) = slot.borrow_mut().take().unwrap();
    (io, r, w)
}

fn session() -> ClientConnection {
    let config = ClientConfig::builder()
        .with_safe_defaults()
        .with_root_certificates(RootCertStore::empty())
        .with_no_client_auth();
    ClientConnection::new(
        Arc::new(config),
        ServerName::try_from("example.invalid").unwrap(),
    )
    .unwrap()
}

fn tls(peer: Option<SockAddr>) -> (Io<TlsClientFilter<Base>>, ReadContext, WriteContext) {
    let (io, r, w) = connect(peer);
    (TlsClientFilter::wrap(io, session()), r, w)
}

#[test]
fn h2_is_the_whole_answer() {
    assert!(is_h2(b"h2"));
    assert!(!is_h2(b"xh2"));
    assert!(!is_h2(b"h2c"));
    assert!(!is_h2(b"hh2"));
    assert!(!is_h2(b""));
    assert!(!is_h2(b"h"));
    assert!(!is_h2(b"2h"));
    assert!(!is_h2(b"http/1.1"));
    assert!(!is_h2(b"h 2"));
    assert!(!is_h2(b"H2"));
}

#[test]
fn protocol_follows_the_alpn_answer() {
    assert_eq!(protocol_of(&Some(b"h2".to_vec())), HttpProtocol::Http2);
    assert_eq!(protocol_of(&Some(b"h2c".to_vec())), HttpProtocol::Http1);
    assert_eq!(protocol_of(&Some(b"xh2".to_vec())), HttpProtocol::Http1);
    assert_eq!(protocol_of(&Some(b"http/1.1".to_vec())), HttpProtocol::Http1);
    assert_eq!(protocol_of(&Some(Vec::new())), HttpProtocol::Http1);
    assert_eq!(protocol_of(&None), HttpProtocol::Http1);
}

#[test]
fn handshake_decisions() {
    assert!(matches!(handshake_next(HandshakeIo::Complete, false), HandshakeStep::Finish));
    assert!(matches!(
        handshake_next(HandshakeIo::Complete, true),
        HandshakeStep::AwaitReadThenFinish
    ));
    assert!(matches!(handshake_next(HandshakeIo::WouldBlock, false), HandshakeStep::Retry));
    assert!(matches!(
        handshake_next(HandshakeIo::WouldBlock, true),
        HandshakeStep::AwaitReadThenRetry
    ));
    assert!(matches!(
        handshake_next(HandshakeIo::Failed(IoError::WriteZero), true),
        HandshakeStep::Fail(IoError::WriteZero)
    ));
    assert!(matches!(
        handshake_next(HandshakeIo::Failed(IoError::TimedOut), false),
        HandshakeStep::Fail(IoError::TimedOut)
    ));
}

#[test]
fn handshake_read_readiness() {
    assert!(matches!(handshake_read_ready(Poll::Pending), Poll::Pending));
    assert!(matches!(handshake_read_ready(Poll::Ready(Ok(Some(())))), Poll::Ready(Ok(()))));
    assert!(matches!(
        handshake_read_ready(Poll::Ready(Ok(None))),
        Poll::Ready(Err(IoError::Disconnected))
    ));
    assert!(matches!(
        handshake_read_ready(Poll::Ready(Err(IoError::WriteZero))),
        Poll::Ready(Err(IoError::WriteZero))
    ));
}

#[test]
fn wrap_takes_the_staged_bytes() {
    let (mut io, _r, _w) = connect(None);
    io.state.read_buf = Some(BytesMut::from(&b"early"[..]));
    let io = TlsClientFilter::wrap(io, session());
    assert!(io.state.read_buf.is_none());
    assert_eq!(&io.filter.read_buf.as_ref().unwrap()[..], b"early");
    assert!(io.filter.write_buf.is_none());
    assert_eq!(io.filter.pool.read().high, 4096);
}

#[test]
fn map_filter_wraps_the_head() {
    let (io, _r, _w) = connect(None);
    let pool = io.memory_pool();
    let io = io.map_filter(|inner| TlsClientFilter {
        inner,
        pool,
        read_buf: None,
        write_buf: None,
        session: session(),
    });
    assert!(io.filter.read_buf.is_none());
    assert!(io.state.read_buf.is_none());
}

#[test]
fn query_is_answered_by_the_right_layer() {
    let addr = SockAddr::V4 { ip: 0x7f00_0001, port: 8080 };
    let (io, _r, _w) = tls(Some(addr));
    assert_eq!(
        io.query(QueryKey::HttpProtocol),
        Some(QueryValue::HttpProtocol(HttpProtocol::Http1))
    );
    assert_eq!(io.query(QueryKey::PeerAddr), Some(QueryValue::PeerAddr(PeerAddr(addr))));

    assert_eq!(io.query_item::<HttpProtocol>().get(), Some(HttpProtocol::Http1));
    assert_eq!(io.query_item::<PeerAddr>().get(), Some(PeerAddr(addr)));

    let (io, _r, _w) = tls(None);
    assert_eq!(io.query(QueryKey::PeerAddr), None);
    assert_eq!(io.query_item::<PeerAddr>().as_ref(), None);
    let (plain, _r, _w) = connect(Some(addr));
    assert_eq!(plain.query(QueryKey::HttpProtocol), None);
    assert_eq!(plain.query(QueryKey::PeerAddr), Some(QueryValue::PeerAddr(PeerAddr(addr))));
}

#[test]
fn a_terminal_layer_without_a_transport_answers_nothing() {
    let base = Base::new(None);
    assert_eq!(base.query(QueryKey::PeerAddr), None);
    assert_eq!(base.query(QueryKey::HttpProtocol), None);
    let addr = SockAddr::V4 { ip: 1, port: 2 };
    let mut base = Base::new(Some(Box::new(Peer(addr))));
    assert_eq!(base.query(QueryKey::PeerAddr), Some(QueryValue::PeerAddr(PeerAddr(addr))));
    let (mut io, _r, _w) = connect(None);
    base.closed(&mut io.state, None);
    assert_eq!(base.query(QueryKey::PeerAddr), None);
}

#[test]
fn shutdown_of_a_layer_over_the_terminal_layer_is_done_at_once() {
    let (mut io, _r, _w) = tls(None);
    io.filter.read_buf = Some(BytesMut::from(&b"kept"[..]));
    assert!(matches!(io.filter.poll_shutdown(&mut io.state), Poll::Ready(Ok(()))));
    assert_eq!(&io.filter.read_buf.as_ref().unwrap()[..], b"kept");
    assert!(io.state.write_buf.is_none());
    assert!(!io.state.has(Flag::IoShutdown));
}

#[test]
fn during_the_handshake_input_is_kept_and_one_is_answered() {
    let (mut io, _r, _w) = tls(None);
    let mut dst = Some(BytesMut::from(&b"old"[..]));
    let res = io
        .filter
        .release_read_buf(BytesMut::from(&b"\x16\x03\x03"[..]), &mut dst, 3);
    assert!(matches!(res, Ok(1)));
    assert_eq!(&dst.unwrap()[..], b"old");
    assert_eq!(&io.filter.read_buf.as_ref().unwrap()[..], b"\x16\x03\x03");

    let staged = io.filter.get_read_buf(&mut io.state).unwrap();
    assert_eq!(&staged[..], b"\x16\x03\x03");
    assert!(io.filter.read_buf.is_none());
    assert!(io.filter.get_read_buf(&mut io.state).is_none());
}

#[test]
fn release_read_with_the_handshake_answer_given() {
    let (mut io, _r, _w) = tls(None);
    let mut dst = None;
    let res = io
        .filter
        .release_read_with(true, BytesMut::from(&b"abc"[..]), &mut dst, 0);
    assert!(matches!(res, Ok(1)));
    assert!(dst.is_none());
    assert_eq!(&io.filter.read_buf.as_ref().unwrap()[..], b"abc");
}

#[test]
fn after_the_handshake_no_input_decodes_to_nothing() {
    let (mut io, _r, _w) = tls(None);
    let mut dst = Some(BytesMut::from(&b"old"[..]));
    let res = io.filter.release_read_with(false, BytesMut::new(), &mut dst, 0);
    assert!(matches!(res, Ok(0)));
    assert_eq!(&dst.unwrap()[..], b"old");
    assert!(io.filter.read_buf.is_none());
}

#[test]
fn after_the_handshake_garbage_fails_and_keeps_what_was_decoded() {
    let (mut io, _r, _w) = tls(None);
    let mut dst = Some(BytesMut::from(&b"old"[..]));
    let garbage = vec![0xffu8; 64];
    let res = io
        .filter
        .release_read_with(false, BytesMut::from(&garbage[..]), &mut dst, 64);
    assert!(matches!(res, Err(IoError::Transport(_))));
    assert_eq!(&dst.unwrap()[..], b"old");
}

#[test]
fn read_pump_sees_the_quirk_as_input() {
    let (mut io, r, _w) = tls(None);
    let (_c, waker) = counting_waker();
    assert!(matches!(r.poll_ready(&mut io, &waker), Poll::Ready(ReadStatus::Ready)));
    let mut buf = r.get_read_buf(&mut io);
    assert!(buf.is_empty());
    buf.extend_from_slice(b"\x16\x03\x03\x00");
    r.release_read_buf(&mut io, buf, 4);
    assert!(io.state.has(Flag::RdReady));
    assert!(io.state.read_buf.is_none());
    assert_eq!(&io.filter.read_buf.as_ref().unwrap()[..], b"\x16\x03\x03\x00");

    let mut buf = r.get_read_buf(&mut io);
    assert_eq!(&buf[..], b"\x16\x03\x03\x00");
    buf.extend_from_slice(b"\x02");
    r.release_read_buf(&mut io, buf, 1);
    assert_eq!(&io.filter.read_buf.as_ref().unwrap()[..], b"\x16\x03\x03\x00\x02");
}

#[test]
fn read_staged_hands_out_the_front() {
    let (mut io, _r, _w) = tls(None);
    assert!(io.filter.read_staged(10).is_none());
    io.filter.read_buf = Some(BytesMut::from(&b"hello"[..]));
    assert!(io.filter.read_staged(0).is_none());
    assert_eq!(&io.filter.read_staged(2).unwrap()[..], b"he");
    assert_eq!(&io.filter.read_buf.as_ref().unwrap()[..], b"llo");
    assert_eq!(&io.filter.read_staged(10).unwrap()[..], b"llo");
    assert!(io.filter.read_staged(10).is_none());
}

#[test]
fn write_through_appends_below() {
    let (mut io, _r, _w) = tls(None);
    let (count, waker) = counting_waker();
    io.state.write_task.register(&waker);
    assert!(matches!(io.filter.write_through(&mut io.state, b"abc"), Ok(3)));
    assert_eq!(&io.state.write_buf.as_ref().unwrap()[..], b"abc");
    assert_eq!(count.0.load(Ordering::SeqCst), 1);
    assert!(matches!(io.filter.write_through(&mut io.state, b"defg"), Ok(4)));
    assert_eq!(&io.state.write_buf.as_ref().unwrap()[..], b"abcdefg");
    assert!(matches!(io.filter.write_through(&mut io.state, b""), Ok(0)));
    assert_eq!(&io.state.write_buf.as_ref().unwrap()[..], b"abcdefg");
}

#[test]
fn writing_starts_the_handshake_on_the_wire() {
    let (mut io, _r, _w) = tls(None);
    assert!(io.state.write_buf.is_none());
    let on = io.write(b"hello").unwrap();
    assert!(!on);
    let out = io.state.write_buf.as_ref().unwrap().to_vec();
    assert!(out.len() > 5);
    assert_eq!(out[0], 0x16);
    assert_eq!(out[1], 0x03);
    assert!(!out.windows(5).any(|w| w == b"hello"));
    assert!(io.filter.write_buf.is_none());
    assert!(io.filter.get_write_buf(&mut io.state).is_none());

    let before = out.len();
    io.write(b"more").unwrap();
    assert_eq!(io.state.write_buf.as_ref().unwrap().len(), before);
}

#[test]
fn the_layer_passes_hints_and_closure_down() {
    let (mut io, r, w) = tls(None);
    let (_c, waker) = counting_waker();
    assert!(matches!(w.poll_ready(&mut io, &waker), Poll::Ready(WriteStatus::Ready)));
    io.state.flags.insert(Flag::RdBufFull);
    assert!(matches!(r.poll_ready(&mut io, &waker), Poll::Pending));
    io.filter.want_read(&mut io.state);
    assert!(!io.state.has(Flag::RdBufFull));
    io.filter.want_shutdown(&mut io.state, None);
    assert!(io.state.has(Flag::IoFilters));
    io.shutdown_filters();
    assert!(io.state.has(Flag::IoShutdown));
    io.filter.want_shutdown(&mut io.state, Some(IoError::Disconnected));
    assert!(io.state.has(Flag::IoStopped) && io.state.has(Flag::IoErr));
    w.close(&mut io, None);
    assert!(matches!(io.state.error, Some(IoError::Disconnected)));
    assert!(matches!(r.poll_ready(&mut io, &waker), Poll::Ready(ReadStatus::Terminate)));
}

struct Liar;

impl Handle for Liar {
    fn query(&self, _key: QueryKey) -> Option<QueryValue> {
        Some(QueryValue::HttpProtocol(HttpProtocol::Http2))
    }
}

#[test]
fn what_answers_another_question_is_no_answer() {
    let base = Base::new(Some(Box::new(Liar)));
    assert_eq!(base.query(QueryKey::PeerAddr), None);
    assert_eq!(
        base.query(QueryKey::HttpProtocol),
        Some(QueryValue::HttpProtocol(HttpProtocol::Http2))
    );
    assert_eq!(
        stream_io::filter::answer_to(
            QueryKey::PeerAddr,
            Some(QueryValue::HttpProtocol(HttpProtocol::Http1))
        ),
        None
    );
    assert_eq!(stream_io::filter::answer_to(QueryKey::PeerAddr, None), None);
}

fn io_err(text: &str) -> std::io::Error {
    std::io::Error::new(std::io::ErrorKind::Other, text.to_string())
}

#[test]
fn the_sessions_error_is_the_connections() {
    assert!(matches!(session_error(io_err("tls")), IoError::Transport(e) if e.to_string() == "tls"));
}

#[test]
fn the_chain_belows_answer_comes_as_it_is() {
    let left = Some(BytesMut::from(&b"raw"[..]));
    assert_eq!(&from_below(Ok(7), left).unwrap().unwrap()[..], b"raw");
    assert!(from_below(Ok(0), None).unwrap().is_none());
    assert!(matches!(
        from_below(Err(IoError::WriteZero), Some(BytesMut::new())),
        Err(IoError::WriteZero)
    ));
}

#[test]
fn the_source_loses_what_the_session_took() {
    assert_eq!(stream_io::tls::offered(&BytesMut::from(&b"hello"[..])), b"hello");
    let mut src = BytesMut::from(&b"hello"[..]);
    assert!(source_after(&mut src, Ok(2)).is_ok());
    assert_eq!(&src[..], b"llo");
    assert!(source_after(&mut src, Ok(0)).is_ok());
    assert_eq!(&src[..], b"llo");
    assert!(matches!(source_after(&mut src, Err(io_err("x"))), Err(IoError::Transport(_))));
    assert_eq!(&src[..], b"llo");
    assert!(source_after(&mut src, Ok(9)).is_ok());
    assert!(src.is_empty());
}

#[test]
fn plaintext_is_asked_for_where_it_fits() {
    assert!(matches!(plaintext_to_ask(Ok(0), 10), Ok(0)));
    assert!(matches!(plaintext_to_ask(Ok(17), 10), Ok(17)));
    assert!(matches!(plaintext_to_ask(Ok(17), usize::MAX - 3), Ok(0)));
    assert!(matches!(plaintext_to_ask(Ok(usize::MAX), 1), Ok(0)));
    assert!(matches!(plaintext_to_ask(Err(io_err("x")), 0), Err(IoError::Transport(_))));
}

#[test]
fn plaintext_goes_behind_the_destination() {
    let mut dst = BytesMut::from(&b"old"[..]);
    assert!(matches!(plaintext_behind(&mut dst, Ok(b" new".to_vec())), Ok(4)));
    assert_eq!(&dst[..], b"old new");
    assert!(matches!(plaintext_behind(&mut dst, Ok(Vec::new())), Ok(0)));
    assert!(matches!(
        plaintext_behind(&mut dst, Err(io_err("x"))),
        Err(IoError::Transport(_))
    ));
    assert_eq!(&dst[..], b"old new");
}

#[test]
fn rounds_go_on_while_the_session_gives() {
    assert!(matches!(another_round(Ok(0)), Ok(false)));
    assert!(matches!(another_round(Ok(5)), Ok(true)));
    assert!(matches!(another_round(Err(io_err("x"))), Err(IoError::Transport(_))));
}

#[test]
fn the_sessions_error_comes_before_the_chains() {
    assert!(matches!(write_outcome(None, Ok(3)), Ok(3)));
    assert!(matches!(write_outcome(None, Err(IoError::BufferFull)), Err(IoError::BufferFull)));
    assert!(matches!(
        write_outcome(Some(IoError::WriteZero), Err(IoError::BufferFull)),
        Err(IoError::WriteZero)
    ));
    assert!(matches!(write_outcome(Some(IoError::WriteZero), Ok(3)), Err(IoError::WriteZero)));
}

#[test]
fn what_is_left_is_kept_on_success() {
    let mut slot = Some(BytesMut::from(&b"stale"[..]));
    assert!(matches!(settle(&mut slot, BytesMut::from(&b"rest"[..]), Ok(2)), Ok(2)));
    assert_eq!(&slot.as_ref().unwrap()[..], b"rest");
    assert!(matches!(settle(&mut slot, BytesMut::new(), Ok(0)), Ok(0)));
    assert_eq!(&slot.as_ref().unwrap()[..], b"rest");
    assert!(matches!(
        settle(&mut slot, BytesMut::from(&b"lost"[..]), Err(IoError::TimedOut)),
        Err(IoError::TimedOut)
    ));
    assert_eq!(&slot.as_ref().unwrap()[..], b"rest");
}

#[test]
fn draining_the_session_passes_its_bytes_down() {
    let (mut io, _r, _w) = tls(None);
    io.filter.write_buf = Some(BytesMut::from(&b"held"[..]));
    assert!(io.state.write_buf.is_none());
    assert!(io.filter.drain_session(&mut io.state).is_ok());
    assert_eq!(&io.filter.write_buf.as_ref().unwrap()[..], b"held");
    let hello = io.state.write_buf.as_ref().unwrap().to_vec();
    assert!(hello.len() > 5);
    assert_eq!(hello[0], 0x16);
    assert!(io.filter.drain_session(&mut io.state).is_ok());
    assert_eq!(io.state.write_buf.as_ref().unwrap().to_vec(), hello);
    assert_eq!(&io.filter.write_buf.as_ref().unwrap()[..], b"held");
}

#[test]
fn wrap_keeps_the_chain_and_the_session() {
    let (mut io, _r, _w) = connect(Some(SockAddr::V4 { ip: 9, port: 9 }));
    io.state.read_buf = Some(BytesMut::from(&b"early"[..]));
    io.state.flags.insert(Flag::RdReady);
    let io = TlsClientFilter::wrap(io, session());
    assert!(io.filter.session.is_handshaking());
    assert!(io.state.has(Flag::RdReady));
    assert_eq!(
        io.filter.inner.query(QueryKey::PeerAddr),
        Some(QueryValue::PeerAddr(PeerAddr(SockAddr::V4 { ip: 9, port: 9 })))
    );
}

#[test]
fn a_failing_layer_asks_for_a_graceful_close_first() {
    let (mut io, _r, _w) = tls(None);
    io.filter.want_shutdown(&mut io.state, Some(IoError::WriteZero));
    assert!(io.state.has(Flag::IoFilters));
    assert!(!io.state.has(Flag::IoStopped) && !io.state.has(Flag::IoErr));
    assert!(io.state.error.is_none());
    io.shutdown_filters();
    assert!(io.state.has(Flag::IoShutdown));
    io.filter.want_shutdown(&mut io.state, None);
    assert!(!io.state.has(Flag::IoStopped));
    io.filter.want_shutdown(&mut io.state, Some(IoError::TimedOut));
    assert!(io.state.has(Flag::IoStopped) && io.state.has(Flag::IoErr));
    assert!(matches!(io.state.error, Some(IoError::TimedOut)));
}
