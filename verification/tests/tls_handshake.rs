use ntex_bytes::{BytesMut, PoolId};
use ring::rand::SystemRandom;
use ring::signature::{Ed25519KeyPair, KeyPair};
use rustls::{
    Certificate, ClientConfig, ClientConnection, PrivateKey, RootCertStore, ServerConfig,
    ServerConnection, ServerName,
};
use std::cell::RefCell;
use std::io::{self, Read, Write};
use std::rc::Rc;
use std::sync::atomic::{AtomicUsize, Ordering};
use std::sync::Arc;
use std::task::{Wake, Waker};
use stream_io::filter::{Base, Filter, Handle, Io, IoStream};
use stream_io::flags::Flag;
use stream_io::layer::write_through;
use stream_io::pool::MemoryPool;
use stream_io::read_task::{ReadAction, ReadEvent, ReadTask};
use stream_io::state::IoState;
use stream_io::tasks::{ReadContext, WriteContext};
use stream_io::tls::{handshake_next, take_front, HandshakeIo, HandshakeStep, TlsClientFilter};
use stream_io::types::{HttpProtocol, QueryKey, QueryValue};
use stream_io::write_task::{WriteAction, WriteEvent, WriteTask};

const HOST: &str = "example.invalid";

struct Count(AtomicUsize);

impl Wake for Count {
    fn wake(self: Arc<Self>) {
        self.0.fetch_add(1, Ordering::SeqCst);
    }
}

fn waker() -> Waker {
    Waker::from(Arc::new(Count(AtomicUsize::new(0))))
}

struct Capture(Rc<RefCell<Option<(ReadContext, WriteContext)>>>);

impl IoStream for Capture {
    fn start(self, read: ReadContext, write: WriteContext) -> Option<Box<dyn Handle>> {
        *self.0.borrow_mut() = Some((read, write));
        None
    }
}

fn der(tag: u8, content: &[u8]) -> Vec<u8> {
    let mut out = vec![tag];
    let len = content.len();
    if len < 128 {
        out.push(len as u8);
    } else if len < 256 {
        out.extend_from_slice(&[0x81, len as u8]);
    } else {
        out.extend_from_slice(&[0x82, (len >> 8) as u8, len as u8]);
    }
    out.extend_from_slice(content);
    out
}

fn seq(parts: &[Vec<u8>]) -> Vec<u8> {
    der(0x30, &parts.concat())
}

/// A certificate for `HOST` that the key signs itself, and the key.
fn identity() -> (Certificate, PrivateKey) {
    let pkcs8 = Ed25519KeyPair::generate_pkcs8(&SystemRandom::new()).unwrap();
    let key = Ed25519KeyPair::from_pkcs8(pkcs8.as_ref()).unwrap();

    let ed25519 = seq(&[der(0x06, &[0x2b, 0x65, 0x70])]);
    let name = seq(&[der(
        0x31,
        &seq(&[der(0x06, &[0x55, 0x04, 0x03]), der(0x0c, HOST.as_bytes())]),
    )]);
    let validity = seq(&[der(0x17, b"200101000000Z"), der(0x17, b"491231235959Z")]);
    let mut public = vec![0u8];
    public.extend_from_slice(key.public_key().as_ref());
    let spki = seq(&[ed25519.clone(), der(0x03, &public)]);
    let san = seq(&[der(0x82, HOST.as_bytes())]);
    let extensions = der(
        0xa3,
        &seq(&[seq(&[der(0x06, &[0x55, 0x1d, 0x11]), der(0x04, &san)])]),
    );
    let tbs = seq(&[
        der(0xa0, &der(0x02, &[2])),
        der(0x02, &[1]),
        ed25519.clone(),
        name.clone(),
        validity,
        name,
        spki,
        extensions,
    ]);
    let mut signature = vec![0u8];
    signature.extend_from_slice(key.sign(&tbs).as_ref());
    let cert = seq(&[tbs, ed25519, der(0x03, &signature)]);
    (Certificate(cert), PrivateKey(pkcs8.as_ref().to_vec()))
}

fn sessions(client_alpn: &[&[u8]], server_alpn: &[&[u8]]) -> (ClientConnection, ServerConnection) {
    let (cert, key) = identity();
    let mut roots = RootCertStore::empty();
    roots.add(&cert).unwrap();
    let mut client = ClientConfig::builder()
        .with_safe_defaults()
        .with_root_certificates(roots)
        .with_no_client_auth();
    client.alpn_protocols = client_alpn.iter().map(|p| p.to_vec()).collect();
    let mut server = ServerConfig::builder()
        .with_safe_defaults()
        .with_no_client_auth()
        .with_single_cert(vec![cert], key)
        .unwrap();
    server.alpn_protocols = server_alpn.iter().map(|p| p.to_vec()).collect();
    (
        ClientConnection::new(Arc::new(client), ServerName::try_from(HOST).unwrap()).unwrap(),
        ServerConnection::new(Arc::new(server)).unwrap(),
    )
}

struct Wrapper<'a> {
    read_buf: &'a mut Option<BytesMut>,
    inner: &'a mut Base,
    pool: &'a MemoryPool,
    state: &'a mut IoState,
}

impl<'a> Read for Wrapper<'a> {
    fn read(&mut self, dst: &mut [u8]) -> io::Result<usize> {
        match take_front(self.read_buf, dst.len()) {
            Some(head) => {
                dst[..head.len()].copy_from_slice(&head);
                Ok(head.len())
            }
            None => Err(io::Error::new(io::ErrorKind::WouldBlock, "")),
        }
    }
}

impl<'a> Write for Wrapper<'a> {
    fn write(&mut self, src: &[u8]) -> io::Result<usize> {
        write_through(self.inner, self.pool, self.state, src)
            .map_err(|_| io::Error::new(io::ErrorKind::Other, "chain"))
    }

    fn flush(&mut self) -> io::Result<()> {
        Ok(())
    }
}

struct Peers {
    io: Io<TlsClientFilter<Base>>,
    reader: ReadTask,
    writer: WriteTask,
    server: ServerConnection,
    waker: Waker,
}

impl Peers {
    fn new(client_alpn: &[&[u8]], server_alpn: &[&[u8]]) -> Peers {
        let id = PoolId::DEFAULT;
        id.set_read_params(4096, 1024);
        id.set_write_params(4096, 1024);
        let slot = Rc::new(RefCell::new(None));
        let io = Io::new(Capture(slot.clone()), MemoryPool::new(id.pool_ref()));
        let (r, w) = slot.borrow_mut().take().unwrap();
        let (client, server) = sessions(client_alpn, server_alpn);
        Peers {
            io: TlsClientFilter::wrap(io, client),
            reader: ReadTask::new(r),
            writer: WriteTask::new(w),
            server,
            waker: waker(),
        }
    }

    /// One round of the client's handshake I/O.
    fn round(&mut self) -> HandshakeStep {
        let (result, wants_read) = {
            let Io { state, filter } = &mut self.io;
            let TlsClientFilter { inner, pool, read_buf, session, .. } = filter;
            let mut wrp = Wrapper { read_buf, inner, pool, state };
            let result = session.complete_io(&mut wrp);
            (result, session.wants_read())
        };
        self.io.filter.drain_session(&mut self.io.state).unwrap();
        let round = match result {
            Ok(_) => HandshakeIo::Complete,
            Err(ref e) if e.kind() == io::ErrorKind::WouldBlock => HandshakeIo::WouldBlock,
            Err(e) => HandshakeIo::Failed(stream_io::error::IoError::Transport(e)),
        };
        handshake_next(round, wants_read)
    }

    /// The write pump carries what waits to the server.
    fn to_server(&mut self) -> usize {
        let mut carried = 0;
        let mut action = self.writer.step(&mut self.io, &self.waker, WriteEvent::Poll);
        loop {
            match action {
                WriteAction::Write => {
                    let chunk = self.writer.chunk().to_vec();
                    let mut cursor = io::Cursor::new(&chunk[..]);
                    let n = self.server.read_tls(&mut cursor).unwrap();
                    self.server.process_new_packets().unwrap();
                    carried += n;
                    action = self.writer.step(&mut self.io, &self.waker, WriteEvent::Wrote(n));
                }
                WriteAction::Flush => {
                    action = self.writer.step(&mut self.io, &self.waker, WriteEvent::Flushed)
                }
                WriteAction::Park => return carried,
                other => panic!("unexpected {:?}", other),
            }
        }
    }

    /// The read pump carries what the server has to say to the client.
    fn to_client(&mut self) -> usize {
        let mut out = Vec::new();
        while self.server.wants_write() {
            self.server.write_tls(&mut out).unwrap();
        }
        if out.is_empty() {
            return 0;
        }
        assert_eq!(self.reader.step(&mut self.io, &self.waker, ReadEvent::Poll), ReadAction::Read);
        self.reader.buf.as_mut().unwrap().extend_from_slice(&out);
        assert_eq!(self.reader.step(&mut self.io, &self.waker, ReadEvent::Ready), ReadAction::Read);
        assert_eq!(self.reader.step(&mut self.io, &self.waker, ReadEvent::Pending), ReadAction::Park);
        out.len()
    }

    fn handshake(&mut self) {
        for _ in 0..20 {
            let step = self.round();
            self.to_server();
            self.to_client();
            match step {
                HandshakeStep::Finish | HandshakeStep::AwaitReadThenFinish => {
                    if !self.server.is_handshaking() {
                        return;
                    }
                }
                HandshakeStep::Retry | HandshakeStep::AwaitReadThenRetry => {}
                HandshakeStep::Fail(e) => panic!("handshake failed: {:?}", e),
            }
        }
        panic!("the handshake did not end");
    }
}

#[test]
fn handshake_completes_and_agrees_on_h2() {
    let mut peers = Peers::new(&[b"h2", b"http/1.1"], &[b"h2"]);
    assert!(peers.io.filter.session.is_handshaking());
    peers.handshake();
    assert!(!peers.io.filter.session.is_handshaking());
    assert!(!peers.server.is_handshaking());
    assert_eq!(peers.server.alpn_protocol(), Some(&b"h2"[..]));
    assert_eq!(
        peers.io.query(QueryKey::HttpProtocol),
        Some(QueryValue::HttpProtocol(HttpProtocol::Http2))
    );
    assert!(!peers.io.state.has(Flag::IoStopped));
}

#[test]
fn handshake_without_h2_means_http1() {
    let mut peers = Peers::new(&[b"h2", b"http/1.1"], &[b"http/1.1"]);
    peers.handshake();
    assert_eq!(
        peers.io.query(QueryKey::HttpProtocol),
        Some(QueryValue::HttpProtocol(HttpProtocol::Http1))
    );

    let mut peers = Peers::new(&[], &[b"h2"]);
    peers.handshake();
    assert_eq!(
        peers.io.query(QueryKey::HttpProtocol),
        Some(QueryValue::HttpProtocol(HttpProtocol::Http1))
    );
}

#[test]
fn plaintext_crosses_the_layer_in_both_directions() {
    let mut peers = Peers::new(&[b"h2"], &[b"h2"]);
    peers.handshake();
    peers.io.state.read_buf = None;
    peers.io.state.flags.remove(Flag::RdReady);

    peers.server.writer().write_all(b"hello from the server").unwrap();
    let raw = peers.to_client();
    assert!(raw > 21);
    assert_eq!(&peers.io.state.read_buf.as_ref().unwrap()[..], b"hello from the server");
    assert!(peers.io.state.has(Flag::RdReady));
    assert!(peers.io.filter.read_buf.is_none());

    peers.server.writer().write_all(b", twice").unwrap();
    peers.to_client();
    assert_eq!(
        &peers.io.state.read_buf.as_ref().unwrap()[..],
        b"hello from the server, twice"
    );

    assert!(matches!(peers.io.write(b"hello from the client"), Ok(false)));
    let wire = peers.io.state.write_buf.as_ref().unwrap().to_vec();
    assert!(wire.len() > 21);
    assert!(!wire.windows(5).any(|w| w == b"hello"));
    assert!(peers.to_server() > 21);
    let mut got = [0u8; 64];
    let n = peers.server.reader().read(&mut got).unwrap();
    assert_eq!(&got[..n], b"hello from the client");
}

#[test]
fn a_record_in_two_pieces_is_decoded_when_it_is_whole() {
    let mut peers = Peers::new(&[], &[]);
    peers.handshake();
    peers.io.state.read_buf = None;
    peers.io.state.flags.remove(Flag::RdReady);

    peers.server.writer().write_all(b"split").unwrap();
    let mut out = Vec::new();
    while peers.server.wants_write() {
        peers.server.write_tls(&mut out).unwrap();
    }
    let (first, second) = out.split_at(out.len() / 2);

    let mut dst = None;
    let res = peers
        .io
        .filter
        .release_read_buf(BytesMut::from(first), &mut dst, first.len());
    assert!(matches!(res, Ok(0)));
    assert!(dst.as_ref().map(|b| b.is_empty()).unwrap_or(true));

    let mut buf = peers
        .io
        .filter
        .get_read_buf(&mut peers.io.state)
        .unwrap_or_else(BytesMut::new);
    buf.extend_from_slice(second);
    let res = peers.io.filter.release_read_buf(buf, &mut dst, second.len());
    assert!(matches!(res, Ok(5)));
    assert_eq!(&dst.unwrap()[..], b"split");
}

#[test]
fn garbage_after_the_handshake_asks_for_a_graceful_close() {
    let mut peers = Peers::new(&[], &[]);
    peers.handshake();
    peers.io.state.read_buf = None;
    peers.io.state.flags.remove(Flag::RdReady);
    assert!(!peers.io.state.has(Flag::IoFilters));

    let waker = peers.waker.clone();
    assert_eq!(peers.reader.step(&mut peers.io, &waker, ReadEvent::Poll), ReadAction::Read);
    peers.reader.buf.as_mut().unwrap().extend_from_slice(&[0xffu8; 64]);
    assert_eq!(peers.reader.step(&mut peers.io, &waker, ReadEvent::Ready), ReadAction::Read);
    assert_eq!(peers.reader.step(&mut peers.io, &waker, ReadEvent::Pending), ReadAction::Park);
    assert!(peers.io.state.has(Flag::RdReady));
    assert!(peers.io.state.has(Flag::IoShutdown));
    assert!(!peers.io.state.has(Flag::IoStopped));
    assert!(peers.io.state.error.is_none());
    assert_eq!(peers.reader.step(&mut peers.io, &waker, ReadEvent::Poll), ReadAction::Exit);
}
