//! The TLS client layer: a filter that decrypts what the transport delivers
//! and encrypts what the dispatcher writes, with a `rustls` client session.
//!
//! The session is opaque here. Its methods are reached through the trusted
//! functions at the head of this file, which state what `rustls` shows of
//! every outcome and nothing of what the session will decide.

use crate::buf::{as_slice, contents, max_len, spec_max_len};
use crate::error::IoError;
use crate::filter::{Filter, Io};
use crate::layer::write_through;
use crate::pool::MemoryPool;
use crate::read_task::make_room;
use crate::state::{bytes_of, IoState, IoView};
use crate::status::{Poll, ReadStatus, WriteStatus};
use crate::types::{HttpProtocol, QueryKey, QueryValue};
use crate::write_task::unwritten;
use ntex_bytes::BytesMut;
use rustls::ClientConnection;
use std::io::{Read, Write};
use std::task::Waker;
use vstd::prelude::*;

verus! {

/// `rustls::ClientConnection`: a client session, of which nothing is seen
/// here.
#[verifier::external_type_specification]
#[verifier::external_body]
pub struct ExClientConnection(ClientConnection);

/// Whether a session is still in its handshake: what its `is_handshaking`
/// reads off it.
pub uninterp spec fn handshaking_of(session: &ClientConnection) -> bool;

/// The protocol that a session has agreed on with its peer, if any: what its
/// `alpn_protocol` reads off it.
pub uninterp spec fn alpn_of(session: &ClientConnection) -> Option<Seq<u8>>;

/// `is_handshaking` of the session, which reads the session and changes
/// nothing: whether the handshake is still under way.
#[verifier::external_body]
fn session_is_handshaking(session: &ClientConnection) -> (r: bool)
    ensures
        r == handshaking_of(session),
{
    session.is_handshaking()
}

/// `alpn_protocol` of the session, which reads the session and changes
/// nothing: the protocol agreed with the peer, if any, copied out.
#[verifier::external_body]
fn session_alpn(session: &ClientConnection) -> (r: Option<Vec<u8>>)
    ensures
        (match r {
            Some(v) => Some(v@),
            None => None,
        }) == alpn_of(session),
{
    session.alpn_protocol().map(|p| p.to_vec())
}

/// `read_tls` of the session, fed from a cursor over `src`: the session
/// takes bytes from the front of `src` and says how many.
#[verifier::external_body]
fn session_read_tls(session: &mut ClientConnection, src: &[u8]) -> (res: Result<
    usize,
    std::io::Error,
>)
    ensures
        res matches Ok(n) ==> n <= src@.len(),
{
    let mut cursor = std::io::Cursor::new(src);
    session.read_tls(&mut cursor)
}

/// `process_new_packets` of the session, and of the state it returns
/// `plaintext_bytes_to_read`: how many plaintext bytes can be read now. A TLS
/// error comes back as an I/O error of kind `Other` around it.
#[verifier::external_body]
fn session_process(session: &mut ClientConnection) -> Result<usize, std::io::Error> {
    match session.process_new_packets() {
        Ok(state) => Ok(state.plaintext_bytes_to_read()),
        Err(e) => Err(std::io::Error::new(std::io::ErrorKind::Other, e)),
    }
}

/// `reader().read` of the session into a scratch space of `want` bytes: the
/// plaintext that the session gave, which is no longer than the space.
#[verifier::external_body]
fn session_read_plain(session: &mut ClientConnection, want: usize) -> (res: Result<
    Vec<u8>,
    std::io::Error,
>)
    requires
        want <= spec_max_len(),
    ensures
        res matches Ok(plain) ==> plain@.len() <= want,
{
    let mut scratch = vec![0u8; want];
    let v = session.reader().read(&mut scratch)?;
    scratch.truncate(v);
    Ok(scratch)
}

/// `writer().write` of the session: the session takes plaintext from the
/// front of `src` and says how many bytes.
#[verifier::external_body]
fn session_write_plain(session: &mut ClientConnection, src: &[u8]) -> (res: Result<
    usize,
    std::io::Error,
>)
    ensures
        res matches Ok(n) ==> n <= src@.len(),
{
    session.writer().write(src)
}

/// `write_tls` of the session into a vector: the session's TLS bytes are put
/// behind the bytes of `out`, and the method says how many. On an error `out`
/// keeps what it held.
#[verifier::external_body]
fn session_write_tls(session: &mut ClientConnection, out: &mut Vec<u8>) -> (res: Result<
    usize,
    std::io::Error,
>)
    ensures
        old(out)@.is_prefix_of(final(out)@),
        res matches Ok(n) ==> final(out)@.len() == old(out)@.len() + n,
        res is Err ==> final(out)@ == old(out)@,
{
    session.write_tls(out)
}

/// Whether an ALPN answer is `h2`: these two bytes and no others.
pub open spec fn spec_is_h2(proto: Seq<u8>) -> bool {
    proto == seq![0x68u8, 0x32u8]
}

/// Whether an ALPN answer is `h2`.
pub fn is_h2(proto: &[u8]) -> (r: bool)
    ensures
        r == spec_is_h2(proto@),
{
    let r = proto.len() == 2 && proto[0] == 0x68 && proto[1] == 0x32;
    proof {
        if r {
            assert(proto@ =~= seq![0x68u8, 0x32u8]);
        }
    }
    r
}

/// The protocol that an ALPN answer stands for: HTTP/2 where the peers agreed
/// on `h2`, HTTP/1 on every other answer and where there was none.
pub open spec fn spec_protocol_of(alpn: Option<Seq<u8>>) -> HttpProtocol {
    match alpn {
        Some(p) => if spec_is_h2(p) {
            HttpProtocol::Http2
        } else {
            HttpProtocol::Http1
        },
        None => HttpProtocol::Http1,
    }
}

/// The protocol that an ALPN answer stands for.
pub fn protocol_of(alpn: &Option<Vec<u8>>) -> (p: HttpProtocol)
    ensures
        p == spec_protocol_of(
            match *alpn {
                Some(v) => Some(v@),
                None => None,
            },
        ),
{
    match alpn {
        Some(v) => {
            if is_h2(v.as_slice()) {
                HttpProtocol::Http2
            } else {
                HttpProtocol::Http1
            }
        },
        None => HttpProtocol::Http1,
    }
}

/// How one round of the session's handshake I/O ended.
#[derive(Debug)]
pub enum HandshakeIo {
    /// The round went through.
    Complete,
    /// The round cannot go on before the transport delivers or takes bytes.
    WouldBlock,
    /// The round failed.
    Failed(IoError),
}

/// What the handshake does after a round.
#[derive(Debug)]
pub enum HandshakeStep {
    /// The handshake is over: the connection is ready.
    Finish,
    /// Wait until the connection can be read, then the handshake is over.
    AwaitReadThenFinish,
    /// Run another round at once.
    Retry,
    /// Wait until the connection can be read, then run another round.
    AwaitReadThenRetry,
    /// The handshake has failed.
    Fail(IoError),
}

/// Decides what follows a round of handshake I/O. A round that went through
/// ends the handshake, after a wait for readable input if the session wants
/// to read. A round that would block is run again, after the same wait if the
/// session wants to read. Any other error ends the handshake with it.
pub fn handshake_next(round: HandshakeIo, wants_read: bool) -> (step: HandshakeStep)
    ensures
        step == (match round {
            HandshakeIo::Complete => if wants_read {
                HandshakeStep::AwaitReadThenFinish
            } else {
                HandshakeStep::Finish
            },
            HandshakeIo::WouldBlock => if wants_read {
                HandshakeStep::AwaitReadThenRetry
            } else {
                HandshakeStep::Retry
            },
            HandshakeIo::Failed(e) => HandshakeStep::Fail(e),
        }),
{
    match round {
        HandshakeIo::Complete => if wants_read {
            HandshakeStep::AwaitReadThenFinish
        } else {
            HandshakeStep::Finish
        },
        HandshakeIo::WouldBlock => if wants_read {
            HandshakeStep::AwaitReadThenRetry
        } else {
            HandshakeStep::Retry
        },
        HandshakeIo::Failed(e) => HandshakeStep::Fail(e),
    }
}

/// What a wait for readable input means to the handshake: a connection whose
/// peer is gone fails it with `Disconnected`, an error fails it with that
/// error, readable input lets it go on.
pub fn handshake_read_ready(res: Poll<Result<Option<()>, IoError>>) -> (r: Poll<
    Result<(), IoError>,
>)
    ensures
        r == (match res {
            Poll::Pending => Poll::Pending,
            Poll::Ready(Ok(None)) => Poll::Ready(Err(IoError::Disconnected)),
            Poll::Ready(Err(e)) => Poll::Ready(Err(e)),
            Poll::Ready(Ok(Some(_))) => Poll::Ready(Ok(())),
        }),
{
    match res {
        Poll::Pending => Poll::Pending,
        Poll::Ready(Ok(None)) => Poll::Ready(Err(IoError::Disconnected)),
        Poll::Ready(Err(e)) => Poll::Ready(Err(e)),
        Poll::Ready(Ok(Some(_))) => Poll::Ready(Ok(())),
    }
}

/// The TLS client layer over the chain `inner`.
pub struct TlsClientFilter<F> {
    /// The chain under this layer.
    pub inner: F,
    /// The pool that this layer's buffers come from.
    pub pool: MemoryPool,
    /// Bytes of the transport that the session has not taken yet.
    pub read_buf: Option<BytesMut>,
    /// Plaintext of the dispatcher that the session has not taken yet.
    pub write_buf: Option<BytesMut>,
    /// The session.
    pub session: ClientConnection,
}

/// Takes a staged buffer out of its place, and drops an empty one.
fn take_staged(slot: &mut Option<BytesMut>) -> (buf: Option<BytesMut>)
    ensures
        final(slot).is_none(),
        bytes_of(buf) == bytes_of(*old(slot)),
        buf.is_some() <==> bytes_of(*old(slot)).len() > 0,
{
    match slot.take() {
        Some(b) => if b.is_empty() {
            assert(contents(&b) =~= Seq::<u8>::empty());
            None
        } else {
            Some(b)
        },
        None => None,
    }
}

/// What a layer holds of `bytes` once a session has taken `taken` of them
/// from the front: the rest, in place of what it held before; or, where the
/// session has taken them all, what it held before.
pub open spec fn kept_after(
    before: Option<BytesMut>,
    after: Option<BytesMut>,
    bytes: Seq<u8>,
    taken: int,
) -> bool {
    &&& taken < bytes.len() ==> bytes_of(after) == bytes.skip(taken)
    &&& taken == bytes.len() ==> after == before
}

/// What a layer holds of `bytes` after a session has taken from their front,
/// however many it took.
pub open spec fn left_with_layer(
    before: Option<BytesMut>,
    after: Option<BytesMut>,
    bytes: Seq<u8>,
) -> bool {
    exists|taken: int| 0 <= taken <= bytes.len() && #[trigger] kept_after(
        before,
        after,
        bytes,
        taken,
    )
}

/// What a session is offered of a source: all of its bytes, first to last.
pub fn offered(src: &BytesMut) -> (all: &[u8])
    ensures
        all@ == contents(src),
{
    as_slice(src)
}

/// An error of the session as an error of the connection.
pub fn session_error(e: std::io::Error) -> (r: IoError)
    ensures
        r == IoError::Transport(e),
{
    IoError::Transport(e)
}

/// What the chain below has made of the read pump's bytes: its error as it
/// is, and otherwise the buffer that it left.
pub fn from_below(answer: Result<usize, IoError>, left: Option<BytesMut>) -> (res: Result<
    Option<BytesMut>,
    IoError,
>)
    ensures
        res == (match answer {
            Ok(_) => Ok::<Option<BytesMut>, IoError>(left),
            Err(e) => Err(e),
        }),
{
    match answer {
        Ok(_) => Ok(left),
        Err(e) => Err(e),
    }
}

/// A round's first answer: the session was offered all of `src` and has said
/// how many bytes it took from the front. Those bytes leave `src`; a count
/// beyond its length empties it. An error of the session leaves `src` as it
/// is and comes back as the connection's.
pub fn source_after(src: &mut BytesMut, took: Result<usize, std::io::Error>) -> (res: Result<
    (),
    IoError,
>)
    ensures
        match took {
            Ok(n) => res.is_ok() && contents(final(src)) == unwritten(contents(old(src)), n as nat),
            Err(e) => res == Err::<(), IoError>(IoError::Transport(e)) && contents(final(src))
                == contents(old(src)),
        },
{
    match took {
        Ok(n) => {
            if n >= src.len() {
                src.clear();
            } else {
                let _ = src.split_to(n);
            }
            Ok(())
        },
        Err(e) => Err(session_error(e)),
    }
}

/// A reading round's second answer: the session has said how many bytes of
/// plaintext are ready. All of them are asked for where they fit behind the
/// `held` bytes of the destination, and none where they do not or where none
/// are ready, which ends the rounds. An error of the session comes back as
/// the connection's.
pub fn plaintext_to_ask(ready: Result<usize, std::io::Error>, held: usize) -> (res: Result<
    usize,
    IoError,
>)
    ensures
        res == (match ready {
            Ok(n) => Ok::<usize, IoError>(
                if held + n <= spec_max_len() {
                    n
                } else {
                    0
                },
            ),
            Err(e) => Err(IoError::Transport(e)),
        }),
{
    match ready {
        Ok(n) => {
            let limit = max_len();
            if held <= limit && n <= limit - held {
                Ok(n)
            } else {
                Ok(0)
            }
        },
        Err(e) => Err(session_error(e)),
    }
}

/// A reading round's third answer: the session has given plaintext. It is put
/// behind the bytes of `dst`, and its length comes back; a length of zero
/// ends the rounds. Plaintext that does not fit fails with `BufferFull`, and
/// an error of the session comes back as the connection's; both leave `dst`
/// as it is.
pub fn plaintext_behind(dst: &mut BytesMut, plain: Result<Vec<u8>, std::io::Error>) -> (res:
    Result<usize, IoError>)
    ensures
        match plain {
            Ok(p) => if contents(old(dst)).len() + p@.len() <= spec_max_len() {
                res == Ok::<usize, IoError>(p@.len() as usize) && contents(final(dst))
                    == contents(old(dst)) + p@
            } else {
                res == Err::<usize, IoError>(IoError::BufferFull) && contents(final(dst))
                    == contents(old(dst))
            },
            Err(e) => res == Err::<usize, IoError>(IoError::Transport(e)) && contents(final(dst))
                == contents(old(dst)),
        },
{
    match plain {
        Ok(p) => {
            let limit = max_len();
            let held = dst.len();
            if held <= limit && p.len() <= limit - held {
                dst.extend_from_slice(p.as_slice());
                Ok(p.len())
            } else {
                Err(IoError::BufferFull)
            }
        },
        Err(e) => Err(session_error(e)),
    }
}

/// A writing round's second answer: the session has said how many TLS bytes
/// it gave. Another round follows exactly if it gave some. An error of the
/// session comes back as the connection's.
pub fn another_round(gave: Result<usize, std::io::Error>) -> (res: Result<bool, IoError>)
    ensures
        res == (match gave {
            Ok(n) => Ok::<bool, IoError>(n > 0),
            Err(e) => Err(IoError::Transport(e)),
        }),
{
    match gave {
        Ok(n) => Ok(n > 0),
        Err(e) => Err(session_error(e)),
    }
}

/// The outcome of the rounds of a write: the session's error if it failed,
/// else the error of the chain below if passing down failed, else success.
pub fn write_outcome(failed: Option<IoError>, passed: Result<usize, IoError>) -> (res: Result<
    usize,
    IoError,
>)
    ensures
        res == (match failed {
            Some(e) => Err::<usize, IoError>(e),
            None => passed,
        }),
{
    match failed {
        Some(e) => Err(e),
        None => passed,
    }
}

/// The end of the rounds: on success what the session has not taken of the
/// source is kept in `slot`, in place of what was there, unless nothing is
/// left; on failure `slot` stays as it is. The outcome comes back as it is.
pub fn settle(slot: &mut Option<BytesMut>, rest: BytesMut, outcome: Result<usize, IoError>) -> (res:
    Result<usize, IoError>)
    ensures
        res == outcome,
        *final(slot) == (if outcome.is_ok() && contents(&rest).len() > 0 {
            Some(rest)
        } else {
            *old(slot)
        }),
{
    match outcome {
        Ok(n) => {
            if !rest.is_empty() {
                *slot = Some(rest);
            }
            Ok(n)
        },
        Err(e) => Err(e),
    }
}

/// The first `max` bytes of `s`, or all there are.
pub open spec fn front_of(s: Seq<u8>, max: usize) -> Seq<u8> {
    if s.len() < max {
        s
    } else {
        s.take(max as int)
    }
}

/// Takes up to `max` bytes from the front of a staged buffer. `None` says
/// that there is nothing to take: nothing is staged, or `max` is zero.
pub fn take_front(slot: &mut Option<BytesMut>, max: usize) -> (head: Option<BytesMut>)
    ensures
        head.is_some() <==> bytes_of(*old(slot)).len() > 0 && max > 0,
        head matches Some(h) ==> contents(&h) == front_of(bytes_of(*old(slot)), max) && bytes_of(
            *final(slot),
        ) == bytes_of(*old(slot)).skip(front_of(bytes_of(*old(slot)), max).len() as int),
        head.is_none() ==> bytes_of(*final(slot)) == bytes_of(*old(slot)),
{
    match slot.take() {
        Some(mut b) => {
            let len = if b.len() < max {
                b.len()
            } else {
                max
            };
            if len > 0 {
                proof {
                    assert(contents(&b).take(len as int) =~= front_of(contents(&b), max));
                }
                let head = b.split_to(len);
                *slot = Some(b);
                Some(head)
            } else {
                *slot = Some(b);
                None
            }
        },
        None => None,
    }
}

impl<F: Filter> TlsClientFilter<F> {
    /// Puts the TLS layer on the head of a connection's chain. The layer
    /// starts with the bytes that the chain had staged for the read pump.
    pub fn wrap(io: Io<F>, session: ClientConnection) -> (out: Io<TlsClientFilter<F>>)
        ensures
            io.state@.read_take(out.state@),
            out.filter.pool == io.state@.pool,
            out.filter.write_buf.is_none(),
            out.filter.session == session,
            F::transparent() ==> {
                &&& out.filter.inner == io.filter
                &&& bytes_of(out.filter.read_buf) == io.state@.read
                &&& out.state@ == (IoView { read: Seq::empty(), ..io.state@ })
            },
    {
        let Io { state, filter } = io;
        let mut state = state;
        let mut inner = filter;
        let pool = state.pool;
        let read_buf = inner.get_read_buf(&mut state);
        Io {
            state,
            filter: TlsClientFilter { inner, pool, read_buf, write_buf: None, session },
        }
    }

    /// Hands out bytes for the session to read during the handshake: see
    /// [`take_front`].
    pub fn read_staged(&mut self, max: usize) -> (head: Option<BytesMut>)
        ensures
            final(self).inner == old(self).inner,
            final(self).pool == old(self).pool,
            final(self).write_buf == old(self).write_buf,
            final(self).session == old(self).session,
            head.is_some() <==> bytes_of(old(self).read_buf).len() > 0 && max > 0,
            head matches Some(h) ==> contents(&h) == front_of(bytes_of(old(self).read_buf), max)
                && bytes_of(final(self).read_buf) == bytes_of(old(self).read_buf).skip(
                front_of(bytes_of(old(self).read_buf), max).len() as int,
            ),
            head.is_none() ==> bytes_of(final(self).read_buf) == bytes_of(old(self).read_buf),
    {
        take_front(&mut self.read_buf, max)
    }

    /// Passes the session's TLS bytes `src` down the chain: see
    /// [`write_through`].
    pub fn write_through(&mut self, st: &mut IoState, src: &[u8]) -> (res: Result<
        usize,
        IoError,
    >)
        ensures
            old(st)@.write_step(final(st)@),
            final(self).pool == old(self).pool,
            final(self).read_buf == old(self).read_buf,
            final(self).write_buf == old(self).write_buf,
            final(self).session == old(self).session,
            res matches Ok(n) ==> n == src@.len(),
            F::transparent() ==> (res matches Err(e) ==> e is BufferFull),
            F::transparent() && res.is_ok() ==> final(st)@ == old(st)@.written(src@),
            F::transparent() ==> old(st)@.write.is_prefix_of(final(st)@.write),
    {
        write_through(&mut self.inner, &self.pool, st, src)
    }

    /// What [`Filter::release_read_buf`] does once the session has said
    /// whether it is still in its handshake.
    ///
    /// During the handshake nothing is decoded: the layer keeps `src` for the
    /// session to read, and answers 1, not 0, so that the caller does not
    /// take the answer for the end of the stream.
    ///
    /// After the handshake `src` goes through the chain below, whose error
    /// comes back as it is ([`from_below`]). Then, round after round, the
    /// session is offered all that is left of what came out
    /// ([`source_after`]), says how much plaintext is ready
    /// ([`plaintext_to_ask`]) and gives it ([`plaintext_behind`]), until
    /// nothing is ready or a round fails. At the end what the session has not
    /// taken stays with the layer ([`settle`]), and the answer is the number
    /// of bytes put behind `dst`. Whatever the session does, `dst` keeps the
    /// bytes that it held.
    pub fn release_read_with(
        &mut self,
        handshaking: bool,
        src: BytesMut,
        dst: &mut Option<BytesMut>,
        nbytes: usize,
    ) -> (res: Result<usize, IoError>)
        ensures
            final(self).pool == old(self).pool,
            final(self).write_buf == old(self).write_buf,
            handshaking ==> {
                &&& res == Ok::<usize, IoError>(1)
                &&& final(self).read_buf == Some(src)
                &&& *final(dst) == *old(dst)
                &&& final(self).inner == old(self).inner
                &&& final(self).session == old(self).session
            },
            bytes_of(*old(dst)).is_prefix_of(bytes_of(*final(dst))),
            !handshaking ==> (res matches Ok(n) ==> bytes_of(*final(dst)).len() == bytes_of(
                *old(dst),
            ).len() + n),
            !handshaking && res is Err ==> final(self).read_buf == old(self).read_buf,
            !handshaking && res.is_ok() && F::transparent() ==> left_with_layer(
                old(self).read_buf,
                final(self).read_buf,
                contents(&src),
            ),
    {
        if handshaking {
            self.read_buf = Some(src);
            return Ok(1);
        }
        let ghost given = contents(&src);
        let mut below: Option<BytesMut> = None;
        let answer = self.inner.release_read_buf(src, &mut below, nbytes);
        proof {
            if F::transparent() {
                assert(bytes_of(below) =~= given.skip(0));
            }
        }
        let mut raw = match from_below(answer, below) {
            Err(e) => {
                return Err(e);
            },
            Ok(None) => {
                proof {
                    if F::transparent() {
                        assert(kept_after(old(self).read_buf, self.read_buf, given, 0));
                    }
                }
                return Ok(0);
            },
            Ok(Some(b)) => b,
        };
        let ghost mut gone: int = 0;
        let (hw, lw) = self.pool.read().unpack();
        let mut buf = match dst.take() {
            Some(b) => b,
            None => self.pool.get_read_buf(),
        };
        let ghost before = bytes_of(*old(dst));
        assert(contents(&buf) == before);
        let mut new_bytes: usize = 0;
        let mut failed: Option<IoError> = None;
        loop
            invariant
                self.pool == old(self).pool,
                self.write_buf == old(self).write_buf,
                self.read_buf == old(self).read_buf,
                before.is_prefix_of(contents(&buf)),
                contents(&buf).len() == before.len() + new_bytes,
                0 <= gone <= given.len(),
                F::transparent() ==> contents(&raw) == given.skip(gone),
            ensures
                self.pool == old(self).pool,
                self.write_buf == old(self).write_buf,
                self.read_buf == old(self).read_buf,
                before.is_prefix_of(contents(&buf)),
                contents(&buf).len() == before.len() + new_bytes,
                0 <= gone <= given.len(),
                F::transparent() ==> contents(&raw) == given.skip(gone),
            decreases usize::MAX - contents(&buf).len(),
        {
            make_room(&mut buf, hw, lw);
            let ghost left = contents(&raw);
            let took = session_read_tls(&mut self.session, offered(&raw));
            let ghost n = match took {
                Ok(n) => if n < left.len() {
                    n as int
                } else {
                    left.len() as int
                },
                Err(_) => 0,
            };
            match source_after(&mut raw, took) {
                Ok(()) => {},
                Err(e) => {
                    failed = Some(e);
                    break ;
                },
            }
            proof {
                if F::transparent() {
                    assert(unwritten(given.skip(gone), n as nat) =~= given.skip(gone + n));
                    gone = gone + n;
                }
            }
            let ready = session_process(&mut self.session);
            let want = match plaintext_to_ask(ready, buf.len()) {
                Ok(want) => want,
                Err(e) => {
                    failed = Some(e);
                    break ;
                },
            };
            if want == 0 {
                break ;
            }
            let plain = session_read_plain(&mut self.session, want);
            match plaintext_behind(&mut buf, plain) {
                Ok(v) => {
                    if v == 0 {
                        break ;
                    }
                    new_bytes = new_bytes + v;
                },
                Err(e) => {
                    failed = Some(e);
                    break ;
                },
            }
        }
        *dst = Some(buf);
        let outcome = match failed {
            Some(e) => Err(e),
            None => Ok(new_bytes),
        };
        proof {
            if F::transparent() && outcome.is_ok() {
                assert(contents(&raw).len() == given.len() - gone);
                if contents(&raw).len() > 0 {
                    assert(kept_after(old(self).read_buf, Some(raw), given, gone));
                } else {
                    assert(kept_after(old(self).read_buf, old(self).read_buf, given, gone));
                }
            }
        }
        settle(&mut self.read_buf, raw, outcome)
    }

    /// The rounds of a write. Round after round the session is offered all
    /// that is left of `src` ([`source_after`]) and gives its TLS bytes, until
    /// it gives none ([`another_round`]) or fails. Then what it gave goes
    /// down the chain in one piece, also after a failure. The outcome is the
    /// session's error, else the chain's, else success ([`write_outcome`]),
    /// and on success what is left of `src` stays with the layer
    /// ([`settle`]).
    ///
    /// Whatever the session does: the layer's pool and what it holds of the
    /// transport's bytes stay as they are; without success so does what it
    /// holds of the dispatcher's; and over a transparent chain the bytes that
    /// waited to be written still wait, in front of what the session gave.
    pub fn write_rounds(&mut self, st: &mut IoState, src: BytesMut) -> (res: Result<(), IoError>)
        ensures
            old(st)@.write_step(final(st)@),
            final(self).pool == old(self).pool,
            final(self).read_buf == old(self).read_buf,
            res is Err ==> final(self).write_buf == old(self).write_buf,
            res.is_ok() ==> left_with_layer(
                old(self).write_buf,
                final(self).write_buf,
                contents(&src),
            ),
            F::transparent() ==> old(st)@.write.is_prefix_of(final(st)@.write),
    {
        let ghost given = contents(&src);
        let ghost mut gone: int = 0;
        let mut src = src;
        proof {
            assert(contents(&src) =~= given.skip(0));
        }
        let mut out: Vec<u8> = Vec::new();
        let mut failed: Option<IoError> = None;
        loop
            invariant
                self.pool == old(self).pool,
                self.read_buf == old(self).read_buf,
                self.write_buf == old(self).write_buf,
                0 <= gone <= given.len(),
                contents(&src) == given.skip(gone),
            ensures
                self.pool == old(self).pool,
                self.read_buf == old(self).read_buf,
                self.write_buf == old(self).write_buf,
                0 <= gone <= given.len(),
                contents(&src) == given.skip(gone),
            decreases usize::MAX - out@.len(),
        {
            if !src.is_empty() {
                let ghost left = contents(&src);
                let took = session_write_plain(&mut self.session, offered(&src));
                let ghost n = match took {
                    Ok(n) => if n < left.len() {
                        n as int
                    } else {
                        left.len() as int
                    },
                    Err(_) => 0,
                };
                match source_after(&mut src, took) {
                    Ok(()) => {},
                    Err(e) => {
                        failed = Some(e);
                        break ;
                    },
                }
                proof {
                    assert(unwritten(given.skip(gone), n as nat) =~= given.skip(gone + n));
                    gone = gone + n;
                }
            }
            let gave = session_write_tls(&mut self.session, &mut out);
            let _ = out.len();
            match another_round(gave) {
                Ok(more) => {
                    if !more {
                        break ;
                    }
                },
                Err(e) => {
                    failed = Some(e);
                    break ;
                },
            }
        }
        let passed = if out.len() > 0 {
            self.write_through(st, out.as_slice())
        } else {
            Ok(0)
        };
        let outcome = write_outcome(failed, passed);
        proof {
            if outcome.is_ok() {
                assert(contents(&src).len() == given.len() - gone);
                if contents(&src).len() > 0 {
                    assert(kept_after(old(self).write_buf, Some(src), given, gone));
                } else {
                    assert(kept_after(old(self).write_buf, old(self).write_buf, given, gone));
                }
            }
        }
        match settle(&mut self.write_buf, src, outcome) {
            Ok(_) => Ok(()),
            Err(e) => Err(e),
        }
    }

    /// Passes down the chain whatever TLS bytes the session has to give, as
    /// after a round of the handshake: the rounds of a write with nothing to
    /// write. What the layer holds stays as it is.
    pub fn drain_session(&mut self, st: &mut IoState) -> (res: Result<(), IoError>)
        ensures
            old(st)@.write_step(final(st)@),
            final(self).pool == old(self).pool,
            final(self).read_buf == old(self).read_buf,
            final(self).write_buf == old(self).write_buf,
            F::transparent() ==> old(st)@.write.is_prefix_of(final(st)@.write),
    {
        let res = self.write_rounds(st, BytesMut::new());
        proof {
            if res.is_ok() {
                let taken = choose|taken: int|
                    0 <= taken <= 0 && #[trigger] kept_after(
                        old(self).write_buf,
                        self.write_buf,
                        Seq::<u8>::empty(),
                        taken,
                    );
                assert(taken == 0);
            }
        }
        res
    }
}

impl<F: Filter> Filter for TlsClientFilter<F> {
    open spec fn transparent() -> bool {
        false
    }

    /// The layer passes every question about readiness and shutdown down.
    open spec fn defers() -> bool {
        F::defers()
    }

    /// What the layer makes of bytes is the session's to decide.
    open spec fn ruled() -> bool {
        false
    }

    open spec fn carries_up(&self, raw: Seq<u8>, after: Self, out: Seq<u8>) -> bool {
        false
    }

    open spec fn carries_down(&self, plain: Seq<u8>, after: Self, out: Seq<u8>) -> bool {
        false
    }

    proof fn lemma_transparent_carries(&self, bytes: Seq<u8>) {
    }

    /// The negotiated protocol is this layer's to tell: it is the protocol
    /// that the session's ALPN answer stands for. To every other question the
    /// answer is that of the chain below.
    open spec fn may_answer(&self, key: QueryKey, r: Option<QueryValue>) -> bool {
        if key == QueryKey::HttpProtocol {
            r == Some(QueryValue::HttpProtocol(spec_protocol_of(alpn_of(&self.session))))
        } else {
            self.inner.may_answer(key, r)
        }
    }

    /// The negotiated protocol is this layer's to tell; every other question
    /// goes down the chain.
    fn query(&self, key: QueryKey) -> (r: Option<QueryValue>)
        ensures
            key == QueryKey::HttpProtocol ==> r == Some(
                QueryValue::HttpProtocol(spec_protocol_of(alpn_of(&self.session))),
            ),
    {
        match key {
            QueryKey::HttpProtocol => {
                let alpn = session_alpn(&self.session);
                Some(QueryValue::HttpProtocol(protocol_of(&alpn)))
            },
            _ => self.inner.query(key),
        }
    }

    fn want_read(&mut self, st: &mut IoState) {
        self.inner.want_read(st)
    }

    fn want_shutdown(&mut self, st: &mut IoState, err: Option<IoError>) {
        self.inner.want_shutdown(st, err)
    }

    /// The layer has nothing of its own to shut down: the chain under it is
    /// asked, and the layer's buffers and session stay as they are. Over a
    /// transparent chain that is done at once and changes nothing.
    fn poll_shutdown(&mut self, st: &mut IoState) -> (res: Poll<Result<(), IoError>>)
        ensures
            final(self).pool == old(self).pool,
            final(self).read_buf == old(self).read_buf,
            final(self).write_buf == old(self).write_buf,
            final(self).session == old(self).session,
            F::transparent() || F::defers() ==> res == Poll::<Result<(), IoError>>::Ready(
                Ok(()),
            ) && final(st)@ == old(st)@,
    {
        self.inner.poll_shutdown(st)
    }

    fn poll_read_ready(&mut self, st: &mut IoState, waker: &Waker) -> (res: Poll<ReadStatus>) {
        self.inner.poll_read_ready(st, waker)
    }

    fn poll_write_ready(&mut self, st: &mut IoState, waker: &Waker) -> (res: Poll<
        WriteStatus,
    >) {
        self.inner.poll_write_ready(st, waker)
    }

    fn closed(&mut self, st: &mut IoState, err: Option<IoError>) {
        self.inner.closed(st, err)
    }

    /// The transport's bytes that the session has not taken, if there are
    /// any. The state block is not touched.
    fn get_read_buf(&mut self, st: &mut IoState) -> (buf: Option<BytesMut>)
        ensures
            final(st)@ == old(st)@,
            bytes_of(buf) == bytes_of(old(self).read_buf),
            final(self).read_buf.is_none(),
    {
        take_staged(&mut self.read_buf)
    }

    /// The dispatcher's plaintext that the session has not taken, if there
    /// is any. The state block is not touched.
    fn get_write_buf(&mut self, st: &mut IoState) -> (buf: Option<BytesMut>)
        ensures
            final(st)@ == old(st)@,
            bytes_of(buf) == bytes_of(old(self).write_buf),
            final(self).write_buf.is_none(),
    {
        take_staged(&mut self.write_buf)
    }

    /// Asks the session whether it is still in its handshake, and goes on as
    /// [`TlsClientFilter::release_read_with`] says for its answer.
    fn release_read_buf(
        &mut self,
        src: BytesMut,
        dst: &mut Option<BytesMut>,
        nbytes: usize,
    ) -> (res: Result<usize, IoError>)
        ensures
            final(self).pool == old(self).pool,
            final(self).write_buf == old(self).write_buf,
            bytes_of(*old(dst)).is_prefix_of(bytes_of(*final(dst))),
            res is Err ==> final(self).read_buf == old(self).read_buf,
            handshaking_of(&old(self).session) ==> {
                &&& res == Ok::<usize, IoError>(1)
                &&& final(self).read_buf == Some(src)
                &&& *final(dst) == *old(dst)
                &&& final(self).inner == old(self).inner
                &&& final(self).session == old(self).session
            },
            !handshaking_of(&old(self).session) ==> (res matches Ok(n) ==> bytes_of(
                *final(dst),
            ).len() == bytes_of(*old(dst)).len() + n),
            !handshaking_of(&old(self).session) && res.is_ok() && F::transparent()
                ==> left_with_layer(old(self).read_buf, final(self).read_buf, contents(&src)),
    {
        let handshaking = session_is_handshaking(&self.session);
        self.release_read_with(handshaking, src, dst, nbytes)
    }

    /// The session takes plaintext from the front of `buf` and its TLS bytes
    /// go down the chain: see [`TlsClientFilter::write_rounds`].
    fn release_write_buf(&mut self, st: &mut IoState, buf: BytesMut) -> (res: Result<
        (),
        IoError,
    >)
        ensures
            final(self).pool == old(self).pool,
            final(self).read_buf == old(self).read_buf,
            res is Err ==> final(self).write_buf == old(self).write_buf,
            res.is_ok() ==> left_with_layer(
                old(self).write_buf,
                final(self).write_buf,
                contents(&buf),
            ),
            F::transparent() ==> old(st)@.write.is_prefix_of(final(st)@.write),
    {
        self.write_rounds(st, buf)
    }
}

} // verus!
