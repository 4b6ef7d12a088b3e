//! The capabilities of the two I/O pumps: what the read pump and the write
//! pump may do to a connection.

use crate::buf::contents;
use crate::error::IoError;
use crate::filter::{Filter, Io};
use crate::flags::Flag;
use crate::pool::MemoryPool;
use crate::state::{bytes_of, IoView};
use crate::status::{Poll, ReadStatus, WriteStatus};
use ntex_bytes::BytesMut;
use std::task::Waker;
use vstd::prelude::*;

verus! {

/// The read pump's capability.
pub struct ReadContext(());

/// The write pump's capability.
pub struct WriteContext(());

impl IoView {
    /// The block after the read pump has released `buf`, `nbytes` of which
    /// are new, on a transparent chain: an empty buffer changes nothing, any
    /// other becomes the read buffer; then the filters are swept if that was
    /// asked for.
    pub open spec fn release_read(self, buf: Seq<u8>, nbytes: nat) -> IoView {
        if buf.len() == 0 {
            self.sweep()
        } else {
            self.read_released(buf, nbytes).sweep()
        }
    }

    /// The block after the chain has failed on what the read pump released
    /// and left `d` as the read buffer: `RdReady` is set, the dispatcher is
    /// woken, and shutdown is asked for with the chain's error.
    pub open spec fn read_failed(self, d: Seq<u8>, e: IoError) -> IoView {
        (IoView {
            flags: self.flags.insert(Flag::RdReady),
            read: d,
            dispatch_held: false,
            ..self
        }).want_shutdown(Some(e))
    }

    /// The block after the read pump has released a buffer of the bytes
    /// `buf`, on any chain. An empty buffer changes nothing. Any other goes
    /// through the chain, which leaves some bytes `d` as the read buffer and
    /// either answers a count `n`, on which the block goes by
    /// [`IoView::read_released`], or fails, on which it goes by
    /// [`IoView::read_failed`]. Last, the filters are swept if that was
    /// asked for.
    pub open spec fn read_release_step(self, buf: Seq<u8>, next: IoView) -> bool {
        if buf.len() == 0 {
            self.maybe_swept(next)
        } else {
            ||| exists|d: Seq<u8>, n: nat| (#[trigger] self.read_released(d, n)).maybe_swept(next)
            ||| exists|d: Seq<u8>, e: IoError| (#[trigger] self.read_failed(d, e)).maybe_swept(next)
        }
    }

    /// The block after the read pump has released a buffer of the bytes
    /// `buf`, on a chain that defers: as on any chain, but the sweep is that
    /// of the terminal layer.
    pub open spec fn read_release_deferred(self, buf: Seq<u8>, next: IoView) -> bool {
        if buf.len() == 0 {
            next == self.sweep()
        } else {
            ||| exists|d: Seq<u8>, n: nat| next == (#[trigger] self.read_released(d, n)).sweep()
            ||| exists|d: Seq<u8>, e: IoError| next == (#[trigger] self.read_failed(d, e)).sweep()
        }
    }

    /// The block after the write pump has released `rest`, on any chain: the
    /// block goes by [`IoView::write_released`], and the filters are swept if
    /// that was asked for.
    pub open spec fn write_release_step(self, rest: Seq<u8>, next: IoView) -> bool {
        self.write_released(rest).maybe_swept(next)
    }

    /// The block after the read pump has closed the chain: the connection
    /// stops, and `RdShutdown` says that the read side has finished.
    pub open spec fn read_closed(self, err: Option<IoError>) -> IoView {
        IoView { flags: self.stop(err).flags.insert(Flag::RdShutdown), ..self.stop(err) }
    }

    /// The block after the write pump has released `rest`, on a transparent
    /// chain.
    pub open spec fn release_write(self, rest: Seq<u8>) -> IoView {
        self.write_released(rest).sweep()
    }
}

/// The release of the read pump's bytes `buf` on a ruled chain that is not
/// transparent. Either the bytes come up through the chain as some `out`,
/// which goes behind what waits for the dispatcher and is announced to it by
/// its length; or the read buffer cannot hold them, and the chain fails with
/// `BufferFull`. Last, the filters are swept if that was asked for.
pub open spec fn carried_up<F: Filter>(
    before: F,
    after: F,
    io: IoView,
    buf: Seq<u8>,
    next: IoView,
) -> bool {
    ||| exists|out: Seq<u8>| #[trigger]
        before.carries_up(buf, after, out) && io.read_released(
            io.read + out,
            out.len(),
        ).maybe_swept(next)
    ||| exists|d: Seq<u8>| (#[trigger] io.read_failed(d, IoError::BufferFull)).maybe_swept(next)
}

/// What follows the chain's answer to a release of the read pump, where the
/// chain has left `dst` as the read buffer. On a count the block goes by
/// [`IoView::read_released`]: the buffer is stored, and a count above zero
/// is announced to the dispatcher. On an error it goes by
/// [`IoView::read_failed`]: the buffer is stored, `RdReady` is set, the
/// dispatcher is woken, and the chain is asked once for shutdown with that
/// error.
pub fn read_answered<F: Filter>(
    io: &mut Io<F>,
    dst: Option<BytesMut>,
    answer: Result<usize, IoError>,
)
    ensures
        final(io).state@ == (match answer {
            Ok(n) => old(io).state@.read_released(bytes_of(dst), n as nat),
            Err(e) => old(io).state@.read_failed(bytes_of(dst), e),
        }),
        F::ruled() ==> final(io).filter == old(io).filter,
{
    match answer {
        Ok(n) => {
            io.state.read_released(dst, n);
        },
        Err(err) => {
            io.state.read_released(dst, 0);
            io.state.dispatch_task.wake();
            io.state.flags.insert(Flag::RdReady);
            io.filter.want_shutdown(&mut io.state, Some(err));
        },
    }
}

impl ReadContext {
    pub(crate) fn new() -> ReadContext {
        ReadContext(())
    }

    /// The connection's pool and watermarks.
    pub fn memory_pool<F: Filter>(&self, io: &Io<F>) -> (pool: MemoryPool)
        ensures
            pool == io.state@.pool,
    {
        io.state.pool
    }

    /// Asks the chain whether the pump may read.
    pub fn poll_ready<F: Filter>(&self, io: &mut Io<F>, waker: &Waker) -> (res: Poll<
        ReadStatus,
    >)
        ensures
            final(io).state@ == old(io).state@.poll_read_ready(),
            res == old(io).state@.read_status() || (res is Pending && !old(io).state@.closing()),
            F::transparent() || F::defers() ==> res == old(io).state@.read_status(),
    {
        io.filter.poll_read_ready(&mut io.state, waker)
    }

    /// Tells the chain that the transport has closed, with `err` or at end of
    /// stream: the connection stops and the read side has finished.
    pub fn close<F: Filter>(&self, io: &mut Io<F>, err: Option<IoError>)
        ensures
            final(io).state@ == old(io).state@.read_closed(err),
    {
        io.filter.closed(&mut io.state, err);
        io.state.flags.insert(Flag::RdShutdown);
    }

    /// The buffer to read into: the one that the head of the chain has
    /// staged, or an empty one from the pool.
    pub fn get_read_buf<F: Filter>(&self, io: &mut Io<F>) -> (buf: BytesMut)
        ensures
            old(io).state@.read_take(final(io).state@),
            F::transparent() ==> contents(&buf) == old(io).state@.read && final(io).state@ == (
            IoView { read: Seq::empty(), ..old(io).state@ }),
            F::ruled() && !F::transparent() ==> contents(&buf).len() == 0 && final(io).state@
                == old(io).state@ && final(io).filter == old(io).filter,
    {
        match io.filter.get_read_buf(&mut io.state) {
            Some(buf) => buf,
            None => io.state.pool.get_read_buf(),
        }
    }

    /// Hands back the buffer that the pump has read into, `nbytes` of which
    /// are new. An empty buffer returns to the pool. Any other goes through
    /// the chain, and what the chain has added to the read buffer is
    /// announced to the dispatcher; an error of the chain announces itself
    /// and asks for shutdown. Last, the filters are swept if that was asked
    /// for.
    pub fn release_read_buf<F: Filter>(&self, io: &mut Io<F>, buf: BytesMut, nbytes: usize)
        ensures
            old(io).state@.step(final(io).state@),
            old(io).state@.read_release_step(contents(&buf), final(io).state@),
            F::defers() ==> old(io).state@.read_release_deferred(
                contents(&buf),
                final(io).state@,
            ),
            F::ruled() && !F::transparent() && contents(&buf).len() > 0 ==> carried_up(
                old(io).filter,
                final(io).filter,
                old(io).state@,
                contents(&buf),
                final(io).state@,
            ),
            F::transparent() ==> final(io).state@ == old(io).state@.release_read(
                contents(&buf),
                nbytes as nat,
            ),
    {
        let ghost mut out: Seq<u8> = Seq::empty();
        let ghost mut left: Seq<u8> = Seq::empty();
        let ghost mut failed = false;
        if buf.is_empty() {
            io.state.pool.release_read_buf(buf);
        } else {
            let ghost given = contents(&buf);
            let mut dst = io.state.take_read_buf();
            let answer = io.filter.release_read_buf(buf, &mut dst, nbytes);
            let ghost d = bytes_of(dst);
            let ghost answered = answer;
            let ghost carried = io.filter;
            read_answered(io, dst, answer);
            proof {
                left = d;
                match answered {
                    Ok(n) => {
                        assert(io.state@ == old(io).state@.read_released(d, n as nat));
                        if F::ruled() && !F::transparent() {
                            out = choose|out: Seq<u8>|
                                {
                                    &&& #[trigger] old(io).filter.carries_up(given, carried, out)
                                    &&& d == old(io).state@.read + out
                                    &&& n == out.len()
                                };
                        }
                    },
                    Err(e) => {
                        failed = true;
                        assert(io.state@ == old(io).state@.read_failed(d, e));
                    },
                }
            }
        }
        let ghost released = io.state@;
        if io.state.has(Flag::IoFilters) {
            io.shutdown_filters();
        }
        assert(released.maybe_swept(io.state@));
        assert(F::defers() ==> io.state@ == released.sweep());
        proof {
            if F::ruled() && !F::transparent() && contents(&buf).len() > 0 {
                if failed {
                    assert(released == old(io).state@.read_failed(left, IoError::BufferFull));
                } else {
                    assert(old(io).filter.carries_up(contents(&buf), io.filter, out));
                    assert(released == old(io).state@.read_released(
                        old(io).state@.read + out,
                        out.len(),
                    ));
                }
            }
        }
    }
}

impl WriteContext {
    pub(crate) fn new() -> WriteContext {
        WriteContext(())
    }

    /// The connection's pool and watermarks.
    pub fn memory_pool<F: Filter>(&self, io: &Io<F>) -> (pool: MemoryPool)
        ensures
            pool == io.state@.pool,
    {
        io.state.pool
    }

    /// Asks the chain what the pump is to do.
    pub fn poll_ready<F: Filter>(&self, io: &mut Io<F>, waker: &Waker) -> (res: Poll<
        WriteStatus,
    >)
        ensures
            final(io).state@ == old(io).state@.poll_write_ready(),
            res == Poll::Ready(old(io).state@.write_status()) || (res is Pending
                && !old(io).state@.closing()),
            F::transparent() || F::defers() ==> res == Poll::Ready(old(io).state@.write_status()),
    {
        io.filter.poll_write_ready(&mut io.state, waker)
    }

    /// Tells the chain that the transport has closed, with `err` or at end of
    /// stream: the connection stops.
    pub fn close<F: Filter>(&self, io: &mut Io<F>, err: Option<IoError>)
        ensures
            final(io).state@ == old(io).state@.stop(err),
    {
        io.filter.closed(&mut io.state, err)
    }

    /// Takes the write buffer out of the state block.
    pub fn get_write_buf<F: Filter>(&self, io: &mut Io<F>) -> (buf: Option<BytesMut>)
        ensures
            bytes_of(buf) == old(io).state@.write,
            final(io).state@ == (IoView { write: Seq::empty(), ..old(io).state@ }),
    {
        io.state.take_write_buf()
    }

    /// Hands back what the pump has not written. An empty buffer returns to
    /// the pool and ends `WrWait` and `WrBackpressure`; any other becomes the
    /// write buffer, and `WrBackpressure` ends if it is at or under twice the
    /// write high watermark. Last, the filters are swept if that was asked
    /// for. Always succeeds.
    pub fn release_write_buf<F: Filter>(&self, io: &mut Io<F>, buf: BytesMut) -> (res: Result<
        (),
        IoError,
    >)
        ensures
            res.is_ok(),
            old(io).state@.step(final(io).state@),
            old(io).state@.write_release_step(contents(&buf), final(io).state@),
            final(io).state@.read == old(io).state@.read,
            !old(io).state@.has(Flag::IoFilters) ==> final(io).state@
                == old(io).state@.write_released(contents(&buf)),
            F::transparent() || F::defers() ==> final(io).state@ == old(io).state@.release_write(
                contents(&buf),
            ),
    {
        io.state.write_released(buf);
        if io.state.has(Flag::IoFilters) {
            io.shutdown_filters();
        }
        Ok(())
    }
}

} // verus!
