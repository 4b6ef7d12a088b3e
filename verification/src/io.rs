//! The dispatcher's side of a connection: readiness, status updates, the
//! buffers handed to a codec, shutdown.

use crate::buf::{contents, spec_max_len};
use crate::error::IoError;
use crate::filter::{Filter, Io};
use crate::flags::Flag;
use crate::layer::write_through;
use crate::read_task::make_room;
use crate::state::{bytes_of, IoState, IoView};
use crate::status::Poll;
use ntex_bytes::BytesMut;
use std::task::Waker;
use vstd::prelude::*;

verus! {

/// News of the connection that a receive surfaces in place of a frame.
#[derive(Debug)]
pub enum IoStatusUpdate {
    /// The keep-alive timer has expired.
    KeepAlive,
    /// Write back-pressure is on.
    WriteBackpressure,
    /// The dispatcher is asked to stop.
    Stop,
    /// The peer is gone, with the error that took it if there was one.
    PeerGone(Option<IoError>),
}

/// How a codec's attempt to decode a frame ended.
#[derive(Copy, Clone, Debug, PartialEq, Eq, Structural)]
pub enum Decoded {
    /// A frame came out.
    Frame,
    /// The buffer holds no whole frame yet.
    NeedMore,
    /// The decoder failed.
    Failed,
}

impl IoView {
    /// The connection is gone: it has failed or stopped.
    pub open spec fn gone(self) -> bool {
        self.has(Flag::IoErr) || self.has(Flag::IoStopped)
    }

    /// What the dispatcher is told when it asks whether frames may be read:
    /// the recorded error or "peer gone" once the connection is gone, "yes"
    /// while decoded bytes wait, and otherwise to wait.
    pub open spec fn dispatch_read_status(self) -> Poll<Result<Option<()>, IoError>> {
        if self.gone() {
            match self.error {
                Some(e) => Poll::Ready(Err(e)),
                None => Poll::Ready(Ok(None)),
            }
        } else if self.has(Flag::RdReady) {
            Poll::Ready(Ok(Some(())))
        } else {
            Poll::Pending
        }
    }

    /// The block after the dispatcher has asked whether frames may be read:
    /// the error is handed out once, and a dispatcher that has to wait
    /// leaves its waker.
    pub open spec fn poll_dispatch_read(self) -> IoView {
        if self.gone() {
            IoView { error: None, ..self }
        } else if self.has(Flag::RdReady) {
            self
        } else {
            IoView { dispatch_held: true, ..self }
        }
    }

    /// The news that the dispatcher is given, most urgent first: a gone
    /// connection before a stop request, that before an expired keep-alive
    /// timer, that before write back-pressure. `None` where there is no news.
    pub open spec fn status_update(self) -> Option<IoStatusUpdate> {
        if self.gone() {
            Some(IoStatusUpdate::PeerGone(self.error))
        } else if self.has(Flag::DspStop) {
            Some(IoStatusUpdate::Stop)
        } else if self.has(Flag::DspKeepalive) {
            Some(IoStatusUpdate::KeepAlive)
        } else if self.has(Flag::WrBackpressure) {
            Some(IoStatusUpdate::WriteBackpressure)
        } else {
            None
        }
    }

    /// The block after the dispatcher has asked for news: the error is handed
    /// out once, a stop request and an expired timer are reported once, and
    /// a dispatcher without news leaves its waker.
    pub open spec fn poll_status_update(self) -> IoView {
        if self.gone() {
            IoView { error: None, ..self }
        } else if self.has(Flag::DspStop) {
            IoView { flags: self.flags.remove(Flag::DspStop), ..self }
        } else if self.has(Flag::DspKeepalive) {
            IoView { flags: self.flags.remove(Flag::DspKeepalive), ..self }
        } else if self.has(Flag::WrBackpressure) {
            self
        } else {
            IoView { dispatch_held: true, ..self }
        }
    }

    /// The keep-alive timer has expired: `DspKeepalive` is set and the
    /// dispatcher is woken. A gone connection ignores the timer.
    pub open spec fn keepalive_expired(self) -> IoView {
        if self.gone() {
            self
        } else {
            IoView {
                flags: self.flags.insert(Flag::DspKeepalive),
                dispatch_held: false,
                ..self
            }
        }
    }

    /// The dispatcher is asked to stop: `DspStop` is set and the dispatcher
    /// is woken.
    pub open spec fn stop_dispatcher(self) -> IoView {
        IoView { flags: self.flags.insert(Flag::DspStop), dispatch_held: false, ..self }
    }

    /// The block after a codec has worked on the read buffer and left `rest`
    /// in it, on a transparent chain. Where the codec needs more bytes,
    /// `RdReady` ends and the read pump is asked for more.
    pub open spec fn decoded(self, rest: Seq<u8>, outcome: Decoded) -> IoView {
        let with_rest = IoView { read: rest, ..self };
        if outcome == Decoded::NeedMore {
            (IoView { flags: self.flags.remove(Flag::RdReady), ..with_rest }).want_read()
        } else {
            with_rest
        }
    }

    /// The block after the dispatcher has written `src`, on a transparent
    /// chain: the bytes stand behind those that waited, the write pump is
    /// woken, and above the threshold `WrBackpressure` is set.
    pub open spec fn written(self, src: Seq<u8>) -> IoView {
        if self.write.len() + src.len() == 0 {
            self
        } else {
            self.write_buffered(self.write + src)
        }
    }

    /// What a sender is told that waits for the write buffer: the recorded
    /// error, or `Disconnected`, once the connection is gone; to wait while
    /// bytes are left, if it waits for a full drain, or while write
    /// back-pressure is on, if it does not; and otherwise to go on.
    pub open spec fn flush_status(self, full: bool) -> Poll<Result<(), IoError>> {
        if self.gone() {
            match self.error {
                Some(e) => Poll::Ready(Err(e)),
                None => Poll::Ready(Err(IoError::Disconnected)),
            }
        } else if full && self.write.len() > 0 {
            Poll::Pending
        } else if !full && self.has(Flag::WrBackpressure) {
            Poll::Pending
        } else {
            Poll::Ready(Ok(()))
        }
    }

    /// The block after a sender has asked: the error is handed out once, and
    /// a sender that has to wait leaves the dispatcher's waker, and sets
    /// `WrWait` if it waits for a full drain.
    pub open spec fn poll_flush(self, full: bool) -> IoView {
        if self.gone() {
            IoView { error: None, ..self }
        } else if full && self.write.len() > 0 {
            IoView { flags: self.flags.insert(Flag::WrWait), dispatch_held: true, ..self }
        } else if !full && self.has(Flag::WrBackpressure) {
            IoView { dispatch_held: true, ..self }
        } else {
            self
        }
    }

    /// The block after the dispatcher has asked for shutdown, on a
    /// transparent chain: a graceful shutdown begins where none is under way,
    /// and the filters are swept.
    pub open spec fn shutdown(self) -> IoView {
        self.init_shutdown().sweep()
    }
}

impl IoState {
    /// The dispatcher asks whether frames may be read: see
    /// [`IoView::dispatch_read_status`] and [`IoView::poll_dispatch_read`].
    pub fn poll_dispatch_read(&mut self, waker: &Waker) -> (res: Poll<
        Result<Option<()>, IoError>,
    >)
        ensures
            res == old(self)@.dispatch_read_status(),
            final(self)@ == old(self)@.poll_dispatch_read(),
    {
        if self.flags.contains(Flag::IoErr) || self.flags.contains(Flag::IoStopped) {
            match self.error.take() {
                Some(e) => Poll::Ready(Err(e)),
                None => Poll::Ready(Ok(None)),
            }
        } else if self.flags.contains(Flag::RdReady) {
            Poll::Ready(Ok(Some(())))
        } else {
            self.dispatch_task.register(waker);
            Poll::Pending
        }
    }

    /// The dispatcher asks for news: see [`IoView::status_update`] and
    /// [`IoView::poll_status_update`].
    pub fn poll_status_update(&mut self, waker: &Waker) -> (res: Poll<IoStatusUpdate>)
        ensures
            res == (match old(self)@.status_update() {
                Some(u) => Poll::Ready(u),
                None => Poll::Pending,
            }),
            final(self)@ == old(self)@.poll_status_update(),
    {
        if self.flags.contains(Flag::IoErr) || self.flags.contains(Flag::IoStopped) {
            Poll::Ready(IoStatusUpdate::PeerGone(self.error.take()))
        } else if self.flags.contains(Flag::DspStop) {
            self.flags.remove(Flag::DspStop);
            Poll::Ready(IoStatusUpdate::Stop)
        } else if self.flags.contains(Flag::DspKeepalive) {
            self.flags.remove(Flag::DspKeepalive);
            Poll::Ready(IoStatusUpdate::KeepAlive)
        } else if self.flags.contains(Flag::WrBackpressure) {
            Poll::Ready(IoStatusUpdate::WriteBackpressure)
        } else {
            self.dispatch_task.register(waker);
            Poll::Pending
        }
    }

    /// The keep-alive timer has expired: see [`IoView::keepalive_expired`].
    pub fn keepalive_expired(&mut self)
        ensures
            final(self)@ == old(self)@.keepalive_expired(),
    {
        if !(self.flags.contains(Flag::IoErr) || self.flags.contains(Flag::IoStopped)) {
            self.flags.insert(Flag::DspKeepalive);
            self.dispatch_task.wake();
        }
    }

    /// A sender asks whether it may go on: see [`IoView::flush_status`] and
    /// [`IoView::poll_flush`].
    pub fn poll_flush(&mut self, waker: &Waker, full: bool) -> (res: Poll<Result<(), IoError>>)
        ensures
            res == old(self)@.flush_status(full),
            final(self)@ == old(self)@.poll_flush(full),
    {
        if self.flags.contains(Flag::IoErr) || self.flags.contains(Flag::IoStopped) {
            match self.error.take() {
                Some(e) => Poll::Ready(Err(e)),
                None => Poll::Ready(Err(IoError::Disconnected)),
            }
        } else {
            let left = match &self.write_buf {
                Some(b) => !b.is_empty(),
                None => false,
            };
            if full && left {
                self.flags.insert(Flag::WrWait);
                self.dispatch_task.register(waker);
                Poll::Pending
            } else if !full && self.flags.contains(Flag::WrBackpressure) {
                self.dispatch_task.register(waker);
                Poll::Pending
            } else {
                Poll::Ready(Ok(()))
            }
        }
    }

    /// Asks the dispatcher to stop: see [`IoView::stop_dispatcher`].
    pub fn stop_dispatcher(&mut self)
        ensures
            final(self)@ == old(self)@.stop_dispatcher(),
    {
        self.flags.insert(Flag::DspStop);
        self.dispatch_task.wake();
    }
}

impl<F: Filter> Io<F> {
    /// The dispatcher asks whether frames may be read.
    pub fn poll_read_ready(&mut self, waker: &Waker) -> (res: Poll<Result<Option<()>, IoError>>)
        ensures
            res == old(self).state@.dispatch_read_status(),
            final(self).state@ == old(self).state@.poll_dispatch_read(),
            final(self).filter == old(self).filter,
    {
        self.state.poll_dispatch_read(waker)
    }

    /// The dispatcher asks for news of the connection.
    pub fn poll_status_update(&mut self, waker: &Waker) -> (res: Poll<IoStatusUpdate>)
        ensures
            res == (match old(self).state@.status_update() {
                Some(u) => Poll::Ready(u),
                None => Poll::Pending,
            }),
            final(self).state@ == old(self).state@.poll_status_update(),
            final(self).filter == old(self).filter,
    {
        self.state.poll_status_update(waker)
    }

    /// A sender asks whether it may go on: after a write that found
    /// back-pressure on, or to wait until everything is written.
    pub fn poll_flush(&mut self, waker: &Waker, full: bool) -> (res: Poll<Result<(), IoError>>)
        ensures
            res == old(self).state@.flush_status(full),
            final(self).state@ == old(self).state@.poll_flush(full),
            final(self).filter == old(self).filter,
    {
        self.state.poll_flush(waker, full)
    }

    /// Takes the read buffer out for a codec to decode from.
    pub fn decode_begin(&mut self) -> (buf: Option<BytesMut>)
        ensures
            bytes_of(buf) == old(self).state@.read,
            final(self).state@ == (IoView { read: Seq::empty(), ..old(self).state@ }),
            final(self).filter == old(self).filter,
    {
        self.state.take_read_buf()
    }

    /// Takes back the read buffer from a codec, with what the codec left in
    /// it. An empty buffer returns to the pool. Where the codec needs more
    /// bytes, `RdReady` ends and the chain is asked to read.
    pub fn decode_end(&mut self, buf: Option<BytesMut>, outcome: Decoded)
        ensures
            final(self).state@ == old(self).state@.decoded(bytes_of(buf), outcome),
    {
        match buf {
            Some(b) => {
                if b.is_empty() {
                    assert(contents(&b) =~= Seq::<u8>::empty());
                    self.state.pool.release_read_buf(b);
                    self.state.read_buf = None;
                } else {
                    self.state.read_buf = Some(b);
                }
            },
            None => {
                self.state.read_buf = None;
            },
        }
        if outcome == Decoded::NeedMore {
            self.state.flags.remove(Flag::RdReady);
            self.filter.want_read(&mut self.state);
        }
    }

    /// The buffer for a codec to encode into: the one that the head of the
    /// chain has staged, or an empty one from the pool, with room made for
    /// more.
    pub fn encode_begin(&mut self) -> (buf: BytesMut)
        ensures
            old(self).state@.write_take(final(self).state@),
            F::transparent() ==> contents(&buf) == old(self).state@.write && final(self).state@
                == (IoView { write: Seq::empty(), ..old(self).state@ }),
            F::ruled() && !F::transparent() ==> contents(&buf).len() == 0 && final(self).state@
                == old(self).state@ && final(self).filter == old(self).filter,
    {
        let mut buf = match self.filter.get_write_buf(&mut self.state) {
            Some(b) => b,
            None => self.state.pool.get_write_buf(),
        };
        let (hw, lw) = self.state.pool.write().unpack();
        make_room(&mut buf, hw, lw);
        buf
    }

    /// Takes back the buffer that a codec has encoded into and passes it
    /// through the chain. Returns whether write back-pressure is on, in which
    /// case the sender waits for the buffer to drain.
    pub fn encode_end(&mut self, buf: BytesMut) -> (res: Result<bool, IoError>)
        ensures
            old(self).state@.write_step(final(self).state@),
            res matches Ok(b) ==> b == final(self).state@.has(Flag::WrBackpressure),
            F::transparent() ==> res.is_ok() && final(self).state@ == (if contents(&buf).len()
                == 0 {
                old(self).state@
            } else {
                old(self).state@.write_buffered(contents(&buf))
            }),
    {
        match self.filter.release_write_buf(&mut self.state, buf) {
            Ok(()) => Ok(self.state.has(Flag::WrBackpressure)),
            Err(e) => Err(e),
        }
    }

    /// Writes `src`: the bytes go down the chain and, on a ruled chain, what
    /// comes out of it goes behind the bytes that wait to be written.
    /// Returns whether write back-pressure is on. Fails where the chain
    /// fails, and with `BufferFull` where bytes do not fit behind those that
    /// wait.
    pub fn write(&mut self, src: &[u8]) -> (res: Result<bool, IoError>)
        ensures
            old(self).state@.write_step(final(self).state@),
            res matches Ok(b) ==> b == final(self).state@.has(Flag::WrBackpressure),
            F::ruled() ==> (res matches Err(e) ==> e is BufferFull),
            F::ruled() ==> (res.is_ok() ==> exists|down: Seq<u8>|
                {
                    &&& #[trigger] old(self).filter.carries_down(src@, final(self).filter, down)
                    &&& final(self).state@ == old(self).state@.written(down)
                }),
            F::transparent() ==> (res matches Err(e) ==> e is BufferFull),
            F::transparent() && res.is_ok() ==> final(self).state@ == old(self).state@.written(
                src@,
            ),
            F::transparent() ==> (res.is_ok() <==> old(self).state@.write.len() + src@.len()
                <= spec_max_len()),
    {
        let pool = self.state.pool;
        let passed = write_through(&mut self.filter, &pool, &mut self.state, src);
        proof {
            if F::ruled() && passed.is_ok() {
                let down = choose|down: Seq<u8>|
                    {
                        &&& #[trigger] old(self).filter.carries_down(src@, self.filter, down)
                        &&& self.state@ == old(self).state@.written(down)
                    };
                assert(old(self).filter.carries_down(src@, self.filter, down));
            }
        }
        match passed {
            Ok(_) => Ok(self.state.has(Flag::WrBackpressure)),
            Err(e) => Err(e),
        }
    }

    /// Begins a graceful shutdown where none is under way, and sweeps the
    /// filters.
    pub fn shutdown(&mut self)
        ensures
            old(self).state@.step(final(self).state@),
            old(self).state@.init_shutdown().maybe_swept(final(self).state@),
            F::transparent() || F::defers() ==> final(self).state@ == old(self).state@.shutdown(),
    {
        self.filter.want_shutdown(&mut self.state, None);
        if self.state.has(Flag::IoFilters) {
            self.shutdown_filters();
        }
    }

    /// Gives the connection up: it stops, and all three tasks are woken.
    pub fn close(&mut self)
        ensures
            final(self).state@ == old(self).state@.stop(None),
    {
        self.filter.closed(&mut self.state, None);
    }
}

} // verus!
