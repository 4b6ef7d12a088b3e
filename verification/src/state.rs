//! The state block of one connection: flags, the two buffers, the three
//! wakers, the pool and the recorded error.
//!
//! [`IoView`] is the block as contracts see it, and the spec functions on it
//! are the connection's state machine. The methods of [`IoState`] are what the
//! terminal filter does: each changes the block as one of those functions says.

use crate::buf::contents;
use crate::error::IoError;
use crate::flags::{Flag, Flags};
use crate::pool::MemoryPool;
use crate::status::{Millis, Poll, ReadStatus, WriteStatus};
use crate::waker::WakerSlot;
use ntex_bytes::BytesMut;
use std::task::Waker;
use vstd::prelude::*;

verus! {

/// The bytes of a buffer that may be absent.
pub open spec fn bytes_of(b: Option<BytesMut>) -> Seq<u8> {
    match b {
        Some(x) => contents(&x),
        None => Seq::<u8>::empty(),
    }
}

/// The state block as contracts see it.
pub struct IoView {
    /// The flags that are set.
    pub flags: Set<Flag>,
    /// Decoded bytes that wait for the dispatcher.
    pub read: Seq<u8>,
    /// Encoded bytes that wait for the write pump.
    pub write: Seq<u8>,
    /// Whether the read pump's waker is held.
    pub read_held: bool,
    /// Whether the write pump's waker is held.
    pub write_held: bool,
    /// Whether the dispatcher's waker is held.
    pub dispatch_held: bool,
    /// The recorded error.
    pub error: Option<IoError>,
    /// The pool and its watermarks.
    pub pool: MemoryPool,
    /// The longest that a graceful shutdown may take.
    pub disconnect_timeout: Millis,
    /// The idle time after which the keep-alive timer fires.
    pub keepalive: Millis,
    /// Whether the write pump was told to arm the sweep's deadline.
    pub sweep_deadline_sent: bool,
}

impl IoView {
    /// Whether `f` is set.
    pub open spec fn has(self, f: Flag) -> bool {
        self.flags.contains(f)
    }

    /// No task's waker is held.
    pub open spec fn no_waker_held(self) -> bool {
        !self.read_held && !self.write_held && !self.dispatch_held
    }

    /// The connection has failed, is shutting down or has stopped.
    pub open spec fn closing(self) -> bool {
        self.has(Flag::IoErr) || self.has(Flag::IoShutdown) || self.has(Flag::IoStopped)
    }

    /// The watermarks are ordered, and a stopped connection holds no waker.
    pub open spec fn wf(self) -> bool {
        &&& self.pool.wf()
        &&& self.has(Flag::IoStopped) ==> self.no_waker_held()
    }

    /// Whether the write buffer is longer than twice the write high
    /// watermark: the threshold at which write back-pressure turns on, and
    /// at or under which it turns off.
    pub open spec fn write_above(self) -> bool {
        self.write.len() > 2 * self.pool.write_hw()
    }

    /// Whether the read buffer is longer than the read high watermark.
    pub open spec fn read_above(self) -> bool {
        self.read.len() > self.pool.read_hw()
    }

    /// Write back-pressure is on exactly while the write buffer is above its
    /// threshold.
    pub open spec fn backpressure_ok(self) -> bool {
        self.has(Flag::WrBackpressure) <==> self.write_above()
    }

    /// A fresh block on `pool`.
    pub open spec fn init(pool: MemoryPool) -> IoView {
        IoView {
            flags: Set::empty(),
            read: Seq::empty(),
            write: Seq::empty(),
            read_held: false,
            write_held: false,
            dispatch_held: false,
            error: None,
            pool,
            disconnect_timeout: Millis(1000),
            keepalive: Millis(0),
            sweep_deadline_sent: false,
        }
    }

    /// Termination: `err` is recorded if it is the first error, `IoStopped`
    /// is set, and with an error `IoErr`; all three tasks are woken.
    pub open spec fn stop(self, err: Option<IoError>) -> IoView {
        IoView {
            flags: if err.is_some() {
                self.flags.insert(Flag::IoStopped).insert(Flag::IoErr)
            } else {
                self.flags.insert(Flag::IoStopped)
            },
            error: if self.error.is_none() {
                err
            } else {
                self.error
            },
            read_held: false,
            write_held: false,
            dispatch_held: false,
            ..self
        }
    }

    /// The dispatcher needs more bytes: a read pause ends and the read pump
    /// is woken.
    pub open spec fn want_read(self) -> IoView {
        if self.has(Flag::RdBufFull) {
            IoView { flags: self.flags.remove(Flag::RdBufFull), read_held: false, ..self }
        } else {
            self
        }
    }

    /// Whether a graceful shutdown can begin: none is under way.
    pub open spec fn can_begin_shutdown(self) -> bool {
        !self.closing() && !self.has(Flag::IoFilters)
    }

    /// A graceful shutdown begins, where it can: `IoFilters` is set and the
    /// write pump is woken.
    pub open spec fn init_shutdown(self) -> IoView {
        if self.can_begin_shutdown() {
            IoView { flags: self.flags.insert(Flag::IoFilters), write_held: false, ..self }
        } else {
            self
        }
    }

    /// A layer asks for shutdown. A connection that is not closing yet is shut
    /// down gracefully, whether or not the layer gives an error; one that is
    /// closing already stops at once with the error, if there is one.
    pub open spec fn want_shutdown(self, err: Option<IoError>) -> IoView {
        if err.is_some() && self.closing() {
            self.stop(err)
        } else {
            self.init_shutdown()
        }
    }

    /// The filters have shut down: `IoShutdown` replaces `IoFilters` and both
    /// pumps are woken.
    pub open spec fn filters_done(self) -> IoView {
        IoView {
            flags: self.flags.remove(Flag::IoFilters).insert(Flag::IoShutdown),
            read_held: false,
            write_held: false,
            ..self
        }
    }

    /// What the read pump is told.
    pub open spec fn read_status(self) -> Poll<ReadStatus> {
        if self.closing() {
            Poll::Ready(ReadStatus::Terminate)
        } else if self.has(Flag::RdBufFull) {
            Poll::Pending
        } else {
            Poll::Ready(ReadStatus::Ready)
        }
    }

    /// The block after the read pump has asked: its waker is kept unless the
    /// connection is closing.
    pub open spec fn poll_read_ready(self) -> IoView {
        if self.closing() {
            self
        } else {
            IoView { read_held: true, ..self }
        }
    }

    /// What the write pump is told.
    pub open spec fn write_status(self) -> WriteStatus {
        if self.has(Flag::IoStopped) || self.has(Flag::IoErr) {
            WriteStatus::Terminate
        } else if self.has(Flag::IoShutdown) {
            WriteStatus::Shutdown(self.disconnect_timeout)
        } else if self.has(Flag::IoFilters) && !self.sweep_deadline_sent {
            WriteStatus::Timeout(self.disconnect_timeout)
        } else {
            WriteStatus::Ready
        }
    }

    /// The block after the write pump has asked: its waker is kept unless the
    /// connection is closing, and the sweep's deadline counts as sent once
    /// `Timeout` was the answer.
    pub open spec fn poll_write_ready(self) -> IoView {
        if self.closing() {
            self
        } else {
            IoView {
                write_held: true,
                sweep_deadline_sent: self.sweep_deadline_sent || self.has(Flag::IoFilters),
                ..self
            }
        }
    }

    /// The read pump hands back `dst`, to which the chain added `n` bytes'
    /// worth of input. With `n > 0` the dispatcher is woken and `RdReady` is
    /// set, and `RdBufFull` too if `dst` is longer than the read high
    /// watermark.
    pub open spec fn read_released(self, dst: Seq<u8>, n: nat) -> IoView {
        let with_dst = IoView { read: dst, ..self };
        if n == 0 {
            with_dst
        } else if with_dst.read_above() {
            IoView {
                flags: self.flags.insert(Flag::RdReady).insert(Flag::RdBufFull),
                dispatch_held: false,
                ..with_dst
            }
        } else {
            IoView { flags: self.flags.insert(Flag::RdReady), dispatch_held: false, ..with_dst }
        }
    }

    /// The write pump hands back what it has not written. An empty rest ends
    /// `WrWait` and `WrBackpressure`; a rest at or under the threshold ends
    /// `WrBackpressure`. The dispatcher is woken where a flag ended.
    pub open spec fn write_released(self, rest: Seq<u8>) -> IoView {
        if rest.len() == 0 {
            if self.has(Flag::WrWait) || self.has(Flag::WrBackpressure) {
                IoView {
                    flags: self.flags.remove(Flag::WrWait).remove(Flag::WrBackpressure),
                    dispatch_held: false,
                    ..self
                }
            } else {
                self
            }
        } else {
            let with_rest = IoView { write: rest, ..self };
            if self.has(Flag::WrBackpressure) && !with_rest.write_above() {
                IoView {
                    flags: self.flags.remove(Flag::WrBackpressure),
                    dispatch_held: false,
                    ..with_rest
                }
            } else {
                with_rest
            }
        }
    }

    /// The filters' shutdown sweep on a chain whose filters have nothing to
    /// shut down: where the sweep was asked for and the connection is not
    /// closing yet, graceful shutdown of the transport begins.
    pub open spec fn sweep(self) -> IoView {
        if self.has(Flag::IoFilters) && !self.closing() {
            self.filters_done()
        } else {
            self
        }
    }

    /// The sweep itself on a chain whose filters have nothing to shut down: a
    /// closing connection is left alone, and on any other graceful shutdown
    /// of the transport begins.
    pub open spec fn sweep_now(self) -> IoView {
        if self.closing() {
            self
        } else {
            self.filters_done()
        }
    }

    /// How a sweep ends once the chain was asked to shut down and has left the
    /// block as `self`: the chain needs more time and nothing changes; or it
    /// has shut down and graceful shutdown of the transport begins; or it
    /// has failed and the connection stops with its error.
    pub open spec fn sweep_ended(self, next: IoView) -> bool {
        ||| next == self
        ||| next == self.filters_done()
        ||| exists|e: IoError| next == #[trigger] self.stop(Some(e))
    }

    /// The filters' shutdown sweep on any chain: a closing connection is left
    /// alone; otherwise the chain is asked to shut down, which may change the
    /// write side of the block, and the sweep ends as
    /// [`IoView::sweep_ended`] says.
    pub open spec fn swept(self, next: IoView) -> bool {
        if self.closing() {
            next == self
        } else {
            exists|mid: IoView| #[trigger] self.write_step(mid) && mid.sweep_ended(next)
        }
    }

    /// The sweep where it was asked for, and nothing where it was not.
    pub open spec fn maybe_swept(self, next: IoView) -> bool {
        if self.has(Flag::IoFilters) {
            self.swept(next)
        } else {
            next == self
        }
    }

    /// What a filter may do to the block on the write path: change the write
    /// buffer, wake the write pump and raise `WrBackpressure`.
    pub open spec fn write_step(self, next: IoView) -> bool {
        &&& next == (IoView {
            flags: next.flags,
            write: next.write,
            write_held: next.write_held,
            ..self
        })
        &&& (next.flags == self.flags || next.flags == self.flags.insert(Flag::WrBackpressure))
        &&& (next.write_held ==> self.write_held)
    }

    /// What taking the read buffer may do to the block: nothing, or empty it.
    pub open spec fn read_take(self, next: IoView) -> bool {
        next == self || next == (IoView { read: Seq::empty(), ..self })
    }

    /// What taking the write buffer may do to the block: nothing, or empty it.
    pub open spec fn write_take(self, next: IoView) -> bool {
        next == self || next == (IoView { write: Seq::empty(), ..self })
    }

    /// What any step of the connection keeps: the pool and the timeouts; and
    /// a well-formed block stays well-formed.
    pub open spec fn step(self, next: IoView) -> bool {
        &&& next.pool == self.pool
        &&& next.disconnect_timeout == self.disconnect_timeout
        &&& next.keepalive == self.keepalive
        &&& (self.wf() ==> next.wf())
    }

    /// The dispatcher's bytes have reached the write buffer, whose bytes are
    /// now `all`: the write pump is woken, and above the threshold
    /// `WrBackpressure` is set.
    pub open spec fn write_buffered(self, all: Seq<u8>) -> IoView {
        let with_all = IoView { write: all, write_held: false, ..self };
        if with_all.write_above() {
            IoView { flags: self.flags.insert(Flag::WrBackpressure), ..with_all }
        } else {
            with_all
        }
    }
}

/// The state block.
pub struct IoState {
    /// The state word.
    pub flags: Flags,
    /// Decoded bytes that wait for the dispatcher.
    pub read_buf: Option<BytesMut>,
    /// Encoded bytes that wait for the write pump.
    pub write_buf: Option<BytesMut>,
    /// The pool and its watermarks.
    pub pool: MemoryPool,
    /// The read pump's waker.
    pub read_task: WakerSlot,
    /// The write pump's waker.
    pub write_task: WakerSlot,
    /// The dispatcher's waker.
    pub dispatch_task: WakerSlot,
    /// The first fatal error, until the dispatcher takes it.
    pub error: Option<IoError>,
    /// The longest that a graceful shutdown may take.
    pub disconnect_timeout: Millis,
    /// The idle time after which the keep-alive timer fires.
    pub keepalive: Millis,
    /// Whether the write pump was told to arm the deadline of the filters'
    /// shutdown sweep.
    pub sweep_deadline_sent: bool,
}

impl View for IoState {
    type V = IoView;

    open spec fn view(&self) -> IoView {
        IoView {
            flags: self.flags@,
            read: bytes_of(self.read_buf),
            write: bytes_of(self.write_buf),
            read_held: self.read_task.is_held(),
            write_held: self.write_task.is_held(),
            dispatch_held: self.dispatch_task.is_held(),
            error: self.error,
            pool: self.pool,
            disconnect_timeout: self.disconnect_timeout,
            keepalive: self.keepalive,
            sweep_deadline_sent: self.sweep_deadline_sent,
        }
    }
}

impl IoState {
    /// A fresh block on `pool`: no flag, no buffer, no waker, no error.
    pub fn new(pool: MemoryPool) -> (st: IoState)
        ensures
            st@ == IoView::init(pool),
    {
        IoState {
            flags: Flags::empty(),
            read_buf: None,
            write_buf: None,
            pool,
            read_task: WakerSlot::new(),
            write_task: WakerSlot::new(),
            dispatch_task: WakerSlot::new(),
            error: None,
            disconnect_timeout: Millis(1000),
            keepalive: Millis(0),
            sweep_deadline_sent: false,
        }
    }

    /// Reads one flag.
    pub fn has(&self, f: Flag) -> (r: bool)
        ensures
            r == self@.has(f),
    {
        self.flags.contains(f)
    }

    /// Whether the connection has failed, is shutting down or has stopped.
    pub fn is_closing(&self) -> (r: bool)
        ensures
            r == self@.closing(),
    {
        self.flags.contains(Flag::IoErr) || self.flags.contains(Flag::IoShutdown)
            || self.flags.contains(Flag::IoStopped)
    }

    /// Whether the write buffer is longer than twice the write high watermark.
    pub fn write_above(&self) -> (r: bool)
        ensures
            r == self@.write_above(),
    {
        match &self.write_buf {
            Some(b) => (b.len() as u64) > 2 * (self.pool.write().high as u64),
            None => false,
        }
    }

    /// Terminates the connection: see [`IoView::stop`].
    pub fn stop(&mut self, err: Option<IoError>)
        ensures
            final(self)@ == old(self)@.stop(err),
    {
        self.flags.insert(Flag::IoStopped);
        if err.is_some() {
            self.flags.insert(Flag::IoErr);
            if self.error.is_none() {
                self.error = err;
            }
        }
        self.read_task.wake();
        self.write_task.wake();
        self.dispatch_task.wake();
    }

    /// The dispatcher needs more bytes: see [`IoView::want_read`].
    pub fn want_read(&mut self)
        ensures
            final(self)@ == old(self)@.want_read(),
    {
        if self.flags.contains(Flag::RdBufFull) {
            self.flags.remove(Flag::RdBufFull);
            self.read_task.wake();
        }
    }

    /// Asks for a graceful shutdown where none is under way, and returns
    /// whether it did: see [`IoView::init_shutdown`].
    pub fn init_shutdown(&mut self) -> (begun: bool)
        ensures
            begun == old(self)@.can_begin_shutdown(),
            final(self)@ == old(self)@.init_shutdown(),
    {
        if self.is_closing() || self.flags.contains(Flag::IoFilters) {
            false
        } else {
            self.flags.insert(Flag::IoFilters);
            self.write_task.wake();
            true
        }
    }

    /// A layer asks for shutdown: see [`IoView::want_shutdown`].
    pub fn want_shutdown(&mut self, err: Option<IoError>)
        ensures
            final(self)@ == old(self)@.want_shutdown(err),
    {
        if err.is_some() && self.is_closing() {
            self.stop(err)
        } else {
            self.init_shutdown();
        }
    }

    /// The filters have shut down: see [`IoView::filters_done`].
    pub fn filters_done(&mut self)
        ensures
            final(self)@ == old(self)@.filters_done(),
    {
        self.flags.remove(Flag::IoFilters);
        self.flags.insert(Flag::IoShutdown);
        self.read_task.wake();
        self.write_task.wake();
    }

    /// The read pump asks whether it may read. A closing connection answers
    /// `Terminate` and keeps no waker; a full read buffer parks the pump;
    /// otherwise the pump may read, and its waker is kept for the next pause.
    pub fn poll_read_ready(&mut self, waker: &Waker) -> (res: Poll<ReadStatus>)
        ensures
            res == old(self)@.read_status(),
            final(self)@ == old(self)@.poll_read_ready(),
    {
        if self.is_closing() {
            Poll::Ready(ReadStatus::Terminate)
        } else if self.flags.contains(Flag::RdBufFull) {
            self.read_task.register(waker);
            Poll::Pending
        } else {
            self.read_task.register(waker);
            Poll::Ready(ReadStatus::Ready)
        }
    }

    /// The write pump asks what to do. A stopped or failed connection answers
    /// `Terminate`, one in graceful shutdown `Shutdown` with the disconnect
    /// timeout; while the filters' sweep is pending the pump is told once to
    /// arm that timeout; otherwise it may flush. The pump's waker is kept
    /// unless the connection is closing.
    pub fn poll_write_ready(&mut self, waker: &Waker) -> (res: Poll<WriteStatus>)
        ensures
            res == Poll::Ready(old(self)@.write_status()),
            final(self)@ == old(self)@.poll_write_ready(),
    {
        if self.flags.contains(Flag::IoStopped) || self.flags.contains(Flag::IoErr) {
            Poll::Ready(WriteStatus::Terminate)
        } else if self.flags.contains(Flag::IoShutdown) {
            Poll::Ready(WriteStatus::Shutdown(self.disconnect_timeout))
        } else if self.flags.contains(Flag::IoFilters) && !self.sweep_deadline_sent {
            self.sweep_deadline_sent = true;
            self.write_task.register(waker);
            Poll::Ready(WriteStatus::Timeout(self.disconnect_timeout))
        } else {
            self.write_task.register(waker);
            Poll::Ready(WriteStatus::Ready)
        }
    }

    /// Takes the read buffer out of the block.
    pub fn take_read_buf(&mut self) -> (buf: Option<BytesMut>)
        ensures
            buf == old(self).read_buf,
            final(self)@ == (IoView { read: Seq::empty(), ..old(self)@ }),
    {
        self.read_buf.take()
    }

    /// Takes the write buffer out of the block.
    pub fn take_write_buf(&mut self) -> (buf: Option<BytesMut>)
        ensures
            buf == old(self).write_buf,
            final(self)@ == (IoView { write: Seq::empty(), ..old(self)@ }),
    {
        self.write_buf.take()
    }

    /// The read pump hands back `dst` after the chain has added `n` bytes'
    /// worth of input: see [`IoView::read_released`].
    pub fn read_released(&mut self, dst: Option<BytesMut>, n: usize)
        ensures
            final(self)@ == old(self)@.read_released(bytes_of(dst), n as nat),
    {
        match dst {
            Some(d) => {
                if n > 0 {
                    if (d.len() as u64) > (self.pool.read().high as u64) {
                        self.flags.insert_all(
                            Flags::of(Flag::RdReady).union(Flags::of(Flag::RdBufFull)),
                        );
                        assert(self.flags@ =~= old(self).flags@.insert(Flag::RdReady).insert(
                            Flag::RdBufFull,
                        ));
                    } else {
                        self.flags.insert(Flag::RdReady);
                    }
                    self.dispatch_task.wake();
                }
                self.read_buf = Some(d);
            },
            None => {
                if n > 0 {
                    self.dispatch_task.wake();
                    self.flags.insert(Flag::RdReady);
                }
                self.read_buf = None;
            },
        }
    }

    /// The write pump hands back what it has not written: see
    /// [`IoView::write_released`]. An empty buffer goes back to the pool.
    pub fn write_released(&mut self, buf: BytesMut)
        ensures
            final(self)@ == old(self)@.write_released(contents(&buf)),
    {
        if buf.is_empty() {
            self.pool.release_write_buf(buf);
            let waiting = Flags::of(Flag::WrWait).union(Flags::of(Flag::WrBackpressure));
            if self.flags.intersects(waiting) {
                self.flags.remove_all(waiting);
                assert(self.flags@ =~= old(self).flags@.remove(Flag::WrWait).remove(
                    Flag::WrBackpressure,
                ));
                self.dispatch_task.wake();
            }
        } else {
            if self.flags.contains(Flag::WrBackpressure) && (buf.len() as u64) <= 2 * (
            self.pool.write().high as u64) {
                self.flags.remove(Flag::WrBackpressure);
                self.dispatch_task.wake();
            }
            self.write_buf = Some(buf);
        }
    }

    /// The dispatcher's bytes have reached the write buffer: see
    /// [`IoView::write_buffered`]. An empty buffer goes back to the pool and
    /// changes nothing.
    pub fn write_buffered(&mut self, buf: BytesMut)
        ensures
            final(self)@ == (if contents(&buf).len() == 0 {
                old(self)@
            } else {
                old(self)@.write_buffered(contents(&buf))
            }),
    {
        if buf.is_empty() {
            self.pool.release_write_buf(buf);
        } else {
            self.write_buf = Some(buf);
            self.write_task.wake();
            if self.write_above() {
                self.flags.insert(Flag::WrBackpressure);
            }
        }
    }
}

} // verus!
