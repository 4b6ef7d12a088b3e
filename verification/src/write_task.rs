//! The write pump's decisions.
//!
//! The pump itself belongs to the transport: it writes, flushes, half-closes,
//! reads and closes as it is told, keeps the disconnect timer, and reports how
//! each step ended. What to do next is decided here.

use crate::buf::{advance, as_slice, contents};
use crate::error::IoError;
use crate::filter::{Filter, Io};
use crate::flags::Flag;
use crate::state::IoView;
use crate::status::{Millis, Poll, WriteStatus};
use crate::tasks::WriteContext;
use ntex_bytes::BytesMut;
use std::task::Waker;
use vstd::prelude::*;
use vstd::slice::slice_subrange;

verus! {

/// The most that the pump reads and throws away while it waits for the peer
/// to close.
pub const DISCARD_LIMIT: u16 = 4096;

/// The most that one discarding read may take.
pub const DISCARD_CHUNK: usize = 512;

/// How far a graceful shutdown has come.
#[derive(Copy, Clone, Debug, PartialEq, Eq, Structural)]
pub enum Shutdown {
    /// The write buffer is still being flushed.
    Flushing,
    /// The write side is closed; so many bytes of the peer's were thrown
    /// away since.
    Stopping(u16),
}

/// What the pump is busy with from poll to poll.
#[derive(Copy, Clone, Debug, PartialEq, Eq, Structural)]
pub enum IoWriteState {
    /// Flushing what the dispatcher writes.
    Processing,
    /// Shutting down gracefully.
    Shutdown(Shutdown),
}

/// How the pump's last step ended.
#[derive(Debug)]
pub enum WriteEvent {
    /// The pump was polled.
    Poll,
    /// The disconnect timer has run out.
    TimerElapsed,
    /// The disconnect timer is still running.
    TimerPending,
    /// The transport would block on a write.
    WritePending,
    /// The transport took so many bytes.
    Wrote(usize),
    /// A write failed.
    WriteFailed(IoError),
    /// The transport has flushed.
    Flushed,
    /// The transport would block on a flush.
    FlushPending,
    /// A flush failed.
    FlushFailed(IoError),
    /// The write side of the transport is closed.
    HalfClosed,
    /// Closing the write side failed.
    HalfCloseFailed,
    /// The transport would block on a read.
    DiscardPending,
    /// The peer has closed.
    DiscardEof,
    /// So many bytes were read and thrown away.
    Discarded(usize),
    /// A read failed.
    DiscardFailed(IoError),
    /// The transport was told to close.
    Closed,
}

/// What the pump does next.
#[derive(Copy, Clone, Debug, PartialEq, Eq, Structural)]
pub enum WriteAction {
    /// Return and wait to be woken.
    Park,
    /// The pump has finished.
    Exit,
    /// Step again at once with [`WriteEvent::Poll`].
    Repoll,
    /// Arm the disconnect timer with this time, then step again at once with
    /// [`WriteEvent::Poll`].
    ArmTimer(Millis),
    /// Poll the disconnect timer and report.
    CheckTimer,
    /// Write [`WriteTask::chunk`] to the transport and report.
    Write,
    /// Flush the transport and report.
    Flush,
    /// Close the write side of the transport and report.
    HalfClose,
    /// Read at most [`DISCARD_CHUNK`] bytes, throw them away and report.
    Discard,
    /// Close the transport and report [`WriteEvent::Closed`].
    Close,
}

/// Which answer the pump waits for, as contracts see it.
pub enum WriteWait {
    /// None: the next step begins a poll.
    Idle,
    /// The timer's, before a flush.
    Timer,
    /// A write's: `buf` is being flushed and `written` bytes of it are out.
    Write { buf: Seq<u8>, written: nat },
    /// A flush's, after the buffer was drained or not.
    Flush { drained: bool },
    /// The half-close's.
    HalfClose,
    /// A discarding read's.
    Discard,
    /// The timer's, during shutdown.
    Deadline,
    /// The close's, after which the chain is closed.
    Terminating,
    /// The close's, after the chain was closed.
    Closing,
    /// None: the pump has finished.
    Done,
}

enum Waiting {
    Idle,
    Timer,
    Write { buf: BytesMut, written: usize },
    Flush { drained: bool },
    HalfClose,
    Discard,
    Deadline,
    Terminating,
    Closing,
    Done,
}

impl View for Waiting {
    type V = WriteWait;

    closed spec fn view(&self) -> WriteWait {
        match *self {
            Waiting::Idle => WriteWait::Idle,
            Waiting::Timer => WriteWait::Timer,
            Waiting::Write { buf, written } => WriteWait::Write {
                buf: contents(&buf),
                written: written as nat,
            },
            Waiting::Flush { drained } => WriteWait::Flush { drained },
            Waiting::HalfClose => WriteWait::HalfClose,
            Waiting::Discard => WriteWait::Discard,
            Waiting::Deadline => WriteWait::Deadline,
            Waiting::Terminating => WriteWait::Terminating,
            Waiting::Closing => WriteWait::Closing,
            Waiting::Done => WriteWait::Done,
        }
    }
}

/// The write pump as contracts see it.
pub struct WriteTaskView {
    /// What the pump is busy with.
    pub st: IoWriteState,
    /// Whether the disconnect timer is armed.
    pub timer: bool,
    /// Which answer the pump waits for.
    pub wait: WriteWait,
}

/// The state of the write pump between its steps.
pub struct WriteTask {
    ctx: WriteContext,
    st: IoWriteState,
    timer: bool,
    wait: Waiting,
}

impl View for WriteTask {
    type V = WriteTaskView;

    closed spec fn view(&self) -> WriteTaskView {
        WriteTaskView { st: self.st, timer: self.timer, wait: self.wait@ }
    }
}

/// What is left of `buf` once `written` bytes of it are out.
pub open spec fn unwritten(buf: Seq<u8>, written: nat) -> Seq<u8> {
    if written >= buf.len() {
        Seq::empty()
    } else {
        buf.skip(written as int)
    }
}

/// How many bytes of `buf` are out once the transport took `n` more.
pub open spec fn written_after(buf: Seq<u8>, written: nat, n: nat) -> nat {
    if written + n >= buf.len() {
        buf.len()
    } else {
        written + n
    }
}

/// The count of discarded bytes after `n` more, of which at most
/// [`DISCARD_CHUNK`] count.
pub open spec fn discarded_after(count: u16, n: nat) -> nat {
    if n >= DISCARD_CHUNK {
        (count + DISCARD_CHUNK) as nat
    } else {
        count as nat + n
    }
}

/// What the chain answered in the course of one step of the write pump. Each
/// answer counts only where the step asks for it.
pub struct WriteAnswers {
    /// The chain's answer to the pump's question what it is to do.
    pub polled: Poll<WriteStatus>,
    /// The connection after the pump has released what it has not written.
    pub released: IoView,
}

impl WriteTaskView {
    /// Before the first poll.
    pub open spec fn init() -> WriteTaskView {
        WriteTaskView { st: IoWriteState::Processing, timer: false, wait: WriteWait::Idle }
    }

    /// The pump with another answer to wait for.
    pub open spec fn waiting(self, wait: WriteWait) -> WriteTaskView {
        WriteTaskView { wait, ..self }
    }

    /// What a finished flush leads to. While processing, the pump exits if
    /// the flush failed and parks otherwise. During shutdown a complete flush
    /// is followed by the half-close, a failed one ends the pump, and an
    /// incomplete one leaves the deadline to decide.
    pub open spec fn flush_result(self, io: IoView, res: Poll<bool>) -> (
        WriteTaskView,
        IoView,
        WriteAction,
    ) {
        match self.st {
            IoWriteState::Processing => match res {
                Poll::Ready(false) => (self.waiting(WriteWait::Done), io, WriteAction::Exit),
                _ => (self.waiting(WriteWait::Idle), io, WriteAction::Park),
            },
            IoWriteState::Shutdown(_) => match res {
                Poll::Ready(true) => (
                    self.waiting(WriteWait::HalfClose),
                    io,
                    WriteAction::HalfClose,
                ),
                Poll::Ready(false) => (
                    self.waiting(WriteWait::Done),
                    io.stop(None),
                    WriteAction::Exit,
                ),
                Poll::Pending => (self.waiting(WriteWait::Deadline), io, WriteAction::CheckTimer),
            },
        }
    }

    /// A flush begins: the write buffer moves into the pump. With nothing to
    /// write the flush is complete at once.
    pub open spec fn flush_begin(self, io: IoView) -> (WriteTaskView, IoView, WriteAction) {
        let taken = IoView { write: Seq::empty(), ..io };
        if io.write.len() == 0 {
            self.flush_result(taken, Poll::Ready(true))
        } else {
            (
                self.waiting(WriteWait::Write { buf: io.write, written: 0 }),
                taken,
                WriteAction::Write,
            )
        }
    }

    /// The writes of a flush are over: what is not out has gone back to the
    /// connection, which is now `released`, and the transport is flushed.
    pub open spec fn flush_finish(self, released: IoView, buf: Seq<u8>, written: nat) -> (
        WriteTaskView,
        IoView,
        WriteAction,
    ) {
        (
            self.waiting(WriteWait::Flush { drained: written >= buf.len() }),
            released,
            WriteAction::Flush,
        )
    }

    /// A poll begins, given what the chain answered. While processing, the
    /// chain decides: park, flush (after a look at the timer if it is armed),
    /// arm the timer, turn to shutdown, or close the transport. An armed
    /// timer is never armed anew. During shutdown the pump goes on where it
    /// was, and the chain is not asked.
    pub open spec fn begin(self, io: IoView, polled: Poll<WriteStatus>) -> (
        WriteTaskView,
        IoView,
        WriteAction,
    ) {
        match self.st {
            IoWriteState::Processing => {
                let asked = io.poll_write_ready();
                match polled {
                    Poll::Pending => (self.waiting(WriteWait::Idle), asked, WriteAction::Park),
                    Poll::Ready(status) => self.begin_on(asked, status),
                }
            },
            IoWriteState::Shutdown(Shutdown::Flushing) => self.flush_begin(io),
            IoWriteState::Shutdown(Shutdown::Stopping(_)) => (
                self.waiting(WriteWait::Discard),
                io,
                WriteAction::Discard,
            ),
        }
    }

    /// What the pump does, while processing, on the chain's answer `status`;
    /// `asked` is the connection after the question.
    pub open spec fn begin_on(self, asked: IoView, status: WriteStatus) -> (
        WriteTaskView,
        IoView,
        WriteAction,
    ) {
        match status {
            WriteStatus::Ready => if self.timer {
                (self.waiting(WriteWait::Timer), asked, WriteAction::CheckTimer)
            } else {
                self.flush_begin(asked)
            },
            WriteStatus::Timeout(ms) => if self.timer {
                (self.waiting(WriteWait::Idle), asked, WriteAction::Repoll)
            } else {
                (
                    WriteTaskView { timer: true, wait: WriteWait::Idle, ..self },
                    asked,
                    WriteAction::ArmTimer(ms),
                )
            },
            WriteStatus::Shutdown(ms) => (
                WriteTaskView {
                    st: IoWriteState::Shutdown(Shutdown::Flushing),
                    timer: true,
                    wait: WriteWait::Idle,
                },
                asked,
                if self.timer {
                    WriteAction::Repoll
                } else {
                    WriteAction::ArmTimer(ms)
                },
            ),
            WriteStatus::Terminate => (
                self.waiting(WriteWait::Terminating),
                asked,
                WriteAction::Close,
            ),
        }
    }

    /// The question that the pump has put and still waits on.
    pub open spec fn pending_action(self) -> WriteAction {
        match self.wait {
            WriteWait::Idle => WriteAction::Repoll,
            WriteWait::Timer => WriteAction::CheckTimer,
            WriteWait::Write { .. } => WriteAction::Write,
            WriteWait::Flush { .. } => WriteAction::Flush,
            WriteWait::HalfClose => WriteAction::HalfClose,
            WriteWait::Discard => WriteAction::Discard,
            WriteWait::Deadline => WriteAction::CheckTimer,
            WriteWait::Terminating => WriteAction::Close,
            WriteWait::Closing => WriteAction::Close,
            WriteWait::Done => WriteAction::Exit,
        }
    }

    /// Whether the step asks the chain what the pump is to do: it does where
    /// a poll begins while the pump processes.
    pub open spec fn polls(self) -> bool {
        self.wait is Idle && self.st is Processing
    }

    /// What the step releases to the connection, if it releases anything:
    /// what is not out of the buffer that is being flushed, once the
    /// transport would block or has taken the last of it.
    pub open spec fn releases(self, ev: WriteEvent) -> Option<Seq<u8>> {
        match self.wait {
            WriteWait::Write { buf, written } => match ev {
                WriteEvent::WritePending => Some(unwritten(buf, written)),
                WriteEvent::Wrote(n) => if n != 0 && written_after(buf, written, n as nat)
                    >= buf.len() {
                    Some(Seq::empty())
                } else {
                    None
                },
                _ => None,
            },
            _ => None,
        }
    }

    /// Whether `a` is what a chain may answer in this step: to the poll, the
    /// state block's answer, or to wait where the connection is not closing;
    /// and after the release the connection is one that the release may
    /// leave on a chain.
    pub open spec fn may_answer(self, io: IoView, ev: WriteEvent, a: WriteAnswers) -> bool {
        &&& self.polls() ==> a.polled == Poll::Ready(io.write_status()) || (a.polled is Pending
            && !io.closing())
        &&& self.releases(ev) matches Some(rest) ==> io.write_release_step(rest, a.released)
    }

    /// What a transparent chain answers in this step.
    pub open spec fn answers(self, io: IoView, ev: WriteEvent) -> WriteAnswers {
        WriteAnswers {
            polled: Poll::Ready(io.write_status()),
            released: match self.releases(ev) {
                Some(rest) => io.release_write(rest),
                None => io,
            },
        }
    }

    /// One step of the pump on a transparent chain.
    pub open spec fn step(self, io: IoView, ev: WriteEvent) -> (
        WriteTaskView,
        IoView,
        WriteAction,
    ) {
        self.step_given(io, ev, self.answers(io, ev))
    }

    /// One step of the pump, given what the chain answered. An event that
    /// answers another question than the one the pump waits on changes
    /// nothing, and the question is put again. A count of written bytes
    /// beyond what was offered counts as all that was offered.
    pub open spec fn step_given(self, io: IoView, ev: WriteEvent, a: WriteAnswers) -> (
        WriteTaskView,
        IoView,
        WriteAction,
    ) {
        let ignored = (self, io, self.pending_action());
        match self.wait {
            WriteWait::Done => ignored,
            WriteWait::Idle => self.begin(io, a.polled),
            WriteWait::Timer => match ev {
                WriteEvent::TimerElapsed => (
                    self.waiting(WriteWait::Done),
                    io.stop(Some(IoError::TimedOut)),
                    WriteAction::Exit,
                ),
                WriteEvent::TimerPending => self.flush_begin(io),
                _ => ignored,
            },
            WriteWait::Write { buf, written } => match ev {
                WriteEvent::WritePending => self.flush_finish(a.released, buf, written),
                WriteEvent::Wrote(n) => if n == 0 {
                    self.flush_result(io.stop(Some(IoError::WriteZero)), Poll::Ready(false))
                } else if written_after(buf, written, n as nat) < buf.len() {
                    (
                        self.waiting(
                            WriteWait::Write {
                                buf,
                                written: written_after(buf, written, n as nat),
                            },
                        ),
                        io,
                        WriteAction::Write,
                    )
                } else {
                    self.flush_finish(a.released, buf, buf.len())
                },
                WriteEvent::WriteFailed(e) => self.flush_result(
                    io.stop(Some(e)),
                    Poll::Ready(false),
                ),
                _ => ignored,
            },
            WriteWait::Flush { drained } => match ev {
                WriteEvent::Flushed => self.flush_result(
                    io,
                    if drained {
                        Poll::Ready(true)
                    } else {
                        Poll::Pending
                    },
                ),
                WriteEvent::FlushPending => self.flush_result(io, Poll::Pending),
                WriteEvent::FlushFailed(e) => self.flush_result(
                    io.stop(Some(e)),
                    Poll::Ready(false),
                ),
                _ => ignored,
            },
            WriteWait::HalfClose => match ev {
                WriteEvent::HalfClosed => (
                    WriteTaskView {
                        st: IoWriteState::Shutdown(Shutdown::Stopping(0)),
                        wait: WriteWait::Discard,
                        ..self
                    },
                    io,
                    WriteAction::Discard,
                ),
                WriteEvent::HalfCloseFailed => (
                    self.waiting(WriteWait::Done),
                    io.stop(None),
                    WriteAction::Exit,
                ),
                _ => ignored,
            },
            WriteWait::Discard => match ev {
                WriteEvent::DiscardFailed(e) => (
                    self.waiting(WriteWait::Done),
                    io.stop(Some(e)),
                    WriteAction::Exit,
                ),
                WriteEvent::DiscardEof => (
                    self.waiting(WriteWait::Done),
                    io.stop(None),
                    WriteAction::Exit,
                ),
                WriteEvent::Discarded(n) => match self.st {
                    IoWriteState::Shutdown(Shutdown::Stopping(count)) => if count <= DISCARD_LIMIT
                        && discarded_after(count, n as nat) <= DISCARD_LIMIT {
                        (
                            WriteTaskView {
                                st: IoWriteState::Shutdown(
                                    Shutdown::Stopping(discarded_after(count, n as nat) as u16),
                                ),
                                ..self
                            },
                            io,
                            WriteAction::Discard,
                        )
                    } else {
                        (self.waiting(WriteWait::Done), io.stop(None), WriteAction::Exit)
                    },
                    _ => (self.waiting(WriteWait::Done), io.stop(None), WriteAction::Exit),
                },
                WriteEvent::DiscardPending => (
                    self.waiting(WriteWait::Deadline),
                    io,
                    WriteAction::CheckTimer,
                ),
                _ => ignored,
            },
            WriteWait::Deadline => match ev {
                WriteEvent::TimerPending => (
                    self.waiting(WriteWait::Idle),
                    io,
                    WriteAction::Park,
                ),
                WriteEvent::TimerElapsed => (
                    self.waiting(WriteWait::Closing),
                    io.stop(None),
                    WriteAction::Close,
                ),
                _ => ignored,
            },
            WriteWait::Terminating => match ev {
                WriteEvent::Closed => (
                    self.waiting(WriteWait::Done),
                    io.stop(None),
                    WriteAction::Exit,
                ),
                _ => ignored,
            },
            WriteWait::Closing => match ev {
                WriteEvent::Closed => (self.waiting(WriteWait::Done), io, WriteAction::Exit),
                _ => ignored,
            },
        }
    }
}

impl WriteTask {
    /// A pump that has not run yet.
    pub fn new(ctx: WriteContext) -> (task: WriteTask)
        ensures
            task@ == WriteTaskView::init(),
    {
        WriteTask { ctx, st: IoWriteState::Processing, timer: false, wait: Waiting::Idle }
    }

    /// What the pump is busy with.
    pub fn state(&self) -> (st: IoWriteState)
        ensures
            st == self@.st,
    {
        self.st
    }

    /// Whether the pump has finished.
    pub fn is_done(&self) -> (r: bool)
        ensures
            r == (self@.wait is Done),
    {
        match self.wait {
            Waiting::Done => true,
            _ => false,
        }
    }

    /// The bytes to write next: what is not out yet of the buffer that is
    /// being flushed, and nothing outside a flush.
    pub fn chunk(&self) -> (s: &[u8])
        ensures
            s@ == (match self@.wait {
                WriteWait::Write { buf, written } => unwritten(buf, written),
                _ => Seq::empty(),
            }),
    {
        match &self.wait {
            Waiting::Write { buf, written } => {
                let all = as_slice(buf);
                if *written >= all.len() {
                    slice_subrange(all, 0, 0)
                } else {
                    slice_subrange(all, *written, all.len())
                }
            },
            _ => {
                let none: &[u8] = &[];
                assert(none@ =~= Seq::<u8>::empty());
                none
            },
        }
    }

    fn flush_result<F: Filter>(&mut self, io: &mut Io<F>, res: Poll<bool>) -> (action:
        WriteAction)
        ensures
            old(io).state@.step(final(io).state@),
            (final(self)@, final(io).state@, action) == old(self)@.flush_result(
                old(io).state@,
                res,
            ),
    {
        match self.st {
            IoWriteState::Processing => match res {
                Poll::Ready(false) => {
                    self.wait = Waiting::Done;
                    WriteAction::Exit
                },
                _ => {
                    self.wait = Waiting::Idle;
                    WriteAction::Park
                },
            },
            IoWriteState::Shutdown(_) => match res {
                Poll::Ready(true) => {
                    self.wait = Waiting::HalfClose;
                    WriteAction::HalfClose
                },
                Poll::Ready(false) => {
                    self.ctx.close(io, None);
                    self.wait = Waiting::Done;
                    WriteAction::Exit
                },
                Poll::Pending => {
                    self.wait = Waiting::Deadline;
                    WriteAction::CheckTimer
                },
            },
        }
    }

    fn flush_begin<F: Filter>(&mut self, io: &mut Io<F>) -> (action: WriteAction)
        ensures
            old(io).state@.step(final(io).state@),
            (final(self)@, final(io).state@, action) == old(self)@.flush_begin(old(io).state@),
    {
        match self.ctx.get_write_buf(io) {
            None => self.flush_result(io, Poll::Ready(true)),
            Some(buf) => {
                if buf.is_empty() {
                    self.flush_result(io, Poll::Ready(true))
                } else {
                    self.wait = Waiting::Write { buf, written: 0 };
                    WriteAction::Write
                }
            },
        }
    }

    fn flush_finish<F: Filter>(&mut self, io: &mut Io<F>, buf: BytesMut, written: usize) -> (action:
        WriteAction)
        ensures
            old(io).state@.step(final(io).state@),
            old(io).state@.write_release_step(
                unwritten(contents(&buf), written as nat),
                final(io).state@,
            ),
            (final(self)@, final(io).state@, action) == old(self)@.flush_finish(
                final(io).state@,
                contents(&buf),
                written as nat,
            ),
            F::transparent() || F::defers() ==> final(io).state@ == old(io).state@.release_write(
                unwritten(contents(&buf), written as nat),
            ),
    {
        let ghost given = contents(&buf);
        let mut buf = buf;
        let drained = written >= buf.len();
        if drained {
            buf.clear();
        } else {
            advance(&mut buf, written);
        }
        proof {
            assert(contents(&buf) =~= unwritten(given, written as nat));
        }
        let _ = self.ctx.release_write_buf(io, buf);
        self.wait = Waiting::Flush { drained };
        WriteAction::Flush
    }

    fn begin<F: Filter>(&mut self, io: &mut Io<F>, waker: &Waker) -> (r: (
        WriteAction,
        Ghost<Poll<WriteStatus>>,
    ))
        ensures
            old(io).state@.step(final(io).state@),
            old(self)@.st is Processing && old(io).state@.has(Flag::IoStopped) ==> r.0
                == WriteAction::Close,
            r.1@ == Poll::Ready(old(io).state@.write_status()) || (old(self)@.st is Processing
                && r.1@ is Pending && !old(io).state@.closing()),
            F::transparent() || F::defers() ==> r.1@ == Poll::Ready(
                old(io).state@.write_status(),
            ),
            (final(self)@, final(io).state@, r.0) == old(self)@.begin(old(io).state@, r.1@),
    {
        let ghost status = Poll::Ready(io.state@.write_status());
        if self.st != IoWriteState::Processing {
            let action = match self.st {
                IoWriteState::Shutdown(Shutdown::Stopping(_)) => {
                    self.wait = Waiting::Discard;
                    WriteAction::Discard
                },
                _ => self.flush_begin(io),
            };
            return (action, Ghost(status));
        }
        let polled = self.ctx.poll_ready(io, waker);
        let ghost answer = polled;
        let action = match self.st {
            IoWriteState::Processing => match polled {
                Poll::Pending => {
                    self.wait = Waiting::Idle;
                    WriteAction::Park
                },
                Poll::Ready(WriteStatus::Ready) => {
                    if self.timer {
                        self.wait = Waiting::Timer;
                        WriteAction::CheckTimer
                    } else {
                        self.flush_begin(io)
                    }
                },
                Poll::Ready(WriteStatus::Timeout(ms)) => {
                    self.wait = Waiting::Idle;
                    if self.timer {
                        WriteAction::Repoll
                    } else {
                        self.timer = true;
                        WriteAction::ArmTimer(ms)
                    }
                },
                Poll::Ready(WriteStatus::Shutdown(ms)) => {
                    let armed = self.timer;
                    self.st = IoWriteState::Shutdown(Shutdown::Flushing);
                    self.timer = true;
                    self.wait = Waiting::Idle;
                    if armed {
                        WriteAction::Repoll
                    } else {
                        WriteAction::ArmTimer(ms)
                    }
                },
                Poll::Ready(WriteStatus::Terminate) => {
                    self.wait = Waiting::Terminating;
                    WriteAction::Close
                },
            },
            _ => WriteAction::Park,
        };
        (action, Ghost(answer))
    }

    fn ignore(&mut self, wait: Waiting) -> (action: WriteAction)
        ensures
            final(self)@ == old(self)@.waiting(wait@),
            action == final(self)@.pending_action(),
    {
        self.wait = wait;
        match &self.wait {
            Waiting::Idle => WriteAction::Repoll,
            Waiting::Timer => WriteAction::CheckTimer,
            Waiting::Write { .. } => WriteAction::Write,
            Waiting::Flush { .. } => WriteAction::Flush,
            Waiting::HalfClose => WriteAction::HalfClose,
            Waiting::Discard => WriteAction::Discard,
            Waiting::Deadline => WriteAction::CheckTimer,
            Waiting::Terminating => WriteAction::Close,
            Waiting::Closing => WriteAction::Close,
            Waiting::Done => WriteAction::Exit,
        }
    }

    fn finish<F: Filter>(&mut self, io: &mut Io<F>, err: Option<IoError>) -> (action:
        WriteAction)
        ensures
            final(io).state@ == old(io).state@.stop(err),
            final(self)@ == old(self)@.waiting(WriteWait::Done),
            action == WriteAction::Exit,
    {
        self.ctx.close(io, err);
        self.wait = Waiting::Done;
        WriteAction::Exit
    }

    /// One step of the pump: takes how the last step ended and says what to
    /// do next. The step is [`WriteTaskView::step_given`] for what the chain
    /// answered, which is something that a chain may answer. On a chain that
    /// defers, as every chain of the layers of this library does, that makes
    /// it [`WriteTaskView::step`]. On every chain a pump that is polled while
    /// it processes closes the transport of a stopped connection and neither
    /// writes to it nor reads from it.
    pub fn step<F: Filter>(&mut self, io: &mut Io<F>, waker: &Waker, ev: WriteEvent) -> (action:
        WriteAction)
        ensures
            old(io).state@.step(final(io).state@),
            old(self)@.wait is Idle && old(self)@.st is Processing && old(io).state@.has(
                Flag::IoStopped,
            ) ==> action == WriteAction::Close,
            old(self)@.wait is Done ==> action == WriteAction::Exit && final(self)@ == old(self)@
                && final(io).state@ == old(io).state@,
            exists|a: WriteAnswers| #[trigger]
                old(self)@.may_answer(old(io).state@, ev, a) && (
                final(self)@,
                final(io).state@,
                action,
            ) == old(self)@.step_given(old(io).state@, ev, a),
            F::transparent() || F::defers() ==> (final(self)@, final(io).state@, action)
                == old(self)@.step(old(io).state@, ev),
    {
        let ghost io0 = io.state@;
        let ghost me = self@;
        let ghost mut a = WriteAnswers { polled: Poll::Ready(io0.write_status()), released: io0 };
        let mut wait = Waiting::Idle;
        core::mem::swap(&mut wait, &mut self.wait);
        proof {
            assert(self@.waiting(wait@) == old(self)@);
        }
        let action = match wait {
            Waiting::Done => self.ignore(Waiting::Done),
            Waiting::Idle => {
                let (action, Ghost(polled)) = self.begin(io, waker);
                proof {
                    a = WriteAnswers { polled, released: io0 };
                }
                action
            },
            Waiting::Timer => match ev {
                WriteEvent::TimerElapsed => self.finish(io, Some(IoError::TimedOut)),
                WriteEvent::TimerPending => self.flush_begin(io),
                _ => self.ignore(Waiting::Timer),
            },
            Waiting::Write { buf, written } => match ev {
                WriteEvent::WritePending => {
                    let action = self.flush_finish(io, buf, written);
                    proof {
                        a = WriteAnswers { released: io.state@, ..a };
                    }
                    action
                },
                WriteEvent::Wrote(n) => {
                    let len = buf.len();
                    if n == 0 {
                        io.state.pool.release_write_buf(buf);
                        self.ctx.close(io, Some(IoError::WriteZero));
                        self.flush_result(io, Poll::Ready(false))
                    } else if written < len && n < len - written {
                        self.wait = Waiting::Write { buf, written: written + n };
                        WriteAction::Write
                    } else {
                        let action = self.flush_finish(io, buf, len);
                        proof {
                            a = WriteAnswers { released: io.state@, ..a };
                        }
                        action
                    }
                },
                WriteEvent::WriteFailed(e) => {
                    io.state.pool.release_write_buf(buf);
                    self.ctx.close(io, Some(e));
                    self.flush_result(io, Poll::Ready(false))
                },
                _ => self.ignore(Waiting::Write { buf, written }),
            },
            Waiting::Flush { drained } => match ev {
                WriteEvent::Flushed => {
                    if drained {
                        self.flush_result(io, Poll::Ready(true))
                    } else {
                        self.flush_result(io, Poll::Pending)
                    }
                },
                WriteEvent::FlushPending => self.flush_result(io, Poll::Pending),
                WriteEvent::FlushFailed(e) => {
                    self.ctx.close(io, Some(e));
                    self.flush_result(io, Poll::Ready(false))
                },
                _ => self.ignore(Waiting::Flush { drained }),
            },
            Waiting::HalfClose => match ev {
                WriteEvent::HalfClosed => {
                    self.st = IoWriteState::Shutdown(Shutdown::Stopping(0));
                    self.wait = Waiting::Discard;
                    WriteAction::Discard
                },
                WriteEvent::HalfCloseFailed => self.finish(io, None),
                _ => self.ignore(Waiting::HalfClose),
            },
            Waiting::Discard => match ev {
                WriteEvent::DiscardFailed(e) => self.finish(io, Some(e)),
                WriteEvent::DiscardEof => self.finish(io, None),
                WriteEvent::Discarded(n) => match self.st {
                    IoWriteState::Shutdown(Shutdown::Stopping(count)) => {
                        if count > DISCARD_LIMIT {
                            self.finish(io, None)
                        } else {
                            let more: u16 = if n >= DISCARD_CHUNK {
                                512
                            } else {
                                n as u16
                            };
                            let total: u16 = count + more;
                            if total > DISCARD_LIMIT {
                                self.finish(io, None)
                            } else {
                                self.st = IoWriteState::Shutdown(Shutdown::Stopping(total));
                                self.wait = Waiting::Discard;
                                WriteAction::Discard
                            }
                        }
                    },
                    _ => self.finish(io, None),
                },
                WriteEvent::DiscardPending => {
                    self.wait = Waiting::Deadline;
                    WriteAction::CheckTimer
                },
                _ => self.ignore(Waiting::Discard),
            },
            Waiting::Deadline => match ev {
                WriteEvent::TimerPending => {
                    self.wait = Waiting::Idle;
                    WriteAction::Park
                },
                WriteEvent::TimerElapsed => {
                    self.ctx.close(io, None);
                    self.wait = Waiting::Closing;
                    WriteAction::Close
                },
                _ => self.ignore(Waiting::Deadline),
            },
            Waiting::Terminating => match ev {
                WriteEvent::Closed => self.finish(io, None),
                _ => self.ignore(Waiting::Terminating),
            },
            Waiting::Closing => match ev {
                WriteEvent::Closed => {
                    self.wait = Waiting::Done;
                    WriteAction::Exit
                },
                _ => self.ignore(Waiting::Closing),
            },
        };
        proof {
            assert(me.may_answer(io0, ev, a));
            assert((self@, io.state@, action) == me.step_given(io0, ev, a));
        }
        action
    }
}

} // verus!
