//! The read pump's decisions.
//!
//! The pump itself belongs to the transport: it reads from the socket into
//! the buffer that [`ReadTask`] holds out, and reports how each read ended.
//! What to do next is decided here.

use crate::buf::{contents, reserve_within, remaining_mut};
use crate::error::IoError;
use crate::filter::{Filter, Io};
use crate::flags::Flag;
use crate::state::IoView;
use crate::status::{Poll, ReadStatus};
use crate::tasks::ReadContext;
use ntex_bytes::BytesMut;
use std::task::Waker;
use vstd::prelude::*;

verus! {

/// How the pump's last step ended.
#[derive(Debug)]
pub enum ReadEvent {
    /// The pump was polled.
    Poll,
    /// A read returned: what it read stands at the end of the buffer, and
    /// nothing new there means end of stream.
    Ready,
    /// A read would block.
    Pending,
    /// A read failed.
    Failed(IoError),
}

/// What the pump does next.
#[derive(Copy, Clone, Debug, PartialEq, Eq, Structural)]
pub enum ReadAction {
    /// Read from the transport into the buffer held out, and report.
    Read,
    /// Return and wait to be woken.
    Park,
    /// The pump has finished.
    Exit,
}

/// How much room to ask for when `remaining` bytes are free: where less than
/// the low watermark is free, and less than the high one, what is missing to
/// the high watermark; otherwise nothing.
pub open spec fn spec_room_to_reserve(remaining: usize, hw: usize, lw: usize) -> int {
    if remaining < lw && remaining < hw {
        hw - remaining
    } else {
        0
    }
}

/// How much room to ask for when `remaining` bytes are free.
pub fn room_to_reserve(remaining: usize, hw: usize, lw: usize) -> (more: usize)
    ensures
        more == spec_room_to_reserve(remaining, hw, lw),
{
    if remaining < lw && remaining < hw {
        hw - remaining
    } else {
        0
    }
}

/// Makes sure there is room to read into: asks the buffer how much is free,
/// and for [`room_to_reserve`] more where that is not nothing. The bytes held
/// never change; how much room the buffer then has is the allocator's to say.
pub fn make_room(buf: &mut BytesMut, hw: usize, lw: usize)
    ensures
        contents(final(buf)) == contents(old(buf)),
{
    let more = room_to_reserve(remaining_mut(buf), hw, lw);
    if more > 0 {
        reserve_within(buf, more);
    }
}

/// The read pump as contracts see it.
pub struct ReadTaskView {
    /// The bytes of the buffer held out, during a pass.
    pub buf: Option<Seq<u8>>,
    /// The buffer's length when the pass began.
    pub start_len: nat,
    /// The buffer's length when the pump last reported.
    pub seen_len: nat,
    /// Whether the pump has finished.
    pub done: bool,
}

/// The state of the read pump between its steps.
pub struct ReadTask {
    /// The pump's capability.
    pub ctx: ReadContext,
    /// The buffer to read into, during a pass.
    pub buf: Option<BytesMut>,
    /// The buffer's length when the pass began.
    pub start_len: usize,
    /// The buffer's length when the pump last reported.
    pub seen_len: usize,
    /// Whether the pump has finished.
    pub done: bool,
}

impl View for ReadTask {
    type V = ReadTaskView;

    open spec fn view(&self) -> ReadTaskView {
        ReadTaskView {
            buf: match self.buf {
                Some(b) => Some(contents(&b)),
                None => None,
            },
            start_len: self.start_len as nat,
            seen_len: self.seen_len as nat,
            done: self.done,
        }
    }
}

/// What the chain answered in the course of one step of the read pump. Each
/// answer counts only where the step asks for it.
pub struct ReadAnswers {
    /// The connection after the pump has released its buffer.
    pub released: IoView,
    /// The chain's answer to the pump's question whether it may read.
    pub polled: Poll<ReadStatus>,
    /// The bytes of the buffer that the chain staged for the pass, or none
    /// where the pass begins on a buffer of the pool.
    pub staged: Seq<u8>,
    /// The connection after the pump has taken that buffer.
    pub taken: IoView,
}

impl ReadTaskView {
    /// Between passes, with nothing to remember.
    pub open spec fn idle() -> ReadTaskView {
        ReadTaskView { buf: None, start_len: 0, seen_len: 0, done: false }
    }

    /// After the last step.
    pub open spec fn finished() -> ReadTaskView {
        ReadTaskView { buf: None, start_len: 0, seen_len: 0, done: true }
    }

    /// How many bytes the transport has added to a buffer of `len` bytes
    /// since the pass began.
    pub open spec fn new_bytes(self, len: nat) -> nat {
        if len >= self.start_len {
            (len - self.start_len) as nat
        } else {
            0
        }
    }

    /// What a chain may answer when the pump, on the connection `io`, asks
    /// whether it may read and takes the staged buffer: the answer is the
    /// state block's, or the chain holds the pump back where the connection
    /// is not closing; and taking the buffer leaves the block as it is but
    /// for the read buffer, which may be emptied.
    pub open spec fn may_begin(io: IoView, a: ReadAnswers) -> bool {
        &&& a.polled == io.read_status() || (a.polled is Pending && !io.closing())
        &&& io.poll_read_ready().read_take(a.taken)
    }

    /// The pump asks the chain and, if it may read, begins a pass: on
    /// `Pending` it parks, on `Terminate` it exits, and otherwise the staged
    /// buffer moves into the pump.
    pub open spec fn begin_given(io: IoView, a: ReadAnswers) -> (
        ReadTaskView,
        IoView,
        ReadAction,
    ) {
        let asked = io.poll_read_ready();
        match a.polled {
            Poll::Pending => (ReadTaskView::idle(), asked, ReadAction::Park),
            Poll::Ready(ReadStatus::Terminate) => (
                ReadTaskView::finished(),
                asked,
                ReadAction::Exit,
            ),
            Poll::Ready(ReadStatus::Ready) => (
                ReadTaskView {
                    buf: Some(a.staged),
                    start_len: a.staged.len(),
                    seen_len: a.staged.len(),
                    done: false,
                },
                a.taken,
                ReadAction::Read,
            ),
        }
    }

    /// What a transparent chain answers when a pass begins on `io`.
    pub open spec fn begin_answers(io: IoView, released: IoView) -> ReadAnswers {
        ReadAnswers {
            released,
            polled: io.read_status(),
            staged: io.read,
            taken: IoView { read: Seq::empty(), ..io.poll_read_ready() },
        }
    }

    /// The pump asks the chain and, if it may read, begins a pass on a
    /// transparent chain: the read buffer moves into the pump.
    pub open spec fn begin(io: IoView) -> (ReadTaskView, IoView, ReadAction) {
        ReadTaskView::begin_given(io, ReadTaskView::begin_answers(io, io))
    }

    /// Whether the step releases the pump's buffer: it does when a read would
    /// block, has failed, has brought the end of the stream, or has brought
    /// the pass over the read high watermark.
    pub open spec fn releases(self, io: IoView, ev: ReadEvent) -> bool {
        !self.done && self.buf.is_some() && match ev {
            ReadEvent::Poll => false,
            ReadEvent::Pending => true,
            ReadEvent::Failed(_) => true,
            ReadEvent::Ready => self.buf.unwrap().len() <= self.seen_len || self.new_bytes(
                self.buf.unwrap().len(),
            ) > io.pool.read_hw(),
        }
    }

    /// Whether the step asks the chain whether the pump may read: it does
    /// outside a pass, and after a pass that went over the read high
    /// watermark.
    pub open spec fn polls(self, io: IoView, ev: ReadEvent) -> bool {
        !self.done && (self.buf.is_none() || (ev is Ready && self.buf.unwrap().len()
            > self.seen_len && self.new_bytes(self.buf.unwrap().len()) > io.pool.read_hw()))
    }

    /// Whether `a` is what a chain may answer in this step.
    pub open spec fn may_answer(self, io: IoView, ev: ReadEvent, a: ReadAnswers) -> bool {
        &&& self.releases(io, ev) ==> io.read_release_step(self.buf.unwrap(), a.released)
        &&& self.polls(io, ev) ==> ReadTaskView::may_begin(
            if self.releases(io, ev) {
                a.released
            } else {
                io
            },
            a,
        )
    }

    /// Whether `a` is what a chain that defers may answer in this step: as on
    /// any chain, but the answer to the poll is the state block's, and the
    /// sweep after a release is the terminal layer's.
    pub open spec fn may_answer_deferred(
        self,
        io: IoView,
        ev: ReadEvent,
        a: ReadAnswers,
    ) -> bool {
        let polled = if self.releases(io, ev) {
            a.released
        } else {
            io
        };
        &&& self.releases(io, ev) ==> io.read_release_deferred(self.buf.unwrap(), a.released)
        &&& self.polls(io, ev) ==> a.polled == polled.read_status()
            && polled.poll_read_ready().read_take(a.taken)
    }

    /// One step of the pump, given what the chain answered.
    ///
    /// - A finished pump stays finished.
    /// - Outside a pass every event begins one.
    /// - A read that would block ends the pass: the buffer is released and
    ///   the pump parks.
    /// - A read that added nothing is the end of stream: the buffer is
    ///   released, the chain is closed, the pump exits.
    /// - A read that added bytes goes on reading while the pass has gathered
    ///   no more than the read high watermark; past it the buffer is released
    ///   and the chain is asked again.
    /// - A failed read releases the buffer, closes the chain with the error
    ///   and exits.
    /// - A poll in the middle of a pass asks for the read again.
    pub open spec fn step_given(self, io: IoView, ev: ReadEvent, a: ReadAnswers) -> (
        ReadTaskView,
        IoView,
        ReadAction,
    ) {
        if self.done {
            (self, io, ReadAction::Exit)
        } else if self.buf.is_none() {
            ReadTaskView::begin_given(io, a)
        } else {
            let buf = self.buf.unwrap();
            let gathered = self.new_bytes(buf.len());
            match ev {
                ReadEvent::Poll => (self, io, ReadAction::Read),
                ReadEvent::Pending => (ReadTaskView::idle(), a.released, ReadAction::Park),
                ReadEvent::Failed(e) => (
                    ReadTaskView::finished(),
                    a.released.read_closed(Some(e)),
                    ReadAction::Exit,
                ),
                ReadEvent::Ready => {
                    if buf.len() <= self.seen_len {
                        (ReadTaskView::finished(), a.released.read_closed(None), ReadAction::Exit)
                    } else if gathered <= io.pool.read_hw() {
                        (ReadTaskView { seen_len: buf.len(), ..self }, io, ReadAction::Read)
                    } else {
                        ReadTaskView::begin_given(a.released, a)
                    }
                },
            }
        }
    }

    /// What a transparent chain answers in this step.
    pub open spec fn answers(self, io: IoView, ev: ReadEvent) -> ReadAnswers {
        if self.releases(io, ev) {
            let released = io.release_read(
                self.buf.unwrap(),
                self.new_bytes(self.buf.unwrap().len()),
            );
            ReadTaskView::begin_answers(released, released)
        } else {
            ReadTaskView::begin_answers(io, io)
        }
    }

    /// One step of the pump on a transparent chain.
    pub open spec fn step(self, io: IoView, ev: ReadEvent) -> (ReadTaskView, IoView, ReadAction) {
        self.step_given(io, ev, self.answers(io, ev))
    }
}

impl ReadTask {
    /// A pump that has not run yet.
    pub fn new(ctx: ReadContext) -> (task: ReadTask)
        ensures
            task@ == ReadTaskView::idle(),
    {
        ReadTask { ctx, buf: None, start_len: 0, seen_len: 0, done: false }
    }

    /// Whether the pump has finished.
    pub fn is_done(&self) -> (r: bool)
        ensures
            r == self@.done,
    {
        self.done
    }

    fn finish(&mut self)
        ensures
            final(self)@ == ReadTaskView::finished(),
    {
        self.buf = None;
        self.start_len = 0;
        self.seen_len = 0;
        self.done = true;
    }

    fn rest(&mut self)
        ensures
            final(self)@ == ReadTaskView::idle(),
    {
        self.buf = None;
        self.start_len = 0;
        self.seen_len = 0;
        self.done = false;
    }

    fn begin<F: Filter>(
        &mut self,
        io: &mut Io<F>,
        waker: &Waker,
        Ghost(released): Ghost<IoView>,
    ) -> (r: (ReadAction, Ghost<ReadAnswers>))
        ensures
            old(io).state@.step(final(io).state@),
            r.1@.released == released,
            ReadTaskView::may_begin(old(io).state@, r.1@),
            (final(self)@, final(io).state@, r.0) == ReadTaskView::begin_given(
                old(io).state@,
                r.1@,
            ),
            F::transparent() ==> r.1@ == ReadTaskView::begin_answers(old(io).state@, released),
            F::defers() ==> r.1@.polled == old(io).state@.read_status(),
    {
        let polled = self.ctx.poll_ready(io, waker);
        let ghost asked = io.state@;
        match polled {
            Poll::Pending => {
                self.rest();
                (
                    ReadAction::Park,
                    Ghost(
                        ReadAnswers {
                            polled: Poll::Pending,
                            ..ReadTaskView::begin_answers(old(io).state@, released)
                        },
                    ),
                )
            },
            Poll::Ready(ReadStatus::Terminate) => {
                self.finish();
                (
                    ReadAction::Exit,
                    Ghost(
                        ReadAnswers {
                            polled: Poll::Ready(ReadStatus::Terminate),
                            ..ReadTaskView::begin_answers(old(io).state@, released)
                        },
                    ),
                )
            },
            Poll::Ready(ReadStatus::Ready) => {
                let mut buf = self.ctx.get_read_buf(io);
                let (hw, lw) = io.state.pool.read().unpack();
                let len = buf.len();
                make_room(&mut buf, hw, lw);
                let ghost answers = ReadAnswers {
                    released,
                    polled: Poll::Ready(ReadStatus::Ready),
                    staged: contents(&buf),
                    taken: io.state@,
                };
                self.buf = Some(buf);
                self.start_len = len;
                self.seen_len = len;
                self.done = false;
                (ReadAction::Read, Ghost(answers))
            },
        }
    }

    /// One step of the pump: takes how the last step ended and says what to
    /// do next. The step is [`ReadTaskView::step_given`] for what the chain
    /// answered, which is something that a chain may answer. On a chain that
    /// defers the answer to the poll is the state block's and the sweep is
    /// the terminal layer's; on a transparent chain the step is
    /// [`ReadTaskView::step`]. On every chain a stopped connection is never
    /// read from.
    pub fn step<F: Filter>(&mut self, io: &mut Io<F>, waker: &Waker, ev: ReadEvent) -> (action:
        ReadAction)
        ensures
            old(io).state@.step(final(io).state@),
            action == ReadAction::Read ==> final(self).buf.is_some(),
            action == ReadAction::Exit <==> final(self)@.done,
            old(self)@.buf.is_none() && old(io).state@.has(Flag::IoStopped) ==> action
                == ReadAction::Exit,
            exists|a: ReadAnswers| #[trigger]
                old(self)@.may_answer(old(io).state@, ev, a) && (
                final(self)@,
                final(io).state@,
                action,
            ) == old(self)@.step_given(old(io).state@, ev, a),
            F::defers() ==> exists|a: ReadAnswers| #[trigger]
                old(self)@.may_answer_deferred(old(io).state@, ev, a) && (
                final(self)@,
                final(io).state@,
                action,
            ) == old(self)@.step_given(old(io).state@, ev, a),
            F::transparent() ==> (final(self)@, final(io).state@, action) == old(self)@.step(
                old(io).state@,
                ev,
            ),
    {
        let ghost io0 = io.state@;
        let ghost me = self@;
        let ghost none = ReadTaskView::begin_answers(io0, io0);
        if self.done {
            assert(me.may_answer(io0, ev, none));
            assert(me.may_answer_deferred(io0, ev, none));
            return ReadAction::Exit;
        }
        let buf = match self.buf.take() {
            None => {
                let (action, Ghost(a)) = self.begin(io, waker, Ghost(io0));
                assert(me.may_answer(io0, ev, a));
                assert(F::defers() ==> me.may_answer_deferred(io0, ev, a));
                return action;
            },
            Some(buf) => buf,
        };
        let len = buf.len();
        let gathered = if len >= self.start_len {
            len - self.start_len
        } else {
            0
        };
        match ev {
            ReadEvent::Poll => {
                self.buf = Some(buf);
                assert(me.may_answer(io0, ev, none));
                assert(F::defers() ==> me.may_answer_deferred(io0, ev, none));
                ReadAction::Read
            },
            ReadEvent::Pending => {
                self.ctx.release_read_buf(io, buf, gathered);
                self.rest();
                let ghost a = ReadTaskView::begin_answers(io.state@, io.state@);
                assert(me.may_answer(io0, ev, a));
                assert(F::defers() ==> me.may_answer_deferred(io0, ev, a));
                ReadAction::Park
            },
            ReadEvent::Failed(e) => {
                self.ctx.release_read_buf(io, buf, gathered);
                let ghost a = ReadTaskView::begin_answers(io.state@, io.state@);
                self.ctx.close(io, Some(e));
                self.finish();
                assert(me.may_answer(io0, ev, a));
                assert(F::defers() ==> me.may_answer_deferred(io0, ev, a));
                ReadAction::Exit
            },
            ReadEvent::Ready => {
                if len <= self.seen_len {
                    self.ctx.release_read_buf(io, buf, gathered);
                    let ghost a = ReadTaskView::begin_answers(io.state@, io.state@);
                    self.ctx.close(io, None);
                    self.finish();
                    assert(me.may_answer(io0, ev, a));
                    assert(F::defers() ==> me.may_answer_deferred(io0, ev, a));
                    ReadAction::Exit
                } else if gathered <= io.state.pool.read().unpack().0 {
                    let (hw, lw) = io.state.pool.read().unpack();
                    let mut buf = buf;
                    make_room(&mut buf, hw, lw);
                    self.buf = Some(buf);
                    self.seen_len = len;
                    assert(me.may_answer(io0, ev, none));
                    assert(F::defers() ==> me.may_answer_deferred(io0, ev, none));
                    ReadAction::Read
                } else {
                    self.ctx.release_read_buf(io, buf, gathered);
                    let ghost released = io.state@;
                    let (action, Ghost(a)) = self.begin(io, waker, Ghost(released));
                    assert(me.may_answer(io0, ev, a));
                    assert(F::defers() ==> me.may_answer_deferred(io0, ev, a));
                    action
                }
            },
        }
    }
}

} // verus!
