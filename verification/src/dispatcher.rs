//! The dispatcher's decisions: what a receive does when the codec has no
//! frame, what the service is handed, and when the connection is shut down.

use crate::dispatch::{DispatchItem, RecvError};
use crate::error::IoError;
use crate::filter::{Filter, Io};
use crate::io::IoStatusUpdate;
use crate::state::IoView;
use crate::status::Poll;
use std::task::Waker;
use vstd::prelude::*;

verus! {

/// What a receive does after the codec has found no frame.
#[derive(Debug)]
pub enum RecvStep<D> {
    /// Decoded bytes wait: let the codec try again.
    Decode,
    /// The receive ends without a frame.
    Fail(RecvError<D>),
    /// Return and wait to be woken.
    Park,
}

impl IoView {
    /// What a receive does once the codec needs more bytes: it goes by
    /// [`IoView::dispatch_read_status`] first and, where that says to wait,
    /// by [`IoView::status_update`]. So a gone connection comes before all
    /// other news, and news comes only when no frame can be decoded.
    pub open spec fn recv_wait<D>(self) -> RecvStep<D> {
        match self.dispatch_read_status() {
            Poll::Ready(Ok(Some(_))) => RecvStep::Decode,
            Poll::Ready(Ok(None)) => RecvStep::Fail(RecvError::PeerGone(None)),
            Poll::Ready(Err(e)) => RecvStep::Fail(RecvError::PeerGone(Some(e))),
            Poll::Pending => match self.poll_dispatch_read().status_update() {
                Some(IoStatusUpdate::KeepAlive) => RecvStep::Fail(RecvError::KeepAlive),
                Some(IoStatusUpdate::WriteBackpressure) => RecvStep::Fail(
                    RecvError::WriteBackpressure,
                ),
                Some(IoStatusUpdate::Stop) => RecvStep::Fail(RecvError::Stop),
                Some(IoStatusUpdate::PeerGone(e)) => RecvStep::Fail(RecvError::PeerGone(e)),
                None => RecvStep::Park,
            },
        }
    }

    /// The block after [`IoView::recv_wait`].
    pub open spec fn after_recv_wait(self) -> IoView {
        match self.dispatch_read_status() {
            Poll::Pending => self.poll_dispatch_read().poll_status_update(),
            _ => self.poll_dispatch_read(),
        }
    }
}

impl<F: Filter> Io<F> {
    /// Decides how a receive goes on after the codec has found no frame. A
    /// decoder's error ends the receive with it and leaves the connection as
    /// it is. Where the codec needs more bytes see [`IoView::recv_wait`].
    pub fn recv_after_decode<D>(&mut self, waker: &Waker, failed: Option<D>) -> (step: RecvStep<
        D,
    >)
        ensures
            final(self).filter == old(self).filter,
            failed matches Some(e) ==> step == RecvStep::Fail(RecvError::Decoder(e))
                && final(self).state@ == old(self).state@,
            failed.is_none() ==> step == old(self).state@.recv_wait::<D>() && final(self).state@
                == old(self).state@.after_recv_wait(),
    {
        match failed {
            Some(e) => RecvStep::Fail(RecvError::Decoder(e)),
            None => match self.poll_read_ready(waker) {
                Poll::Ready(Ok(Some(_))) => RecvStep::Decode,
                Poll::Ready(Ok(None)) => RecvStep::Fail(RecvError::PeerGone(None)),
                Poll::Ready(Err(e)) => RecvStep::Fail(RecvError::PeerGone(Some(e))),
                Poll::Pending => match self.poll_status_update(waker) {
                    Poll::Ready(IoStatusUpdate::KeepAlive) => RecvStep::Fail(
                        RecvError::KeepAlive,
                    ),
                    Poll::Ready(IoStatusUpdate::WriteBackpressure) => RecvStep::Fail(
                        RecvError::WriteBackpressure,
                    ),
                    Poll::Ready(IoStatusUpdate::Stop) => RecvStep::Fail(RecvError::Stop),
                    Poll::Ready(IoStatusUpdate::PeerGone(e)) => RecvStep::Fail(
                        RecvError::PeerGone(e),
                    ),
                    Poll::Pending => RecvStep::Park,
                },
            },
        }
    }
}

/// Where the dispatcher stands.
#[derive(Copy, Clone, Debug, PartialEq, Eq, Structural)]
pub enum DispatcherState {
    /// Frames are read and handed to the service.
    Processing,
    /// The service was told that back-pressure is on; the dispatcher waits
    /// for the write buffer to drain.
    Backpressure,
    /// No more frames are read; calls of the service that are under way are
    /// awaited.
    Stop,
    /// The connection is being shut down.
    Shutdown,
}

/// The dispatcher as contracts see it.
pub struct DispatcherView {
    /// Where the dispatcher stands.
    pub st: DispatcherState,
    /// How many calls of the service are under way.
    pub inflight: nat,
}

/// The dispatcher's state.
pub struct Dispatcher {
    st: DispatcherState,
    inflight: usize,
}

impl View for Dispatcher {
    type V = DispatcherView;

    closed spec fn view(&self) -> DispatcherView {
        DispatcherView { st: self.st, inflight: self.inflight as nat }
    }
}

/// Something that the dispatcher has to react to.
pub enum DispatchEvent<T, D, E> {
    /// A receive has ended, in a frame or without one.
    Received(Result<T, RecvError<D>>),
    /// The wait for the write buffer has ended: the buffer is at or under
    /// its threshold, or the connection has gone.
    Drained(Result<(), IoError>),
    /// The encoder has failed on a reply of the service.
    EncoderFailed(E),
}

impl<T, D, E> DispatchItem<T, D, E> {
    /// Whether the item tells the service that the connection is at its
    /// end.
    pub open spec fn terminal(self) -> bool {
        match self {
            DispatchItem::KeepAliveTimeout => true,
            DispatchItem::DecoderError(_) => true,
            DispatchItem::EncoderError(_) => true,
            DispatchItem::Disconnect(_) => true,
            _ => false,
        }
    }
}

impl DispatcherView {
    /// How the dispatcher reacts: where it stands afterwards, and what it
    /// hands to the service.
    ///
    /// - While it processes, a received frame is handed on; back-pressure is
    ///   announced and the dispatcher waits for the drain; an expired
    ///   keep-alive timer, a decoder's error, a gone peer and an encoder's
    ///   error are handed on and stop the dispatcher; a stop request stops
    ///   it and is not handed on.
    /// - While it waits for the drain, the drain is announced and the
    ///   dispatcher processes again; a connection that went instead is
    ///   handed on as a disconnect, and an encoder's error as itself, and
    ///   both stop the dispatcher. What is received meanwhile is dropped.
    /// - Once it has stopped, nothing is handed on.
    pub open spec fn react<T, D, E>(st: DispatcherState, ev: DispatchEvent<T, D, E>) -> (
        DispatcherState,
        Option<DispatchItem<T, D, E>>,
    ) {
        match st {
            DispatcherState::Processing => match ev {
                DispatchEvent::Received(Ok(frame)) => (st, Some(DispatchItem::Item(frame))),
                DispatchEvent::Received(Err(RecvError::KeepAlive)) => (
                    DispatcherState::Stop,
                    Some(DispatchItem::KeepAliveTimeout),
                ),
                DispatchEvent::Received(Err(RecvError::WriteBackpressure)) => (
                    DispatcherState::Backpressure,
                    Some(DispatchItem::WBackPressureEnabled),
                ),
                DispatchEvent::Received(Err(RecvError::Decoder(e))) => (
                    DispatcherState::Stop,
                    Some(DispatchItem::DecoderError(e)),
                ),
                DispatchEvent::Received(Err(RecvError::PeerGone(e))) => (
                    DispatcherState::Stop,
                    Some(DispatchItem::Disconnect(e)),
                ),
                DispatchEvent::Received(Err(RecvError::Stop)) => (DispatcherState::Stop, None),
                DispatchEvent::Drained(_) => (st, None),
                DispatchEvent::EncoderFailed(e) => (
                    DispatcherState::Stop,
                    Some(DispatchItem::EncoderError(e)),
                ),
            },
            DispatcherState::Backpressure => match ev {
                DispatchEvent::Received(_) => (st, None),
                DispatchEvent::Drained(Ok(_)) => (
                    DispatcherState::Processing,
                    Some(DispatchItem::WBackPressureDisabled),
                ),
                DispatchEvent::Drained(Err(e)) => (
                    DispatcherState::Stop,
                    Some(
                        DispatchItem::Disconnect(
                            if e is Disconnected {
                                None
                            } else {
                                Some(e)
                            },
                        ),
                    ),
                ),
                DispatchEvent::EncoderFailed(e) => (
                    DispatcherState::Stop,
                    Some(DispatchItem::EncoderError(e)),
                ),
            },
            _ => (st, None),
        }
    }

    /// How many of the items that the service is handed in a run of events
    /// tell it that the connection is at its end.
    pub open spec fn terminal_items<T, D, E>(
        st: DispatcherState,
        events: Seq<DispatchEvent<T, D, E>>,
    ) -> nat
        decreases events.len(),
    {
        if events.len() == 0 {
            0
        } else {
            let (next, item) = DispatcherView::react(st, events.first());
            let rest = DispatcherView::terminal_items(next, events.drop_first());
            match item {
                Some(i) => if i.terminal() {
                    rest + 1
                } else {
                    rest
                },
                None => rest,
            }
        }
    }
}

/// The service is told at most once that the connection is at its end: of
/// all that it is handed in a run of events, at most one item is an expired
/// keep-alive timer, an error of the codec or a disconnect; and none, once
/// the dispatcher has stopped.
pub proof fn lemma_one_terminal_notification<T, D, E>(
    st: DispatcherState,
    events: Seq<DispatchEvent<T, D, E>>,
)
    ensures
        DispatcherView::terminal_items(st, events) <= 1,
        st == DispatcherState::Stop || st == DispatcherState::Shutdown
            ==> DispatcherView::terminal_items(st, events) == 0,
    decreases events.len(),
{
    if events.len() > 0 {
        let (next, item) = DispatcherView::react(st, events.first());
        lemma_one_terminal_notification(next, events.drop_first());
    }
}

impl Dispatcher {
    /// A dispatcher that processes, with no call under way.
    pub fn new() -> (d: Dispatcher)
        ensures
            d@ == (DispatcherView { st: DispatcherState::Processing, inflight: 0 }),
    {
        Dispatcher { st: DispatcherState::Processing, inflight: 0 }
    }

    /// Where the dispatcher stands.
    pub fn state(&self) -> (st: DispatcherState)
        ensures
            st == self@.st,
    {
        self.st
    }

    /// How many calls of the service are under way.
    pub fn inflight(&self) -> (n: usize)
        ensures
            n == self@.inflight,
    {
        self.inflight
    }

    /// Reacts to an event: see [`DispatcherView::react`].
    pub fn react<T, D, E>(&mut self, ev: DispatchEvent<T, D, E>) -> (item: Option<
        DispatchItem<T, D, E>,
    >)
        ensures
            final(self)@.inflight == old(self)@.inflight,
            (final(self)@.st, item) == DispatcherView::react(old(self)@.st, ev),
    {
        match self.st {
            DispatcherState::Processing => match ev {
                DispatchEvent::Received(Ok(frame)) => Some(DispatchItem::Item(frame)),
                DispatchEvent::Received(Err(RecvError::KeepAlive)) => {
                    self.st = DispatcherState::Stop;
                    Some(DispatchItem::KeepAliveTimeout)
                },
                DispatchEvent::Received(Err(RecvError::WriteBackpressure)) => {
                    self.st = DispatcherState::Backpressure;
                    Some(DispatchItem::WBackPressureEnabled)
                },
                DispatchEvent::Received(Err(RecvError::Decoder(e))) => {
                    self.st = DispatcherState::Stop;
                    Some(DispatchItem::DecoderError(e))
                },
                DispatchEvent::Received(Err(RecvError::PeerGone(e))) => {
                    self.st = DispatcherState::Stop;
                    Some(DispatchItem::Disconnect(e))
                },
                DispatchEvent::Received(Err(RecvError::Stop)) => {
                    self.st = DispatcherState::Stop;
                    None
                },
                DispatchEvent::Drained(_) => None,
                DispatchEvent::EncoderFailed(e) => {
                    self.st = DispatcherState::Stop;
                    Some(DispatchItem::EncoderError(e))
                },
            },
            DispatcherState::Backpressure => match ev {
                DispatchEvent::Received(_) => None,
                DispatchEvent::Drained(Ok(_)) => {
                    self.st = DispatcherState::Processing;
                    Some(DispatchItem::WBackPressureDisabled)
                },
                DispatchEvent::Drained(Err(e)) => {
                    self.st = DispatcherState::Stop;
                    match e {
                        IoError::Disconnected => Some(DispatchItem::Disconnect(None)),
                        e => Some(DispatchItem::Disconnect(Some(e))),
                    }
                },
                DispatchEvent::EncoderFailed(e) => {
                    self.st = DispatcherState::Stop;
                    Some(DispatchItem::EncoderError(e))
                },
            },
            _ => None,
        }
    }

    /// A receive has ended: reacts to [`DispatchEvent::Received`].
    pub fn on_recv<T, D, E>(&mut self, res: Result<T, RecvError<D>>) -> (item: Option<
        DispatchItem<T, D, E>,
    >)
        ensures
            final(self)@.inflight == old(self)@.inflight,
            (final(self)@.st, item) == DispatcherView::react(
                old(self)@.st,
                DispatchEvent::<T, D, E>::Received(res),
            ),
    {
        self.react(DispatchEvent::Received(res))
    }

    /// The wait for the write buffer has ended: reacts to
    /// [`DispatchEvent::Drained`].
    pub fn on_drain<T, D, E>(&mut self, res: Result<(), IoError>) -> (item: Option<
        DispatchItem<T, D, E>,
    >)
        ensures
            final(self)@.inflight == old(self)@.inflight,
            (final(self)@.st, item) == DispatcherView::react(
                old(self)@.st,
                DispatchEvent::<T, D, E>::Drained(res),
            ),
    {
        self.react(DispatchEvent::Drained(res))
    }

    /// The encoder has failed on a reply of the service: reacts to
    /// [`DispatchEvent::EncoderFailed`].
    pub fn on_encoder_error<T, D, E>(&mut self, err: E) -> (item: Option<DispatchItem<T, D, E>>)
        ensures
            final(self)@.inflight == old(self)@.inflight,
            (final(self)@.st, item) == DispatcherView::react(
                old(self)@.st,
                DispatchEvent::<T, D, E>::EncoderFailed(err),
            ),
    {
        self.react(DispatchEvent::EncoderFailed(err))
    }

    /// A call of the service begins. Returns whether it was counted: the
    /// count does not go beyond what a `usize` holds.
    pub fn call_started(&mut self) -> (counted: bool)
        ensures
            final(self)@.st == old(self)@.st,
            counted == (old(self)@.inflight < usize::MAX),
            final(self)@.inflight == (if counted {
                old(self)@.inflight + 1
            } else {
                old(self)@.inflight
            }),
    {
        if self.inflight < usize::MAX {
            self.inflight = self.inflight + 1;
            true
        } else {
            false
        }
    }

    /// A call of the service has ended.
    pub fn call_finished(&mut self)
        ensures
            final(self)@.st == old(self)@.st,
            final(self)@.inflight == (if old(self)@.inflight > 0 {
                old(self)@.inflight - 1
            } else {
                0
            }),
    {
        if self.inflight > 0 {
            self.inflight = self.inflight - 1;
        }
    }

    /// A stopped dispatcher with no call under way shuts the connection
    /// down, once. Returns whether it did.
    pub fn poll_stop<F: Filter>(&mut self, io: &mut Io<F>) -> (began: bool)
        ensures
            final(self)@.inflight == old(self)@.inflight,
            began == (old(self)@.st == DispatcherState::Stop && old(self)@.inflight == 0),
            final(self)@.st == (if began {
                DispatcherState::Shutdown
            } else {
                old(self)@.st
            }),
            old(io).state@.step(final(io).state@),
            !began ==> final(io).state@ == old(io).state@ && final(io).filter == old(io).filter,
            began ==> old(io).state@.init_shutdown().maybe_swept(final(io).state@),
            began && (F::transparent() || F::defers()) ==> final(io).state@
                == old(io).state@.shutdown(),
    {
        if self.st == DispatcherState::Stop && self.inflight == 0 {
            io.shutdown();
            self.st = DispatcherState::Shutdown;
            true
        } else {
            false
        }
    }
}

} // verus!
