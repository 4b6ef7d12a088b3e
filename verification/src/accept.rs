//! Accepting TLS connections: the handshake's time limit, and the count that
//! bounds how many handshakes run at once.

use crate::error::IoError;
use crate::status::{Millis, Poll};
use crate::waker::WakerSlot;
use std::marker::PhantomData;
use std::task::Waker;
use vstd::prelude::*;

verus! {

/// The handshake's time limit where none is set, in milliseconds: five
/// seconds.
pub const DEFAULT_HANDSHAKE_TIMEOUT: u32 = 5000;

/// A count of things under way, with a capacity.
pub struct Counter {
    count: usize,
    capacity: usize,
    task: WakerSlot,
}

/// The counter as contracts see it.
pub struct CounterView {
    /// How many are under way.
    pub count: nat,
    /// How many may be under way at once.
    pub capacity: nat,
    /// Whether a task waits for room.
    pub waiting: bool,
}

/// The proof of one counted thing: handed out by [`Counter::get`] and taken
/// back by [`Counter::release`].
pub struct CounterGuard(());

impl View for Counter {
    type V = CounterView;

    closed spec fn view(&self) -> CounterView {
        CounterView {
            count: self.count as nat,
            capacity: self.capacity as nat,
            waiting: self.task.is_held(),
        }
    }
}

impl Counter {
    /// A counter at zero.
    pub fn new(capacity: usize) -> (c: Counter)
        ensures
            c@ == (CounterView { count: 0, capacity: capacity as nat, waiting: false }),
    {
        Counter { count: 0, capacity, task: WakerSlot::new() }
    }

    /// How many are under way.
    pub fn count(&self) -> (n: usize)
        ensures
            n == self@.count,
    {
        self.count
    }

    /// Whether there is room for one more. Where there is none the task of
    /// `waker` is remembered and woken when room is made.
    pub fn available(&mut self, waker: &Waker) -> (r: bool)
        ensures
            r == (old(self)@.count < old(self)@.capacity),
            final(self)@ == (CounterView {
                waiting: old(self)@.waiting || !r,
                ..old(self)@
            }),
    {
        if self.count < self.capacity {
            true
        } else {
            self.task.register(waker);
            false
        }
    }

    /// Counts one more, whether or not there is room.
    pub fn get(&mut self) -> (guard: CounterGuard)
        requires
            old(self)@.count < usize::MAX,
        ensures
            final(self)@ == (CounterView { count: old(self)@.count + 1, ..old(self)@ }),
    {
        self.count = self.count + 1;
        CounterGuard(())
    }

    /// Counts one less. The waiting task is woken where the counter was at
    /// its capacity. A counter at zero stays as it is.
    pub fn release(&mut self, guard: CounterGuard)
        ensures
            final(self)@ == (if old(self)@.count == 0 {
                old(self)@
            } else {
                CounterView {
                    count: (old(self)@.count - 1) as nat,
                    waiting: old(self)@.waiting && old(self)@.count != old(self)@.capacity,
                    ..old(self)@
                }
            }),
    {
        let num = self.count;
        if num > 0 {
            self.count = num - 1;
            if num == self.capacity {
                self.task.wake();
            }
        }
    }
}

/// A factory with its type put out of sight.
pub struct BoxedFactory<A> {
    factory: A,
}

impl<A> BoxedFactory<A> {
    /// The factory inside.
    pub closed spec fn inner(&self) -> A {
        self.factory
    }

    /// Seals `factory`.
    pub fn new(factory: A) -> (r: Self)
        ensures
            r.inner() == factory,
    {
        BoxedFactory { factory }
    }

    /// The factory inside.
    pub fn into_inner(self) -> (factory: A)
        ensures
            factory == self.inner(),
    {
        self.factory
    }
}

/// Makes services that accept TLS connections over a chain `F`.
pub struct Acceptor<F> {
    timeout: Millis,
    _t: PhantomData<F>,
}

/// Accepts TLS connections over a chain `F`, no more at once than a counter
/// allows.
pub struct AcceptorService<F> {
    timeout: Millis,
    _t: PhantomData<F>,
}

/// One accepted connection whose handshake is under way.
pub struct AcceptorServiceResponse {
    guard: CounterGuard,
    timeout: Millis,
}

impl<F> Acceptor<F> {
    /// The handshake's time limit.
    pub closed spec fn handshake_timeout(&self) -> Millis {
        self.timeout
    }

    /// An acceptor with the default time limit.
    pub fn new() -> (r: Self)
        ensures
            r.handshake_timeout() == Millis(DEFAULT_HANDSHAKE_TIMEOUT),
    {
        Acceptor { timeout: Millis(DEFAULT_HANDSHAKE_TIMEOUT), _t: PhantomData }
    }

    /// The handshake's time limit.
    pub fn get_timeout(&self) -> (t: Millis)
        ensures
            t == self.handshake_timeout(),
    {
        self.timeout
    }

    /// Sets the handshake's time limit.
    pub fn timeout(self, timeout: Millis) -> (r: Self)
        ensures
            r.handshake_timeout() == timeout,
    {
        let mut r = self;
        r.timeout = timeout;
        r
    }

    /// Puts the acceptor's type out of sight.
    pub fn seal(self) -> (r: BoxedFactory<Acceptor<F>>)
        ensures
            r.inner() == self,
    {
        BoxedFactory::new(self)
    }

    /// Another acceptor with the same time limit.
    pub fn duplicate(&self) -> (r: Self)
        ensures
            r.handshake_timeout() == self.handshake_timeout(),
    {
        Acceptor { timeout: self.timeout, _t: PhantomData }
    }

    /// A service with this acceptor's time limit.
    pub fn new_service(&self) -> (svc: AcceptorService<F>)
        ensures
            svc.handshake_timeout() == self.handshake_timeout(),
    {
        AcceptorService { timeout: self.timeout, _t: PhantomData }
    }
}

impl<F> AcceptorService<F> {
    /// The handshake's time limit.
    pub closed spec fn handshake_timeout(&self) -> Millis {
        self.timeout
    }

    /// The handshake's time limit.
    pub fn timeout(&self) -> (t: Millis)
        ensures
            t == self.handshake_timeout(),
    {
        self.timeout
    }

    /// Whether the service takes another connection: it does while `conns`
    /// has room, and waits for room otherwise. It never fails.
    pub fn poll_ready(&self, conns: &mut Counter, waker: &Waker) -> (res: Poll<
        Result<(), IoError>,
    >)
        ensures
            res == (if old(conns)@.count < old(conns)@.capacity {
                Poll::<Result<(), IoError>>::Ready(Ok(()))
            } else {
                Poll::Pending
            }),
            final(conns)@ == (CounterView {
                waiting: old(conns)@.waiting || res is Pending,
                ..old(conns)@
            }),
    {
        if conns.available(waker) {
            Poll::Ready(Ok(()))
        } else {
            Poll::Pending
        }
    }

    /// Takes a connection: it is counted in `conns` until the response is
    /// finished.
    pub fn call(&self, conns: &mut Counter) -> (resp: AcceptorServiceResponse)
        requires
            old(conns)@.count < usize::MAX,
        ensures
            final(conns)@ == (CounterView { count: old(conns)@.count + 1, ..old(conns)@ }),
            resp.handshake_timeout() == self.handshake_timeout(),
    {
        AcceptorServiceResponse { guard: conns.get(), timeout: self.timeout }
    }
}

impl AcceptorServiceResponse {
    /// The handshake's time limit.
    pub closed spec fn handshake_timeout(&self) -> Millis {
        self.timeout
    }

    /// The handshake's time limit.
    pub fn timeout(&self) -> (t: Millis)
        ensures
            t == self.handshake_timeout(),
    {
        self.timeout
    }

    /// The handshake is over, however it ended: the connection is no longer
    /// counted.
    pub fn finish(self, conns: &mut Counter)
        ensures
            final(conns)@ == (if old(conns)@.count == 0 {
                old(conns)@
            } else {
                CounterView {
                    count: (old(conns)@.count - 1) as nat,
                    waiting: old(conns)@.waiting && old(conns)@.count != old(conns)@.capacity,
                    ..old(conns)@
                }
            }),
    {
        conns.release(self.guard)
    }
}

} // verus!
