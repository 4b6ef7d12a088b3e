//! The filter chain: the contract of a layer, the terminal layer, and the
//! connection that owns the state block and the head of its chain.

use crate::buf::contents;
use crate::error::IoError;
use crate::pool::MemoryPool;
use crate::state::{bytes_of, IoState, IoView};
use crate::status::{Poll, ReadStatus, WriteStatus};
use crate::tasks::{ReadContext, WriteContext};
use crate::types::{QueryItem, QueryKey, QueryValue, Queryable};
use ntex_bytes::BytesMut;
use std::task::Waker;
use vstd::prelude::*;

verus! {

/// What a transport leaves behind when it starts: it answers questions that
/// only the transport can answer.
pub trait Handle {
    fn query(&self, key: QueryKey) -> Option<QueryValue>;
}

/// A transport. Starting it hands the two capabilities to whatever pumps
/// bytes for the connection.
pub trait IoStream {
    fn start(self, read: ReadContext, write: WriteContext) -> Option<Box<dyn Handle>>;
}

/// One layer of the chain, together with all layers under it.
///
/// Hints and closure travel down to the terminal layer unchanged, so their
/// effect on the state block is that of the terminal layer for every chain.
/// What a layer does to bytes is its own business; a chain is *transparent*
/// where it hands every buffer through as it is.
pub trait Filter: Sized {
    /// Whether the chain neither changes nor withholds bytes and leaves every
    /// answer to the terminal layer.
    spec fn transparent() -> bool;

    /// Whether the chain leaves every answer about readiness and shutdown to
    /// the terminal layer: no layer of it holds a pump back, and none has
    /// anything of its own to shut down.
    spec fn defers() -> bool;

    /// Whether what the chain makes of bytes is fixed by rule: whether
    /// [`Filter::carries_up`] and [`Filter::carries_down`] say what comes out
    /// of it.
    spec fn ruled() -> bool;

    /// On a ruled chain: the raw bytes `raw`, come from the transport, go up
    /// through the chain and come out as `out`, and the chain is `after`
    /// afterwards.
    spec fn carries_up(&self, raw: Seq<u8>, after: Self, out: Seq<u8>) -> bool;

    /// On a ruled chain: the bytes `plain`, come from the dispatcher, go down
    /// through the chain and come out as `out`, and the chain is `after`
    /// afterwards.
    spec fn carries_down(&self, plain: Seq<u8>, after: Self, out: Seq<u8>) -> bool;

    /// A transparent chain is ruled: it carries every byte as it is, both
    /// ways, and stays as it is.
    proof fn lemma_transparent_carries(&self, bytes: Seq<u8>)
        ensures
            Self::transparent() ==> {
                &&& Self::ruled()
                &&& self.carries_up(bytes, *self, bytes)
                &&& self.carries_down(bytes, *self, bytes)
            },
    ;

    /// Whether `r` can be the chain's answer to `key`. A layer that knows the
    /// answer gives it; every other layer gives the answer of the chain under
    /// it; and the terminal layer has nothing to say without its transport.
    spec fn may_answer(&self, key: QueryKey, r: Option<QueryValue>) -> bool;

    /// Answers a question, or passes it down.
    fn query(&self, key: QueryKey) -> (r: Option<QueryValue>)
        ensures
            self.may_answer(key, r),
    ;

    /// The dispatcher needs more bytes from the transport.
    fn want_read(&mut self, st: &mut IoState)
        ensures
            final(st)@ == old(st)@.want_read(),
    ;

    /// The layer asks for shutdown: see [`IoView::want_shutdown`].
    fn want_shutdown(&mut self, st: &mut IoState, err: Option<IoError>)
        ensures
            final(st)@ == old(st)@.want_shutdown(err),
            Self::ruled() ==> *final(self) == *old(self),
    ;

    /// Shuts the layers down. A layer may write while it does so, and may
    /// need more than one call.
    fn poll_shutdown(&mut self, st: &mut IoState) -> (res: Poll<Result<(), IoError>>)
        ensures
            old(st)@.write_step(final(st)@),
            Self::transparent() ==> res == Poll::<Result<(), IoError>>::Ready(Ok(()))
                && final(st)@ == old(st)@,
            Self::defers() ==> res == Poll::<Result<(), IoError>>::Ready(Ok(())) && final(st)@
                == old(st)@,
            Self::ruled() ==> *final(self) == *old(self),
    ;

    /// The read pump asks whether it may read. A layer may hold the pump
    /// back, but never keeps it running against the state block's answer.
    fn poll_read_ready(&mut self, st: &mut IoState, waker: &Waker) -> (res: Poll<ReadStatus>)
        ensures
            final(st)@ == old(st)@.poll_read_ready(),
            res == old(st)@.read_status() || (res is Pending && !old(st)@.closing()),
            Self::transparent() ==> res == old(st)@.read_status(),
            Self::defers() ==> res == old(st)@.read_status(),
    ;

    /// The write pump asks what to do. A layer may hold the pump back, but
    /// never keeps it running against the state block's answer.
    fn poll_write_ready(&mut self, st: &mut IoState, waker: &Waker) -> (res: Poll<WriteStatus>)
        ensures
            final(st)@ == old(st)@.poll_write_ready(),
            res == Poll::Ready(old(st)@.write_status()) || (res is Pending && !old(st)@.closing()),
            Self::transparent() ==> res == Poll::Ready(old(st)@.write_status()),
            Self::defers() ==> res == Poll::Ready(old(st)@.write_status()),
    ;

    /// Takes the buffer that the head of the chain has staged for the read
    /// pump, if there is one.
    fn get_read_buf(&mut self, st: &mut IoState) -> (buf: Option<BytesMut>)
        ensures
            old(st)@.read_take(final(st)@),
            Self::transparent() ==> bytes_of(buf) == old(st)@.read && final(st)@ == (IoView {
                read: Seq::empty(),
                ..old(st)@
            }) && *final(self) == *old(self),
            Self::ruled() && !Self::transparent() ==> buf.is_none() && final(st)@ == old(st)@
                && *final(self) == *old(self),
    ;

    /// Takes the buffer that the head of the chain has staged for the
    /// dispatcher's output, if there is one.
    fn get_write_buf(&mut self, st: &mut IoState) -> (buf: Option<BytesMut>)
        ensures
            old(st)@.write_take(final(st)@),
            Self::transparent() ==> bytes_of(buf) == old(st)@.write && final(st)@ == (IoView {
                write: Seq::empty(),
                ..old(st)@
            }) && *final(self) == *old(self),
            Self::ruled() && !Self::transparent() ==> buf.is_none() && final(st)@ == old(st)@
                && *final(self) == *old(self),
    ;

    /// Takes `src`, raw bytes of which `nbytes` are new, and adds what they
    /// decode to onto `dst`. Returns how much input the dispatcher has
    /// gained, where zero stands for none.
    fn release_read_buf(
        &mut self,
        src: BytesMut,
        dst: &mut Option<BytesMut>,
        nbytes: usize,
    ) -> (res: Result<usize, IoError>)
        ensures
            Self::transparent() ==> res == Ok::<usize, IoError>(nbytes) && bytes_of(*final(dst))
                == contents(&src) && *final(self) == *old(self),
            Self::ruled() ==> (res matches Err(e) ==> e is BufferFull),
            Self::ruled() && !Self::transparent() ==> (res matches Ok(n) ==> exists|out: Seq<u8>|
                {
                    &&& #[trigger] old(self).carries_up(contents(&src), *final(self), out)
                    &&& bytes_of(*final(dst)) == bytes_of(*old(dst)) + out
                    &&& n == out.len()
                }),
    ;

    /// Takes the dispatcher's output, encodes it and passes it down.
    fn release_write_buf(&mut self, st: &mut IoState, buf: BytesMut) -> (res: Result<
        (),
        IoError,
    >)
        ensures
            old(st)@.write_step(final(st)@),
            Self::transparent() ==> res.is_ok() && final(st)@ == (if contents(&buf).len() == 0 {
                old(st)@
            } else {
                old(st)@.write_buffered(contents(&buf))
            }) && *final(self) == *old(self),
            Self::ruled() ==> (res matches Err(e) ==> e is BufferFull),
            Self::ruled() && !Self::transparent() ==> (res.is_ok() ==> exists|out: Seq<u8>|
                {
                    &&& #[trigger] old(self).carries_down(contents(&buf), *final(self), out)
                    &&& final(st)@ == old(st)@.written(out)
                }),
    ;

    /// The transport has closed, with `err` or at end of stream.
    fn closed(&mut self, st: &mut IoState, err: Option<IoError>)
        ensures
            final(st)@ == old(st)@.stop(err),
    ;
}

/// What counts as an answer to `key` of what a transport said: what answers
/// that question, and nothing else.
pub fn answer_to(key: QueryKey, said: Option<QueryValue>) -> (r: Option<QueryValue>)
    ensures
        r == (match said {
            Some(v) => if v.spec_key() == key {
                Some(v)
            } else {
                None
            },
            None => None,
        }),
{
    match said {
        Some(v) => if v.key() == key {
            Some(v)
        } else {
            None
        },
        None => None,
    }
}

/// The terminal layer: it sits on the transport, and its buffers are those of
/// the state block.
pub struct Base {
    handle: Option<Box<dyn Handle>>,
}

impl Base {
    /// Whether the layer holds what a transport left behind.
    pub closed spec fn has_handle(&self) -> bool {
        self.handle.is_some()
    }

    /// A terminal layer over what the transport left behind.
    pub fn new(handle: Option<Box<dyn Handle>>) -> (base: Base)
        ensures
            base.has_handle() == handle.is_some(),
    {
        Base { handle }
    }
}

impl Filter for Base {
    open spec fn transparent() -> bool {
        true
    }

    open spec fn defers() -> bool {
        true
    }

    open spec fn ruled() -> bool {
        true
    }

    /// The terminal layer hands every byte up as it is.
    open spec fn carries_up(&self, raw: Seq<u8>, after: Base, out: Seq<u8>) -> bool {
        after == *self && out == raw
    }

    /// The terminal layer hands every byte down as it is.
    open spec fn carries_down(&self, plain: Seq<u8>, after: Base, out: Seq<u8>) -> bool {
        after == *self && out == plain
    }

    proof fn lemma_transparent_carries(&self, bytes: Seq<u8>) {
    }

    /// An answer comes only from what a transport left behind, and only if
    /// it answers the question that was asked.
    open spec fn may_answer(&self, key: QueryKey, r: Option<QueryValue>) -> bool {
        r matches Some(v) ==> self.has_handle() && v.spec_key() == key
    }

    /// Asks what the transport left behind. What it says to another question
    /// than the one asked is no answer.
    fn query(&self, key: QueryKey) -> (r: Option<QueryValue>) {
        match &self.handle {
            Some(h) => answer_to(key, h.query(key)),
            None => None,
        }
    }

    fn want_read(&mut self, st: &mut IoState) {
        st.want_read()
    }

    fn want_shutdown(&mut self, st: &mut IoState, err: Option<IoError>) {
        st.want_shutdown(err)
    }

    fn poll_shutdown(&mut self, st: &mut IoState) -> (res: Poll<Result<(), IoError>>) {
        Poll::Ready(Ok(()))
    }

    fn poll_read_ready(&mut self, st: &mut IoState, waker: &Waker) -> (res: Poll<ReadStatus>) {
        st.poll_read_ready(waker)
    }

    fn poll_write_ready(&mut self, st: &mut IoState, waker: &Waker) -> (res: Poll<
        WriteStatus,
    >) {
        st.poll_write_ready(waker)
    }

    fn get_read_buf(&mut self, st: &mut IoState) -> (buf: Option<BytesMut>) {
        st.take_read_buf()
    }

    fn get_write_buf(&mut self, st: &mut IoState) -> (buf: Option<BytesMut>) {
        st.take_write_buf()
    }

    fn release_read_buf(
        &mut self,
        src: BytesMut,
        dst: &mut Option<BytesMut>,
        nbytes: usize,
    ) -> (res: Result<usize, IoError>) {
        *dst = Some(src);
        Ok(nbytes)
    }

    fn release_write_buf(&mut self, st: &mut IoState, buf: BytesMut) -> (res: Result<
        (),
        IoError,
    >) {
        st.write_buffered(buf);
        Ok(())
    }

    /// The connection stops, and what the transport left behind is let go.
    fn closed(&mut self, st: &mut IoState, err: Option<IoError>)
        ensures
            !final(self).has_handle(),
    {
        st.stop(err);
        self.handle = None;
    }
}

/// What follows the chain's answer to a sweep: a chain that has shut down
/// lets graceful shutdown of the transport begin, one that has failed stops
/// the connection with its error, and one that needs more time changes
/// nothing yet.
pub fn sweep_answered(st: &mut IoState, answer: Poll<Result<(), IoError>>)
    ensures
        final(st)@ == (match answer {
            Poll::Ready(Ok(())) => old(st)@.filters_done(),
            Poll::Ready(Err(e)) => old(st)@.stop(Some(e)),
            Poll::Pending => old(st)@,
        }),
{
    match answer {
        Poll::Ready(Ok(())) => {
            st.filters_done();
        },
        Poll::Ready(Err(e)) => {
            st.stop(Some(e));
        },
        Poll::Pending => {},
    }
}

/// A connection: the state block and the head of the filter chain.
pub struct Io<F> {
    /// The state block.
    pub state: IoState,
    /// The head of the chain.
    pub filter: F,
}

impl Io<Base> {
    /// Starts `stream` and builds a connection on it, with a chain of the
    /// terminal layer alone.
    pub fn new<S: IoStream>(stream: S, pool: MemoryPool) -> (io: Io<Base>)
        ensures
            io.state@ == IoView::init(pool),
    {
        let handle = stream.start(ReadContext::new(), WriteContext::new());
        Io { state: IoState::new(pool), filter: Base::new(handle) }
    }
}

impl<F: Filter> Io<F> {
    /// A connection over a state block and a chain.
    pub fn from_parts(state: IoState, filter: F) -> (io: Io<F>)
        ensures
            io.state == state,
            io.filter == filter,
    {
        Io { state, filter }
    }

    /// The connection's pool and watermarks.
    pub fn memory_pool(&self) -> (pool: MemoryPool)
        ensures
            pool == self.state@.pool,
    {
        self.state.pool
    }

    /// Puts another head on the chain: `wrap` receives the present head and
    /// returns the new one. The state block stays as it is.
    pub fn map_filter<G: Filter, W: FnOnce(F) -> G>(self, wrap: W) -> (io: Io<G>)
        requires
            wrap.requires((self.filter,)),
        ensures
            io.state == self.state,
            wrap.ensures((self.filter,), io.filter),
    {
        Io { state: self.state, filter: wrap(self.filter) }
    }

    /// Answers a question through the chain: the answer is one that the
    /// chain may give.
    pub fn query(&self, key: QueryKey) -> (r: Option<QueryValue>)
        ensures
            self.filter.may_answer(key, r),
    {
        self.filter.query(key)
    }

    /// Asks the chain the question that `T` answers, and wraps what the chain
    /// says: an answer that the chain may give to that question, or none.
    pub fn query_item<T: Queryable>(&self) -> (item: QueryItem<T>)
        ensures
            self.filter.may_answer(T::spec_key(), item.value()),
    {
        match self.filter.query(T::key()) {
            Some(v) => QueryItem::new(v),
            None => QueryItem::empty(),
        }
    }

    /// The filters' shutdown sweep. A closing connection is left alone.
    /// Otherwise the chain is asked to shut down: when it has, graceful
    /// shutdown of the transport begins; when it fails, the connection stops
    /// with the error; when it needs more time, nothing changes yet.
    pub fn shutdown_filters(&mut self)
        ensures
            old(self).state@.step(final(self).state@),
            old(self).state@.swept(final(self).state@),
            final(self).state@.read == old(self).state@.read,
            F::ruled() ==> final(self).filter == old(self).filter,
            F::transparent() || F::defers() ==> final(self).state@ == old(self).state@.sweep_now(),
    {
        if !self.state.is_closing() {
            let answer = self.filter.poll_shutdown(&mut self.state);
            let ghost mid = self.state@;
            let ghost answered = answer;
            sweep_answered(&mut self.state, answer);
            proof {
                if let Poll::Ready(Err(e)) = answered {
                    assert(self.state@ == mid.stop(Some(e)));
                }
                assert(old(self).state@.write_step(mid) && mid.sweep_ended(self.state@));
            }
        }
    }
}

} // verus!
