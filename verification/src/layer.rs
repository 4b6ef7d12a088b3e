//! Layers that transform bytes by rule, their composition, and the filter
//! that puts such a layer on a chain.
//!
//! A layer decodes what comes up from the transport and encodes what goes
//! down to it. What it makes of some bytes is a function of the bytes and of
//! the layer's state, given by [`Layer::spec_decode`] and
//! [`Layer::spec_encode`]. Two layers compose to a layer, and composition is
//! associative.

use crate::buf::{as_slice, contents, max_len, spec_max_len};
use crate::error::IoError;
use crate::filter::{Filter, Io};
use crate::pool::MemoryPool;
use crate::state::{bytes_of, IoState};
use crate::status::{Poll, ReadStatus, WriteStatus};
use crate::types::{QueryKey, QueryValue};
use ntex_bytes::BytesMut;
use std::task::Waker;
use vstd::prelude::*;

verus! {

/// A rule that transforms a stream of bytes in each direction.
pub trait Layer: Sized + View {
    /// Decoding `raw` in state `v`: the next state and the decoded bytes.
    spec fn spec_decode(v: Self::V, raw: Seq<u8>) -> (Self::V, Seq<u8>);

    /// Encoding `plain` in state `v`: the next state and the encoded bytes.
    spec fn spec_encode(v: Self::V, plain: Seq<u8>) -> (Self::V, Seq<u8>);

    /// Decodes `raw` and puts the result behind the bytes of `out`.
    fn decode(&mut self, raw: &[u8], out: &mut Vec<u8>)
        ensures
            final(self)@ == Self::spec_decode(old(self)@, raw@).0,
            final(out)@ == old(out)@ + Self::spec_decode(old(self)@, raw@).1,
    ;

    /// Encodes `plain` and puts the result behind the bytes of `out`.
    fn encode(&mut self, plain: &[u8], out: &mut Vec<u8>)
        ensures
            final(self)@ == Self::spec_encode(old(self)@, plain@).0,
            final(out)@ == old(out)@ + Self::spec_encode(old(self)@, plain@).1,
    ;
}

/// Every byte combined with a key by exclusive or, in both directions.
#[derive(Copy, Clone, Debug, PartialEq, Eq, Structural)]
pub struct Mask {
    pub key: u8,
}

/// Every byte raised by a key on the way down and lowered by it on the way
/// up, wrapping around.
#[derive(Copy, Clone, Debug, PartialEq, Eq, Structural)]
pub struct Shift {
    pub key: u8,
}

/// A byte raised by `key`, wrapping around.
pub open spec fn raised(b: u8, key: u8) -> u8 {
    if b + key > 255 {
        (b + key - 256) as u8
    } else {
        (b + key) as u8
    }
}

/// A byte lowered by `key`, wrapping around.
pub open spec fn lowered(b: u8, key: u8) -> u8 {
    if b < key {
        (b + 256 - key) as u8
    } else {
        (b - key) as u8
    }
}

impl View for Mask {
    type V = u8;

    open spec fn view(&self) -> u8 {
        self.key
    }
}

impl View for Shift {
    type V = u8;

    open spec fn view(&self) -> u8 {
        self.key
    }
}

impl Mask {
    fn apply(&self, src: &[u8], out: &mut Vec<u8>)
        ensures
            final(out)@ == old(out)@ + src@.map_values(|b: u8| b ^ self.key),
    {
        let ghost start = out@;
        let mut i: usize = 0;
        while i < src.len()
            invariant
                i <= src@.len(),
                out@ == start + src@.take(i as int).map_values(|b: u8| b ^ self.key),
            decreases src@.len() - i,
        {
            out.push(src[i] ^ self.key);
            proof {
                let f = |b: u8| b ^ self.key;
                assert(src@.take(i + 1).map_values(f) =~= src@.take(i as int).map_values(f).push(
                    f(src@[i as int]),
                ));
                assert(out@ =~= start + src@.take(i + 1).map_values(f));
            }
            i += 1;
        }
        proof {
            assert(src@.take(i as int) =~= src@);
        }
    }
}

impl Layer for Mask {
    open spec fn spec_decode(v: u8, raw: Seq<u8>) -> (u8, Seq<u8>) {
        (v, raw.map_values(|b: u8| b ^ v))
    }

    open spec fn spec_encode(v: u8, plain: Seq<u8>) -> (u8, Seq<u8>) {
        (v, plain.map_values(|b: u8| b ^ v))
    }

    fn decode(&mut self, raw: &[u8], out: &mut Vec<u8>) {
        self.apply(raw, out)
    }

    fn encode(&mut self, plain: &[u8], out: &mut Vec<u8>) {
        self.apply(plain, out)
    }
}

impl Layer for Shift {
    open spec fn spec_decode(v: u8, raw: Seq<u8>) -> (u8, Seq<u8>) {
        (v, raw.map_values(|b: u8| lowered(b, v)))
    }

    open spec fn spec_encode(v: u8, plain: Seq<u8>) -> (u8, Seq<u8>) {
        (v, plain.map_values(|b: u8| raised(b, v)))
    }

    fn decode(&mut self, raw: &[u8], out: &mut Vec<u8>) {
        let ghost start = out@;
        let ghost f = |b: u8| lowered(b, self.key);
        let mut i: usize = 0;
        while i < raw.len()
            invariant
                i <= raw@.len(),
                f == (|b: u8| lowered(b, self.key)),
                out@ == start + raw@.take(i as int).map_values(f),
            decreases raw@.len() - i,
        {
            out.push(raw[i].wrapping_sub(self.key));
            proof {
                assert(raw@.take(i + 1).map_values(f) =~= raw@.take(i as int).map_values(f).push(
                    f(raw@[i as int]),
                ));
                assert(out@ =~= start + raw@.take(i + 1).map_values(f));
            }
            i += 1;
        }
        proof {
            assert(raw@.take(i as int) =~= raw@);
        }
    }

    fn encode(&mut self, plain: &[u8], out: &mut Vec<u8>) {
        let ghost start = out@;
        let ghost f = |b: u8| raised(b, self.key);
        let mut i: usize = 0;
        while i < plain.len()
            invariant
                i <= plain@.len(),
                f == (|b: u8| raised(b, self.key)),
                out@ == start + plain@.take(i as int).map_values(f),
            decreases plain@.len() - i,
        {
            out.push(plain[i].wrapping_add(self.key));
            proof {
                assert(plain@.take(i + 1).map_values(f) =~= plain@.take(i as int).map_values(
                    f,
                ).push(f(plain@[i as int])));
                assert(out@ =~= start + plain@.take(i + 1).map_values(f));
            }
            i += 1;
        }
        proof {
            assert(plain@.take(i as int) =~= plain@);
        }
    }
}

/// Two layers as one: `outer` stands nearer to the dispatcher, `inner` nearer
/// to the transport. Bytes from the transport pass `inner` first, bytes from
/// the dispatcher `outer` first.
pub struct Compose<A, B> {
    pub outer: A,
    pub inner: B,
}

impl<A: Layer, B: Layer> View for Compose<A, B> {
    type V = (A::V, B::V);

    open spec fn view(&self) -> (A::V, B::V) {
        (self.outer@, self.inner@)
    }
}

impl<A: Layer, B: Layer> Layer for Compose<A, B> {
    open spec fn spec_decode(v: (A::V, B::V), raw: Seq<u8>) -> ((A::V, B::V), Seq<u8>) {
        let (inner, mid) = B::spec_decode(v.1, raw);
        let (outer, out) = A::spec_decode(v.0, mid);
        ((outer, inner), out)
    }

    open spec fn spec_encode(v: (A::V, B::V), plain: Seq<u8>) -> ((A::V, B::V), Seq<u8>) {
        let (outer, mid) = A::spec_encode(v.0, plain);
        let (inner, out) = B::spec_encode(v.1, mid);
        ((outer, inner), out)
    }

    fn decode(&mut self, raw: &[u8], out: &mut Vec<u8>) {
        let mut mid: Vec<u8> = Vec::new();
        self.inner.decode(raw, &mut mid);
        proof {
            assert(mid@ =~= B::spec_decode(old(self).inner@, raw@).1);
        }
        self.outer.decode(mid.as_slice(), out);
    }

    fn encode(&mut self, plain: &[u8], out: &mut Vec<u8>) {
        let mut mid: Vec<u8> = Vec::new();
        self.outer.encode(plain, &mut mid);
        proof {
            assert(mid@ =~= A::spec_encode(old(self).outer@, plain@).1);
        }
        self.inner.encode(mid.as_slice(), out);
    }
}

/// What a layer makes of pieces of input that come one after the other: the
/// state after the last piece, and all output in order.
pub open spec fn decode_run<L: Layer>(v: L::V, pieces: Seq<Seq<u8>>) -> (L::V, Seq<u8>)
    decreases pieces.len(),
{
    if pieces.len() == 0 {
        (v, Seq::empty())
    } else {
        let (before, out) = decode_run::<L>(v, pieces.drop_last());
        let (after, more) = L::spec_decode(before, pieces.last());
        (after, out + more)
    }
}

/// What a layer makes of pieces of output that come one after the other: the
/// state after the last piece, and all encoded bytes in order.
pub open spec fn encode_run<L: Layer>(v: L::V, pieces: Seq<Seq<u8>>) -> (L::V, Seq<u8>)
    decreases pieces.len(),
{
    if pieces.len() == 0 {
        (v, Seq::empty())
    } else {
        let (before, out) = encode_run::<L>(v, pieces.drop_last());
        let (after, more) = L::spec_encode(before, pieces.last());
        (after, out + more)
    }
}

/// Composition of layers is associative: three layers grouped as `(A∘B)∘C`
/// and as `A∘(B∘C)` make the same bytes of the same input, in both
/// directions, and pass into states that hold the same three states.
pub proof fn lemma_compose_associative<A: Layer, B: Layer, C: Layer>(
    a: A::V,
    b: B::V,
    c: C::V,
    bytes: Seq<u8>,
)
    ensures
        ({
            let left = Compose::<Compose<A, B>, C>::spec_decode(((a, b), c), bytes);
            let right = Compose::<A, Compose<B, C>>::spec_decode((a, (b, c)), bytes);
            left.1 == right.1 && left.0 == ((right.0.0, right.0.1.0), right.0.1.1)
        }),
        ({
            let left = Compose::<Compose<A, B>, C>::spec_encode(((a, b), c), bytes);
            let right = Compose::<A, Compose<B, C>>::spec_encode((a, (b, c)), bytes);
            left.1 == right.1 && left.0 == ((right.0.0, right.0.1.0), right.0.1.1)
        }),
{
}

/// Composition of layers is associative over whole streams: however the
/// input is cut into pieces, `(A∘B)∘C` and `A∘(B∘C)` make the same bytes of
/// it from end to end, in both directions.
pub proof fn lemma_compose_associative_on_streams<A: Layer, B: Layer, C: Layer>(
    a: A::V,
    b: B::V,
    c: C::V,
    pieces: Seq<Seq<u8>>,
)
    ensures
        ({
            let left = decode_run::<Compose<Compose<A, B>, C>>(((a, b), c), pieces);
            let right = decode_run::<Compose<A, Compose<B, C>>>((a, (b, c)), pieces);
            left.1 == right.1 && left.0 == ((right.0.0, right.0.1.0), right.0.1.1)
        }),
        ({
            let left = encode_run::<Compose<Compose<A, B>, C>>(((a, b), c), pieces);
            let right = encode_run::<Compose<A, Compose<B, C>>>((a, (b, c)), pieces);
            left.1 == right.1 && left.0 == ((right.0.0, right.0.1.0), right.0.1.1)
        }),
    decreases pieces.len(),
{
    if pieces.len() > 0 {
        lemma_compose_associative_on_streams::<A, B, C>(a, b, c, pieces.drop_last());
        let d = decode_run::<Compose<A, Compose<B, C>>>((a, (b, c)), pieces.drop_last()).0;
        lemma_compose_associative::<A, B, C>(d.0, d.1.0, d.1.1, pieces.last());
        let e = encode_run::<Compose<A, Compose<B, C>>>((a, (b, c)), pieces.drop_last()).0;
        lemma_compose_associative::<A, B, C>(e.0, e.1.0, e.1.1, pieces.last());
    }
}

/// Passes `src` down a chain: the bytes go behind what the chain has staged
/// for writing, or into a new buffer of `pool`, which the chain then takes.
/// Returns how many bytes were passed, which is all of them; fails where the
/// chain fails, and with `BufferFull` where the bytes do not fit behind the
/// staged ones.
pub fn write_through<F: Filter>(
    inner: &mut F,
    pool: &MemoryPool,
    st: &mut IoState,
    src: &[u8],
) -> (res: Result<usize, IoError>)
    ensures
        old(st)@.write_step(final(st)@),
        res matches Ok(n) ==> n == src@.len(),
        F::transparent() ==> (res matches Err(e) ==> e is BufferFull),
        F::transparent() ==> (res.is_ok() <==> old(st)@.write.len() + src@.len()
            <= spec_max_len()),
        F::transparent() && res.is_ok() ==> final(st)@ == old(st)@.written(src@),
        F::transparent() ==> old(st)@.write.is_prefix_of(final(st)@.write),
        F::ruled() ==> (res matches Err(e) ==> e is BufferFull),
        F::ruled() ==> (res.is_ok() ==> exists|down: Seq<u8>|
            {
                &&& #[trigger] old(inner).carries_down(src@, *final(inner), down)
                &&& final(st)@ == old(st)@.written(down)
            }),
{
    let limit = max_len();
    let ghost st0 = st@;
    let staged = inner.get_write_buf(st);
    proof {
        if F::transparent() {
            assert(st0.write.len() == 0 ==> st0.write =~= Seq::<u8>::empty());
            assert(st0.write + Seq::<u8>::empty() =~= st0.write);
            assert(Seq::<u8>::empty() + src@ =~= src@);
        }
    }
    let mut buf = match staged {
        Some(mut b) => {
            if b.len() > limit || src.len() > limit - b.len() {
                let _ = inner.release_write_buf(st, b);
                return Err(IoError::BufferFull);
            }
            b.reserve(src.len());
            b
        },
        None => {
            if src.len() > limit {
                return Err(IoError::BufferFull);
            }
            pool.buf_with_capacity(src.len())
        },
    };
    buf.extend_from_slice(src);
    proof {
        if F::transparent() {
            assert(contents(&buf) =~= st0.write + src@);
        } else if F::ruled() {
            assert(contents(&buf) =~= src@);
        }
    }
    let res = inner.release_write_buf(st, buf);
    proof {
        if F::transparent() {
            old(inner).lemma_transparent_carries(src@);
            assert(res.is_ok() ==> old(inner).carries_down(src@, *inner, src@) && st@
                == st0.written(src@));
        }
    }
    match res {
        Ok(()) => Ok(src.len()),
        Err(e) => Err(e),
    }
}

/// The filter that puts a layer on the chain `inner`.
pub struct Layered<L, F> {
    /// The layer.
    pub layer: L,
    /// The chain under the layer.
    pub inner: F,
    /// The pool that the layer's buffers come from.
    pub pool: MemoryPool,
}

impl<L: Layer, F: Filter> Layered<L, F> {
    /// Puts `layer` on the head of a connection's chain.
    pub fn wrap(io: Io<F>, layer: L) -> (out: Io<Layered<L, F>>)
        ensures
            out.state == io.state,
            out.filter.layer == layer,
            out.filter.inner == io.filter,
            out.filter.pool == io.state@.pool,
    {
        let Io { state, filter } = io;
        let pool = state.pool;
        Io { state, filter: Layered { layer, inner: filter, pool } }
    }
}

impl<L: Layer, F: Filter> Filter for Layered<L, F> {
    open spec fn transparent() -> bool {
        false
    }

    /// The layer passes every question about readiness and shutdown down.
    open spec fn defers() -> bool {
        F::defers()
    }

    /// The layer goes by its rule, so the chain is ruled where the chain
    /// under it is.
    open spec fn ruled() -> bool {
        F::ruled()
    }

    /// Bytes from the transport come up through the chain below, and what
    /// comes out of it is decoded by the layer.
    open spec fn carries_up(&self, raw: Seq<u8>, after: Self, out: Seq<u8>) -> bool {
        exists|mid: Seq<u8>|
            {
                &&& #[trigger] self.inner.carries_up(raw, after.inner, mid)
                &&& L::spec_decode(self.layer@, mid) == (after.layer@, out)
                &&& after.pool == self.pool
            }
    }

    /// Bytes from the dispatcher are encoded by the layer, and what comes out
    /// of it goes down through the chain below.
    open spec fn carries_down(&self, plain: Seq<u8>, after: Self, out: Seq<u8>) -> bool {
        &&& after.layer@ == L::spec_encode(self.layer@, plain).0
        &&& self.inner.carries_down(L::spec_encode(self.layer@, plain).1, after.inner, out)
        &&& after.pool == self.pool
    }

    proof fn lemma_transparent_carries(&self, bytes: Seq<u8>) {
    }

    /// The layer knows no answer of its own.
    open spec fn may_answer(&self, key: QueryKey, r: Option<QueryValue>) -> bool {
        self.inner.may_answer(key, r)
    }

    /// Every question goes down the chain.
    fn query(&self, key: QueryKey) -> (r: Option<QueryValue>) {
        self.inner.query(key)
    }

    fn want_read(&mut self, st: &mut IoState) {
        self.inner.want_read(st)
    }

    fn want_shutdown(&mut self, st: &mut IoState, err: Option<IoError>) {
        self.inner.want_shutdown(st, err)
    }

    /// The layer has nothing of its own to shut down: the chain under it is
    /// asked, and the layer stays as it is. Over a transparent chain that is
    /// done at once and changes nothing.
    fn poll_shutdown(&mut self, st: &mut IoState) -> (res: Poll<Result<(), IoError>>)
        ensures
            final(self).layer == old(self).layer,
            final(self).pool == old(self).pool,
            F::transparent() || F::defers() ==> res == Poll::<Result<(), IoError>>::Ready(
                Ok(()),
            ) && final(st)@ == old(st)@,
    {
        self.inner.poll_shutdown(st)
    }

    fn poll_read_ready(&mut self, st: &mut IoState, waker: &Waker) -> (res: Poll<ReadStatus>) {
        self.inner.poll_read_ready(st, waker)
    }

    fn poll_write_ready(&mut self, st: &mut IoState, waker: &Waker) -> (res: Poll<
        WriteStatus,
    >) {
        self.inner.poll_write_ready(st, waker)
    }

    fn closed(&mut self, st: &mut IoState, err: Option<IoError>) {
        self.inner.closed(st, err)
    }

    /// The layer stages nothing: the read pump reads into a buffer of the
    /// pool.
    fn get_read_buf(&mut self, st: &mut IoState) -> (buf: Option<BytesMut>)
        ensures
            buf.is_none(),
            final(st)@ == old(st)@,
            *final(self) == *old(self),
    {
        None
    }

    /// The layer stages nothing: the dispatcher writes into a buffer of the
    /// pool.
    fn get_write_buf(&mut self, st: &mut IoState) -> (buf: Option<BytesMut>)
        ensures
            buf.is_none(),
            final(st)@ == old(st)@,
            *final(self) == *old(self),
    {
        None
    }

    /// Passes `src` through the chain below, decodes what comes out and puts
    /// the result behind the bytes of `dst`. The answer is the number of
    /// bytes put there. Over a transparent chain that is all there is to it,
    /// unless `dst` would grow beyond what a buffer can hold.
    fn release_read_buf(
        &mut self,
        src: BytesMut,
        dst: &mut Option<BytesMut>,
        nbytes: usize,
    ) -> (res: Result<usize, IoError>)
        ensures
            final(self).pool == old(self).pool,
            res is Err ==> *final(dst) == *old(dst),
            F::transparent() ==> (res matches Err(e) ==> e is BufferFull),
            F::transparent() ==> (res.is_ok() <==> bytes_of(*old(dst)).len() + L::spec_decode(
                old(self).layer@,
                contents(&src),
            ).1.len() <= spec_max_len()),
            F::transparent() && res.is_ok() ==> {
                let (next, out) = L::spec_decode(old(self).layer@, contents(&src));
                &&& res == Ok::<usize, IoError>(out.len() as usize)
                &&& bytes_of(*final(dst)) == bytes_of(*old(dst)) + out
                &&& final(self).layer@ == next
            },
    {
        let ghost given = contents(&src);
        let mut below: Option<BytesMut> = None;
        let answer = self.inner.release_read_buf(src, &mut below, nbytes);
        proof {
            if answer.is_ok() {
                if F::transparent() {
                    old(self).inner.lemma_transparent_carries(given);
                } else if F::ruled() {
                    let mid = choose|mid: Seq<u8>|
                        {
                            &&& #[trigger] old(self).inner.carries_up(given, self.inner, mid)
                            &&& bytes_of(below) == bytes_of(None::<BytesMut>) + mid
                            &&& answer.unwrap() == mid.len()
                        };
                    assert(bytes_of(below) =~= mid);
                }
                assert(F::ruled() ==> old(self).inner.carries_up(
                    given,
                    self.inner,
                    bytes_of(below),
                ));
            }
        }
        match answer {
            Ok(_) => {},
            Err(e) => {
                return Err(e);
            },
        }
        let ghost came = bytes_of(below);
        let raw = match below {
            Some(b) => b,
            None => {
                proof {
                    if F::transparent() {
                        assert(contents(&src) =~= Seq::<u8>::empty());
                    }
                }
                BytesMut::new()
            },
        };
        let mut out: Vec<u8> = Vec::new();
        self.layer.decode(as_slice(&raw), &mut out);
        proof {
            assert(out@ =~= L::spec_decode(old(self).layer@, contents(&raw)).1);
            if F::ruled() {
                assert(contents(&raw) =~= came);
                let made = L::spec_decode(old(self).layer@, came);
                assert(made.0 == self.layer@ && made.1 == out@);
                assert(made == (self.layer@, out@));
                assert(old(self).inner.carries_up(given, self.inner, came));
                assert(old(self).carries_up(given, *self, out@));
            }
        }
        let limit = max_len();
        let had = dst.is_some();
        let mut buf = match dst.take() {
            Some(b) => b,
            None => self.pool.get_read_buf(),
        };
        if buf.len() > limit || out.len() > limit - buf.len() {
            if had {
                *dst = Some(buf);
            } else {
                self.pool.release_read_buf(buf);
            }
            return Err(IoError::BufferFull);
        }
        buf.extend_from_slice(out.as_slice());
        *dst = Some(buf);
        Ok(out.len())
    }

    /// Encodes `buf` and passes the result down the chain. Over a transparent
    /// chain the encoded bytes go behind those that wait to be written.
    fn release_write_buf(&mut self, st: &mut IoState, buf: BytesMut) -> (res: Result<
        (),
        IoError,
    >)
        ensures
            final(self).pool == old(self).pool,
            final(self).layer@ == L::spec_encode(old(self).layer@, contents(&buf)).0,
            F::transparent() ==> (res matches Err(e) ==> e is BufferFull),
            final(self).layer@ == L::spec_encode(old(self).layer@, contents(&buf)).0,
            F::transparent() && res.is_ok() ==> final(st)@ == old(st)@.written(
                L::spec_encode(old(self).layer@, contents(&buf)).1,
            ),
    {
        let mut out: Vec<u8> = Vec::new();
        self.layer.encode(as_slice(&buf), &mut out);
        proof {
            assert(out@ =~= L::spec_encode(old(self).layer@, contents(&buf)).1);
        }
        let ghost given = contents(&buf);
        self.pool.release_write_buf(buf);
        let passed = write_through(&mut self.inner, &self.pool, st, out.as_slice());
        proof {
            if F::ruled() && passed.is_ok() {
                let down = choose|down: Seq<u8>|
                    {
                        &&& #[trigger] old(self).inner.carries_down(out@, self.inner, down)
                        &&& st@ == old(st)@.written(down)
                    };
                assert(old(self).carries_down(given, *self, down));
            }
        }
        match passed {
            Ok(_) => Ok(()),
            Err(e) => Err(e),
        }
    }
}

/// Two layers stacked on a chain, one filter on the other, hold the same as
/// their composition as one filter on that chain: the same two layer states,
/// over the same chain.
pub open spec fn stacked_as_composed<A: Layer, B: Layer, F: Filter>(
    stacked: Layered<A, Layered<B, F>>,
    composed: Layered<Compose<A, B>, F>,
) -> bool {
    &&& composed.layer@ == (stacked.layer@, stacked.inner.layer@)
    &&& composed.inner == stacked.inner.inner
    &&& stacked.inner.pool == stacked.pool
    &&& composed.pool == stacked.pool
}

/// Stacking filters is composing layers: two layers stacked on any chain
/// carry bytes, up and down, exactly as their composition does as one filter
/// on that chain. So however the layers of a chain are grouped into filters,
/// the chain makes the same bytes of the same input from end to end, and
/// by [`lemma_compose_associative`] the grouping of three or more does not
/// matter either.
pub proof fn lemma_stacked_is_composed<A: Layer, B: Layer, F: Filter>(
    stacked: Layered<A, Layered<B, F>>,
    composed: Layered<Compose<A, B>, F>,
    stacked_after: Layered<A, Layered<B, F>>,
    composed_after: Layered<Compose<A, B>, F>,
    bytes: Seq<u8>,
    out: Seq<u8>,
)
    requires
        stacked_as_composed(stacked, composed),
        stacked_as_composed(stacked_after, composed_after),
        stacked_after.pool == stacked.pool,
    ensures
        stacked.carries_up(bytes, stacked_after, out) == composed.carries_up(
            bytes,
            composed_after,
            out,
        ),
        stacked.carries_down(bytes, stacked_after, out) == composed.carries_down(
            bytes,
            composed_after,
            out,
        ),
        forall|key: QueryKey, r: Option<QueryValue>|
            stacked.may_answer(key, r) == #[trigger] composed.may_answer(key, r),
        Layered::<A, Layered<B, F>>::ruled() == Layered::<Compose<A, B>, F>::ruled(),
        Layered::<A, Layered<B, F>>::defers() == Layered::<Compose<A, B>, F>::defers(),
{
    let a = stacked.layer@;
    let b = stacked.inner.layer@;
    if stacked.carries_up(bytes, stacked_after, out) {
        let mid1 = choose|mid1: Seq<u8>|
            {
                &&& #[trigger] stacked.inner.carries_up(bytes, stacked_after.inner, mid1)
                &&& A::spec_decode(a, mid1) == (stacked_after.layer@, out)
                &&& stacked_after.pool == stacked.pool
            };
        let mid0 = choose|mid0: Seq<u8>|
            {
                &&& #[trigger] stacked.inner.inner.carries_up(
                    bytes,
                    stacked_after.inner.inner,
                    mid0,
                )
                &&& B::spec_decode(b, mid0) == (stacked_after.inner.layer@, mid1)
                &&& stacked_after.inner.pool == stacked.inner.pool
            };
        assert(composed.inner.carries_up(bytes, composed_after.inner, mid0));
        assert(Compose::<A, B>::spec_decode(composed.layer@, mid0) == (composed_after.layer@, out));
        assert(composed.carries_up(bytes, composed_after, out));
    }
    if composed.carries_up(bytes, composed_after, out) {
        let mid0 = choose|mid0: Seq<u8>|
            {
                &&& #[trigger] composed.inner.carries_up(bytes, composed_after.inner, mid0)
                &&& Compose::<A, B>::spec_decode(composed.layer@, mid0) == (
                    composed_after.layer@,
                    out,
                )
                &&& composed_after.pool == composed.pool
            };
        let mid1 = B::spec_decode(b, mid0).1;
        assert(stacked.inner.inner.carries_up(bytes, stacked_after.inner.inner, mid0));
        assert(B::spec_decode(b, mid0) == (stacked_after.inner.layer@, mid1));
        assert(stacked.inner.carries_up(bytes, stacked_after.inner, mid1));
        assert(A::spec_decode(a, mid1) == (stacked_after.layer@, out));
        assert(stacked.carries_up(bytes, stacked_after, out));
    }
}

} // verus!
