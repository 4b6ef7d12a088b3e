//! Watermarks and buffers of a connection's memory pool.
//!
//! The pool itself is `ntex_bytes::PoolRef`. A [`MemoryPool`] keeps the handle
//! together with the watermarks that the pool had when the handle was taken:
//! every threshold of the connection is stated over these.

use crate::buf::{contents, spec_max_len};
use ntex_bytes::{BytesMut, PoolRef};
use vstd::prelude::*;

verus! {

/// `ntex_bytes::PoolRef`: a handle on one of the thread's memory pools, of
/// which nothing is seen here.
#[verifier::external_type_specification]
#[verifier::external_body]
pub struct ExPoolRef(PoolRef);

/// High and low watermark of one direction, in bytes.
#[derive(Copy, Clone, Debug, PartialEq, Eq, Structural)]
pub struct BufParams {
    pub high: u32,
    pub low: u32,
}

impl BufParams {
    /// The low watermark lies under the high one.
    pub open spec fn wf(self) -> bool {
        self.low < self.high
    }

    /// High and low watermark as lengths.
    pub fn unpack(self) -> (r: (usize, usize))
        ensures
            r.0 == self.high,
            r.1 == self.low,
    {
        (self.high as usize, self.low as usize)
    }
}

/// `PoolRef::read_params`. A pool is made with 1024 under 4096, and
/// `set_read_params` asserts that the low watermark is under the high one.
#[verifier::external_body]
fn pool_read_params(pool: PoolRef) -> (p: BufParams)
    ensures
        p.wf(),
{
    let p = pool.read_params();
    BufParams { high: p.high, low: p.low }
}

/// `PoolRef::write_params`. A pool is made with 1024 under 4096, and
/// `set_write_params` asserts that the low watermark is under the high one.
#[verifier::external_body]
fn pool_write_params(pool: PoolRef) -> (p: BufParams)
    ensures
        p.wf(),
{
    let p = pool.write_params();
    BufParams { high: p.high, low: p.low }
}

/// `PoolRef::get_read_buf`: a cached buffer, which was cleared when it was
/// released, or a new one; empty either way.
#[verifier::external_body]
fn pool_get_read_buf(pool: PoolRef) -> (buf: BytesMut)
    ensures
        contents(&buf) == Seq::<u8>::empty(),
{
    pool.get_read_buf()
}

/// `PoolRef::get_write_buf`: a cached buffer, which was cleared when it was
/// released, or a new one; empty either way.
#[verifier::external_body]
fn pool_get_write_buf(pool: PoolRef) -> (buf: BytesMut)
    ensures
        contents(&buf) == Seq::<u8>::empty(),
{
    pool.get_write_buf()
}

/// `PoolRef::buf_with_capacity`: a new, empty buffer with room for `cap`
/// bytes, which the method allocates behind a small header.
#[verifier::external_body]
fn pool_buf_with_capacity(pool: PoolRef, cap: usize) -> (buf: BytesMut)
    requires
        cap <= spec_max_len(),
    ensures
        contents(&buf) == Seq::<u8>::empty(),
{
    pool.buf_with_capacity(cap)
}

/// `PoolRef::release_read_buf`: the pool caches the buffer or drops it.
#[verifier::external_body]
fn pool_release_read_buf(pool: PoolRef, buf: BytesMut) {
    pool.release_read_buf(buf)
}

/// `PoolRef::release_write_buf`: the pool caches the buffer or drops it.
#[verifier::external_body]
fn pool_release_write_buf(pool: PoolRef, buf: BytesMut) {
    pool.release_write_buf(buf)
}

/// A pool handle and the watermarks taken from it.
#[derive(Copy, Clone)]
pub struct MemoryPool {
    handle: PoolRef,
    read: BufParams,
    write: BufParams,
}

impl MemoryPool {
    #[verifier::type_invariant]
    spec fn ordered(self) -> bool {
        self.read.wf() && self.write.wf()
    }

    /// Both pairs of watermarks are ordered. Every pool that executable code
    /// holds is so.
    pub open spec fn wf(self) -> bool {
        self.read_params().wf() && self.write_params().wf()
    }

    /// The read watermarks.
    pub closed spec fn read_params(self) -> BufParams {
        self.read
    }

    /// The write watermarks.
    pub closed spec fn write_params(self) -> BufParams {
        self.write
    }

    /// The handle on the pool that the buffers come from and go back to.
    pub closed spec fn spec_pool_ref(self) -> PoolRef {
        self.handle
    }

    /// The read high watermark.
    pub open spec fn read_hw(self) -> int {
        self.read_params().high as int
    }

    /// The write high watermark.
    pub open spec fn write_hw(self) -> int {
        self.write_params().high as int
    }

    /// Keeps `handle`, and takes the watermarks that its pool has now.
    pub fn new(handle: PoolRef) -> (r: MemoryPool)
        ensures
            r.wf(),
            r.spec_pool_ref() == handle,
    {
        MemoryPool { handle, read: pool_read_params(handle), write: pool_write_params(handle) }
    }

    /// The handle that the pool was made with.
    pub fn pool_ref(&self) -> (handle: PoolRef)
        ensures
            handle == self.spec_pool_ref(),
    {
        self.handle
    }

    /// The read watermarks.
    pub fn read(&self) -> (p: BufParams)
        ensures
            p == self.read_params(),
            self.wf(),
    {
        proof {
            use_type_invariant(self);
        }
        self.read
    }

    /// The write watermarks.
    pub fn write(&self) -> (p: BufParams)
        ensures
            p == self.write_params(),
            self.wf(),
    {
        proof {
            use_type_invariant(self);
        }
        self.write
    }

    /// The write high watermark as a length.
    pub fn write_params_high(&self) -> (h: usize)
        ensures
            h == self.write_hw(),
    {
        self.write.high as usize
    }

    /// An empty buffer for the read side.
    pub fn get_read_buf(&self) -> (buf: BytesMut)
        ensures
            contents(&buf) == Seq::<u8>::empty(),
    {
        pool_get_read_buf(self.handle)
    }

    /// An empty buffer for the write side.
    pub fn get_write_buf(&self) -> (buf: BytesMut)
        ensures
            contents(&buf) == Seq::<u8>::empty(),
    {
        pool_get_write_buf(self.handle)
    }

    /// A new, empty buffer of the pool with room for `cap` bytes.
    pub fn buf_with_capacity(&self, cap: usize) -> (buf: BytesMut)
        requires
            cap <= spec_max_len(),
        ensures
            contents(&buf) == Seq::<u8>::empty(),
    {
        pool_buf_with_capacity(self.handle, cap)
    }

    /// Hands a read buffer back to the pool.
    pub fn release_read_buf(&self, buf: BytesMut) {
        pool_release_read_buf(self.handle, buf)
    }

    /// Hands a write buffer back to the pool.
    pub fn release_write_buf(&self, buf: BytesMut) {
        pool_release_write_buf(self.handle, buf)
    }
}

} // verus!
