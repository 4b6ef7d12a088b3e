//! The byte buffer of the connection: `ntex_bytes::BytesMut`, seen by the
//! verifier as a sequence of bytes.
//!
//! The contracts on the buffer's own methods are not proved. Each restates
//! what the buffer's source shows of one method, over the one name
//! [`contents`].

use ntex_bytes::{Buf, BufMut, BytesMut};
use vstd::prelude::*;

verus! {

/// `ntex_bytes::BytesMut`: a growable buffer of bytes, seen only through
/// [`contents`].
#[verifier::external_type_specification]
#[verifier::external_body]
pub struct ExBytesMut(BytesMut);

/// The bytes that a buffer holds, first to last: what its `Deref` to `[u8]`
/// shows.
pub uninterp spec fn contents(buf: &BytesMut) -> Seq<u8>;

/// The largest length to which a buffer may be grown here. The buffer stores
/// its bytes behind a small header in one allocation, and no allocation is
/// larger than `isize::MAX` bytes.
pub open spec fn spec_max_len() -> int {
    isize::MAX - 64
}

/// `BytesMut::len`: the number of bytes held.
pub assume_specification[ BytesMut::len ](buf: &BytesMut) -> (n: usize)
    ensures
        n == contents(buf).len(),
;

/// `BytesMut::is_empty`: whether no byte is held.
pub assume_specification[ BytesMut::is_empty ](buf: &BytesMut) -> (b: bool)
    ensures
        b == (contents(buf).len() == 0),
;

/// `BytesMut::new`: a buffer that holds nothing.
pub assume_specification[ BytesMut::new ]() -> (buf: BytesMut)
    ensures
        contents(&buf) == Seq::<u8>::empty(),
;

/// `BytesMut::clear`: truncates to length zero.
pub assume_specification[ BytesMut::clear ](buf: &mut BytesMut)
    ensures
        contents(final(buf)) == Seq::<u8>::empty(),
;

/// `BytesMut::split_to`: the first `at` bytes leave as a buffer of their
/// own, the rest stay. The method asserts `at <= len`.
pub assume_specification[ BytesMut::split_to ](buf: &mut BytesMut, at: usize) -> (head: BytesMut)
    requires
        at <= contents(old(buf)).len(),
    ensures
        contents(&head) == contents(old(buf)).take(at as int),
        contents(final(buf)) == contents(old(buf)).skip(at as int),
;

/// `BytesMut::reserve`: room for `additional` more bytes; the bytes held do
/// not change. The method adds `additional` to the length and may allocate
/// that much.
pub assume_specification[ BytesMut::reserve ](buf: &mut BytesMut, additional: usize)
    requires
        contents(old(buf)).len() + additional <= spec_max_len(),
    ensures
        contents(final(buf)) == contents(old(buf)),
;

/// `BytesMut::extend_from_slice`: reserves, then copies `extend` behind the
/// bytes held.
pub assume_specification[ BytesMut::extend_from_slice ](buf: &mut BytesMut, extend: &[u8])
    requires
        contents(old(buf)).len() + extend@.len() <= spec_max_len(),
    ensures
        contents(final(buf)) == contents(old(buf)) + extend@,
;

/// `Buf::advance` on a `BytesMut`: drops the first `cnt` bytes. The method
/// asserts `cnt <= len`.
#[verifier::external_body]
pub(crate) fn advance(buf: &mut BytesMut, cnt: usize)
    requires
        cnt <= contents(old(buf)).len(),
    ensures
        contents(final(buf)) == contents(old(buf)).skip(cnt as int),
{
    buf.advance(cnt)
}

/// `BufMut::remaining_mut` on a `BytesMut`: capacity minus length, which is
/// what the allocator gave and so is not stated.
#[verifier::external_body]
pub(crate) fn remaining_mut(buf: &BytesMut) -> usize {
    buf.remaining_mut()
}

/// `Deref` of a `BytesMut`: the bytes held, as a slice.
#[verifier::external_body]
pub(crate) fn as_slice(buf: &BytesMut) -> (s: &[u8])
    ensures
        s@ == contents(buf),
{
    &buf[..]
}

/// The largest length to which a buffer may be grown here.
pub fn max_len() -> (n: usize)
    ensures
        n == spec_max_len(),
{
    (isize::MAX as usize) - 64
}

/// Makes room for `additional` more bytes where the grown buffer stays within
/// [`spec_max_len`], and leaves the buffer as it is where it would not. The
/// bytes held never change.
pub fn reserve_within(buf: &mut BytesMut, additional: usize)
    ensures
        contents(final(buf)) == contents(old(buf)),
{
    let limit = max_len();
    let len = buf.len();
    if len <= limit && additional <= limit - len {
        buf.reserve(additional);
    }
}

} // verus!
