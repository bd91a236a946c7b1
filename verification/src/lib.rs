//! Advancing a borrowed byte-slice view by a given number of bytes.
//!
//! A [`ByteView`] is a non-owning window over a contiguous range of bytes in
//! an externally owned buffer, of the kind used to track progress through a
//! buffer during vectored (scatter/gather) I/O. The [`advance`] function
//! shrinks such a view from the front, so that its first `n` bytes are no
//! longer visible, without copying or mutating the underlying bytes.

use vstd::prelude::*;
use vstd::slice::slice_subrange;

verus! {

/// A non-owning, read-only view over a contiguous range of bytes belonging
/// to an externally owned buffer. Its visible range is always a sub-range of
/// that buffer, and narrowing it never moves or copies the bytes themselves.
#[derive(Clone, Copy)]
pub struct ByteView<'a> {
    bytes: &'a [u8],
}

impl<'a> View for ByteView<'a> {
    type V = Seq<u8>;

    closed spec fn view(&self) -> Seq<u8> {
        self.bytes@
    }
}

/// What remains of the byte sequence `s` once its first `n` bytes have been
/// consumed: the bytes of `s` at offsets `[n, s.len())`, in order.
pub open spec fn advanced(s: Seq<u8>, n: int) -> Seq<u8>
    recommends
        0 <= n <= s.len(),
{
    s.subrange(n, s.len() as int)
}

impl<'a> ByteView<'a> {
    /// Wraps a borrowed byte slice as a view over its whole range.
    pub fn new(bytes: &'a [u8]) -> (v: ByteView<'a>)
        ensures
            v@ == bytes@,
    {
        ByteView { bytes }
    }

    /// The bytes currently visible through the view, as a slice borrowed
    /// from the same underlying buffer.
    pub fn as_bytes(self) -> (r: &'a [u8])
        ensures
            r@ == self@,
    {
        self.bytes
    }

    /// How many bytes are currently visible through the view.
    pub fn len(&self) -> (n: usize)
        ensures
            n == self@.len(),
    {
        self.bytes.len()
    }
}

/// Advances the given view by `n` bytes: the view is replaced, in place, by
/// the view over the same underlying memory that starts `n` bytes later and
/// ends where the original ended. The bytes themselves are untouched.
///
/// Advancing by `0` leaves the view unchanged; advancing by its full length
/// yields a valid zero-length view. Advancing past the end of the view is a
/// caller bug, which the precondition rules out.
pub fn advance<'a>(view: &mut ByteView<'a>, n: usize)
    requires
        n <= old(view)@.len(),
    ensures
        final(view)@ == advanced(old(view)@, n as int),
        final(view)@.len() == old(view)@.len() - n,
        forall|i: int| 0 <= i < final(view)@.len() ==> final(view)@[i] == old(view)@[n + i],
{
    let bytes: &'a [u8] = view.bytes;
    view.bytes = slice_subrange(bytes, n, bytes.len());
}

/// Advancing by zero consumes nothing: the remaining bytes are the whole
/// sequence, unchanged.
pub proof fn lemma_advanced_zero(s: Seq<u8>)
    ensures
        advanced(s, 0) == s,
{
    assert(advanced(s, 0) =~= s);
}

/// Advancing by the full length consumes everything: no bytes remain.
pub proof fn lemma_advanced_full(s: Seq<u8>)
    ensures
        advanced(s, s.len() as int).len() == 0,
{
}

/// Two advances compose: consuming `a` bytes and then `b` bytes leaves
/// exactly what one advance by `a + b` bytes leaves.
pub proof fn lemma_advanced_advanced(s: Seq<u8>, a: int, b: int)
    requires
        0 <= a,
        0 <= b,
        a + b <= s.len(),
    ensures
        advanced(advanced(s, a), b) == advanced(s, a + b),
{
    assert(advanced(advanced(s, a), b) =~= advanced(s, a + b));
}

} // verus!
