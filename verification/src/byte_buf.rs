//! A byte buffer of fixed capacity, backed by `heapless::Vec`.
use vstd::prelude::*;

verus! {

/// A `heapless::Vec<u8, N>` whose capacity `N` was chosen when it was made.
///
/// Verus cannot declare `heapless::Vec` (its storage parameter lives in a private module),
/// so the collection is held in a private field and described by [`buf_contents`] and
/// [`buf_capacity`].
#[verifier::external_body]
pub struct ByteBuf {
    inner: Box<heapless::vec::VecView<u8>>,
}

/// The bytes that a buffer holds, in order.
pub uninterp spec fn buf_contents(buf: ByteBuf) -> Seq<u8>;

/// The number of bytes that a buffer was made to hold.
pub uninterp spec fn buf_capacity(buf: ByteBuf) -> nat;

/// `heapless::Vec::<u8, N>::new`: an empty vector of capacity `N`.
#[verifier::external_body]
fn heapless_new<const N: usize>() -> (buf: ByteBuf)
    ensures
        buf_contents(buf) == Seq::<u8>::empty(),
        buf_capacity(buf) == N,
{
    ByteBuf { inner: Box::new(heapless::Vec::<u8, N>::new()) }
}

/// `heapless::VecInner::extend_from_slice`: appends every byte, or nothing at all when the
/// bytes would exceed the capacity; the result says which.
#[verifier::external_body]
fn heapless_extend_from_slice(buf: &mut ByteBuf, bytes: &[u8]) -> (appended: bool)
    ensures
        buf_capacity(*final(buf)) == buf_capacity(*old(buf)),
        appended == (buf_contents(*old(buf)).len() + bytes@.len() <= buf_capacity(*old(buf))),
        buf_contents(*final(buf)) == if appended {
            buf_contents(*old(buf)) + bytes@
        } else {
            buf_contents(*old(buf))
        },
{
    buf.inner.extend_from_slice(bytes).is_ok()
}

/// `heapless::VecInner::as_slice`: the contents as one slice.
#[verifier::external_body]
fn heapless_as_slice(buf: &ByteBuf) -> (bytes: &[u8])
    ensures
        bytes@ == buf_contents(*buf),
{
    buf.inner.as_slice()
}

/// `heapless::VecInner::clear`: drops the contents and keeps the capacity.
#[verifier::external_body]
fn heapless_clear(buf: &mut ByteBuf)
    ensures
        buf_contents(*final(buf)) == Seq::<u8>::empty(),
        buf_capacity(*final(buf)) == buf_capacity(*old(buf)),
{
    buf.inner.clear()
}

impl View for ByteBuf {
    type V = Seq<u8>;

    open spec fn view(&self) -> Seq<u8> {
        buf_contents(*self)
    }
}

impl ByteBuf {
    /// The fixed capacity of the buffer.
    pub open spec fn cap(&self) -> nat {
        buf_capacity(*self)
    }

    /// An empty buffer of capacity `N`.
    pub fn new<const N: usize>() -> (buf: ByteBuf)
        ensures
            buf@ == Seq::<u8>::empty(),
            buf.cap() == N,
    {
        heapless_new::<N>()
    }

    /// Appends all of `bytes` and returns `true`; returns `false` and changes nothing when they
    /// do not fit.
    pub fn extend_from_slice(&mut self, bytes: &[u8]) -> (appended: bool)
        ensures
            final(self).cap() == old(self).cap(),
            appended == (old(self)@.len() + bytes@.len() <= old(self).cap()),
            final(self)@ == if appended { old(self)@ + bytes@ } else { old(self)@ },
    {
        heapless_extend_from_slice(self, bytes)
    }

    /// The contents as a slice.
    pub fn as_slice(&self) -> (bytes: &[u8])
        ensures
            bytes@ == self@,
    {
        heapless_as_slice(self)
    }

    /// The number of bytes held.
    pub fn len(&self) -> (n: usize)
        ensures
            n == self@.len(),
    {
        self.as_slice().len()
    }

    /// Whether the buffer holds nothing.
    pub fn is_empty(&self) -> (b: bool)
        ensures
            b == (self@.len() == 0),
    {
        self.len() == 0
    }

    /// Empties the buffer.
    pub fn clear(&mut self)
        ensures
            final(self)@ == Seq::<u8>::empty(),
            final(self).cap() == old(self).cap(),
    {
        heapless_clear(self)
    }

    /// A buffer of capacity `N` that holds `bytes`, or `None` when they do not fit.
    pub fn from_slice<const N: usize>(bytes: &[u8]) -> (r: Option<ByteBuf>)
        ensures
            r is Some <==> bytes@.len() <= N,
            r matches Some(buf) ==> buf@ == bytes@ && buf.cap() == N,
    {
        let mut buf = ByteBuf::new::<N>();
        if buf.extend_from_slice(bytes) {
            proof {
                assert(buf@ =~= bytes@);
            }
            Some(buf)
        } else {
            None
        }
    }
}

} // verus!
