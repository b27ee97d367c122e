//! The buffer that an answer packet is built in: a `heapless::Vec` of
//! capacity `ANSWER_CAPACITY`, so that building a packet needs no heap.
//! `answer_contents` is the sequence of bytes that it holds.
use vstd::prelude::*;

verus! {

/// Capacity of an answer packet buffer.
pub const ANSWER_CAPACITY: usize = 13;

/// A byte buffer of capacity `ANSWER_CAPACITY`.
#[verifier::external_body]
pub struct AnswerPacket {
    inner: heapless::Vec<u8, 13>,
}

/// The bytes that an `AnswerPacket` holds, in order.
pub uninterp spec fn answer_contents(p: AnswerPacket) -> Seq<u8>;

/// `heapless::Vec::new`: an empty vector.
#[verifier::external_body]
pub(crate) fn answer_new() -> (p: AnswerPacket)
    ensures
        answer_contents(p) == Seq::<u8>::empty(),
{
    AnswerPacket { inner: heapless::Vec::new() }
}

/// `heapless::Vec::push`: appends `b` when fewer than `ANSWER_CAPACITY` bytes
/// are held, and otherwise hands `b` back and leaves the vector unchanged.
#[verifier::external_body]
pub(crate) fn answer_push(p: &mut AnswerPacket, b: u8) -> (r: Result<(), u8>)
    ensures
        answer_contents(*old(p)).len() < ANSWER_CAPACITY ==> r is Ok && answer_contents(*final(p))
            == answer_contents(*old(p)).push(b),
        answer_contents(*old(p)).len() >= ANSWER_CAPACITY ==> r is Err && r->Err_0 == b
            && answer_contents(*final(p)) == answer_contents(*old(p)),
{
    p.inner.push(b)
}

/// `heapless::Vec::extend_from_slice`: appends all of `s` when it fits in the
/// remaining capacity, and otherwise fails and leaves the vector unchanged.
#[verifier::external_body]
pub(crate) fn answer_extend_from_slice(p: &mut AnswerPacket, s: &[u8]) -> (r: Result<(), ()>)
    ensures
        answer_contents(*old(p)).len() + s@.len() <= ANSWER_CAPACITY ==> r is Ok
            && answer_contents(*final(p)) == answer_contents(*old(p)) + s@,
        answer_contents(*old(p)).len() + s@.len() > ANSWER_CAPACITY ==> r is Err
            && answer_contents(*final(p)) == answer_contents(*old(p)),
{
    p.inner.extend_from_slice(s).map_err(|_| ())
}

/// `heapless::Vec::as_slice`: the bytes held.
#[verifier::external_body]
pub(crate) fn answer_as_slice(p: &AnswerPacket) -> (r: &[u8])
    ensures
        r@ == answer_contents(*p),
{
    p.inner.as_slice()
}

impl AnswerPacket {
    /// The bytes of the packet.
    pub fn as_slice(&self) -> (r: &[u8])
        ensures
            r@ == answer_contents(*self),
    {
        answer_as_slice(self)
    }
}

} // verus!
