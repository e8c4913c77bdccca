//! The transfer buffer: a fixed-capacity single-producer single-consumer ring
//! of raw samples, split into the half that the capture callback owns and the
//! half that the analysis engine owns.

use vstd::prelude::*;

verus! {

/// Number of samples the transfer buffer can hold.
pub const TRANSFER_CAPACITY: usize = 8192;

/// A ring buffer for `N` samples that has not been split yet.
///
/// Holds a `ringbuf::HeapRb` made for `N` items; what is inside is opaque to
/// every proof.
#[verifier::external_body]
#[verifier::reject_recursive_types(T)]
struct Ring<T, const N: usize> {
    ring: ringbuf::HeapRb<T>,
}

/// The writing half of a transfer buffer for `N` samples, owned by the
/// capture callback.
///
/// Holds the `ringbuf::HeapProd` of a ring made for `N` items. The other half
/// empties the buffer from another thread at any moment, so no contract speaks
/// of how much room is left.
#[verifier::external_body]
#[verifier::reject_recursive_types(T)]
pub struct Producer<T, const N: usize> {
    half: ringbuf::HeapProd<T>,
}

/// The reading half of a transfer buffer for `N` samples, owned by the
/// analysis engine.
///
/// Holds the `ringbuf::HeapCons` of a ring made for `N` items. The other half
/// fills the buffer from another thread at any moment, so no contract speaks
/// of what is waiting in it.
#[verifier::external_body]
#[verifier::reject_recursive_types(T)]
pub struct Consumer<T, const N: usize> {
    half: ringbuf::HeapCons<T>,
}

/// `ringbuf::HeapRb::new`: allocates an empty ring for `N` items.
/// The call panics on a capacity of zero, which the precondition rules out,
/// and otherwise only when the allocation fails.
#[verifier::external_body]
fn new_ring<T, const N: usize>() -> (ring: Ring<T, N>)
    requires
        N > 0,
{
    Ring { ring: ringbuf::HeapRb::new(N) }
}

/// `ringbuf::traits::Split::split` on a `HeapRb`: consumes the ring and returns
/// its two halves.
#[verifier::external_body]
fn split_ring<T, const N: usize>(ring: Ring<T, N>) -> (halves: (Producer<T, N>, Consumer<T, N>)) {
    let (prod, cons) = ringbuf::traits::Split::split(ring.ring);
    (Producer { half: prod }, Consumer { half: cons })
}

/// `ringbuf::traits::Producer::push_slice` on a `HeapProd`: copies as many
/// items from the front of `samples` as there is room for, never waiting, and
/// returns how many it took. The count exceeds neither the length of the
/// slice nor the number of items that the ring was made for.
#[verifier::external_body]
fn push_slice<T: Copy, const N: usize>(prod: &mut Producer<T, N>, samples: &[T]) -> (accepted: usize)
    ensures
        accepted <= samples@.len(),
        accepted <= N,
{
    ringbuf::traits::Producer::push_slice(&mut prod.half, samples)
}

/// `ringbuf::traits::Consumer::try_pop` on a `HeapCons`: removes the oldest
/// item if the buffer holds one, never waiting. Whether it does depends on the
/// producer's thread, so nothing is claimed of the result.
#[verifier::external_body]
pub(crate) fn try_pop<T, const N: usize>(cons: &mut Consumer<T, N>) -> (sample: Option<T>) {
    ringbuf::traits::Consumer::try_pop(&mut cons.half)
}

/// Creates a transfer buffer for `TRANSFER_CAPACITY` samples and splits it.
pub fn transfer_buffer<T>() -> (halves: (
    Producer<T, TRANSFER_CAPACITY>,
    Consumer<T, TRANSFER_CAPACITY>,
)) {
    split_ring(new_ring())
}

/// The capture callback's work: offers freshly captured samples to the
/// transfer buffer, without waiting and without allocating. What is already
/// in the buffer stays; of `data`, the samples at the front are taken as far
/// as there is room, and the rest is dropped. The caller learns how many were
/// taken and is free to ignore it.
pub fn capture<T: Copy, const N: usize>(prod: &mut Producer<T, N>, data: &[T]) -> (accepted:
    usize)
    ensures
        accepted <= data@.len(),
        accepted <= N,
{
    push_slice(prod, data)
}

} // verus!
