//! The fixed-capacity byte buffer that carries an encoded safety status:
//! `heapless::Vec<u8, 32>`, with the contracts of the calls the encoder makes.
use vstd::prelude::*;

verus! {

/// Capacity of the status buffer.
pub const STATUS_BUFFER_CAPACITY: usize = 32;

#[verifier::external_type_specification]
#[verifier::external_body]
#[verifier::reject_recursive_types(T)]
pub struct ExHeaplessVec<T, const N: usize>(heapless::Vec<T, N>);

/// The bytes held by a status buffer, in order.
pub uninterp spec fn status_buffer_contents(buffer: heapless::Vec<u8, 32>) -> Seq<u8>;

/// Calls `heapless::Vec::new`, which builds a vector of length zero: the
/// buffer holds no bytes.
#[verifier::external_body]
pub(crate) fn new_status_buffer() -> (buffer: heapless::Vec<u8, 32>)
    ensures
        status_buffer_contents(buffer) == Seq::<u8>::empty(),
{
    heapless::Vec::new()
}

/// Calls `heapless::Vec::extend_from_slice`, which appends every byte of
/// `bytes` in order and returns `Ok` when they fit in the 32-byte capacity,
/// and otherwise leaves the buffer unchanged and returns `Err`.
#[verifier::external_body]
pub(crate) fn extend_status_buffer(buffer: &mut heapless::Vec<u8, 32>, bytes: &[u8]) -> (result:
    Result<(), ()>)
    ensures
        status_buffer_contents(*old(buffer)).len() + bytes@.len() <= STATUS_BUFFER_CAPACITY
            ==> result is Ok && status_buffer_contents(*final(buffer)) == status_buffer_contents(
            *old(buffer),
        ) + bytes@,
        status_buffer_contents(*old(buffer)).len() + bytes@.len() > STATUS_BUFFER_CAPACITY
            ==> result is Err && status_buffer_contents(*final(buffer)) == status_buffer_contents(
            *old(buffer),
        ),
{
    buffer.extend_from_slice(bytes)
}

} // verus!
