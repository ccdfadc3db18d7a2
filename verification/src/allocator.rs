//! What the kernel heap has left.
use alloc_cortex_m::CortexMHeap;
use vstd::prelude::*;

verus! {

#[verifier::external_type_specification]
#[verifier::external_body]
pub struct ExCortexMHeap(CortexMHeap);

/// `CortexMHeap::free`: the allocator's estimate of the bytes still
/// available. It depends on what has been allocated so far, so nothing is
/// stated of it.
#[verifier::external_body]
fn heap_free(heap: &CortexMHeap) -> usize {
    heap.free()
}

/// `CortexMHeap::used`: the allocator's estimate of the bytes in use. It
/// depends on what has been allocated so far, so nothing is stated of it.
#[verifier::external_body]
fn heap_used(heap: &CortexMHeap) -> usize {
    heap.used()
}

/// The heap's (free, used) byte counts, in that order.
pub fn free(heap: &CortexMHeap) -> (usize, usize) {
    (heap_free(heap), heap_used(heap))
}

} // verus!
