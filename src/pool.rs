//! The pool allocator: non-paged pool memory, optionally tagged.

use vstd::prelude::*;

use crate::nt::{NonPagedPool, ProviderCall, POOL_TAG};
use crate::outcome::{
    fallible_outcome, fallible_result, infallible_outcome, infallible_result, AllocError,
    Allocation, GlobalOutcome, MemoryLayout,
};

verus! {

/// The kernel pool allocator. It serves both the infallible default-allocator
/// contract (`global_alloc`, `global_dealloc`) and the fallible one (`allocate`,
/// `deallocate`). Whether allocations carry [`POOL_TAG`] is chosen once, when
/// the allocator is made.
#[derive(Clone, Copy, Debug, PartialEq, Eq, Structural)]
pub struct KernelAlloc {
    pub tagging: bool,
}

/// The provider call that asks the pool for `size` bytes.
pub open spec fn pool_allocation_call(tagging: bool, size: usize) -> ProviderCall {
    if tagging {
        ProviderCall::PoolAllocateWithTag { pool_type: NonPagedPool, number_of_bytes: size, tag: POOL_TAG }
    } else {
        ProviderCall::PoolAllocate { pool_type: NonPagedPool, number_of_bytes: size }
    }
}

/// The provider call that returns the block at `address` to the pool.
pub open spec fn pool_release_call(address: usize) -> ProviderCall {
    ProviderCall::PoolFree { address }
}

impl KernelAlloc {
    /// What the infallible contract gives for the provider's answer.
    pub open spec fn global_alloc_spec(self, provided: usize) -> GlobalOutcome {
        infallible_result(provided)
    }

    /// What the fallible contract gives for the provider's answer.
    pub open spec fn allocate_spec(self, provided: usize, size: usize) -> Result<Allocation, AllocError> {
        fallible_result(provided, size)
    }

    /// An allocator whose requests carry no tag.
    pub fn new() -> (r: KernelAlloc)
        ensures
            !r.tagging,
    {
        KernelAlloc { tagging: false }
    }

    /// An allocator that attaches [`POOL_TAG`] to every pool request.
    pub fn with_pool_tag() -> (r: KernelAlloc)
        ensures
            r.tagging,
    {
        KernelAlloc { tagging: true }
    }

    /// The one provider call to make for a request of `layout`, under either
    /// contract: non-paged pool of `layout.size` bytes, tagged when tagging is
    /// on. The alignment is not passed on.
    pub fn allocation_call(&self, layout: MemoryLayout) -> (r: ProviderCall)
        ensures
            r == pool_allocation_call(self.tagging, layout.size),
    {
        if self.tagging {
            ProviderCall::PoolAllocateWithTag {
                pool_type: NonPagedPool,
                number_of_bytes: layout.size,
                tag: POOL_TAG,
            }
        } else {
            ProviderCall::PoolAllocate { pool_type: NonPagedPool, number_of_bytes: layout.size }
        }
    }

    /// The infallible contract, given the address that the pool returned for
    /// `allocation_call(layout)`: a null address halts, any other is granted
    /// as it is.
    pub fn global_alloc(&self, provided: usize, layout: MemoryLayout) -> (r: GlobalOutcome)
        ensures
            r == self.global_alloc_spec(provided),
            r == infallible_result(provided),
            r is Halt <==> provided == 0,
    {
        infallible_outcome(provided)
    }

    /// The infallible contract's release: the address goes back to the pool
    /// unchanged. The layout is not needed by the provider.
    pub fn global_dealloc(&self, address: usize, layout: MemoryLayout) -> (r: ProviderCall)
        ensures
            r == pool_release_call(address),
    {
        ProviderCall::PoolFree { address }
    }

    /// The fallible contract, given the address that the pool returned for
    /// `allocation_call(layout)`: a null address is an [`AllocError`], any
    /// other a block of exactly `layout.size` bytes.
    pub fn allocate(&self, provided: usize, layout: MemoryLayout) -> (r: Result<Allocation, AllocError>)
        ensures
            r == self.allocate_spec(provided, layout.size),
            r == fallible_result(provided, layout.size),
            r is Err <==> provided == 0,
    {
        fallible_outcome(provided, layout)
    }

    /// The fallible contract's release: the address goes back to the pool
    /// unchanged.
    pub fn deallocate(&self, address: usize, layout: MemoryLayout) -> (r: ProviderCall)
        ensures
            r == pool_release_call(address),
    {
        ProviderCall::PoolFree { address }
    }
}

} // verus!
