//! The physically contiguous allocator, for buffers that hardware reads
//! without address translation. It serves the fallible contract only.

use vstd::prelude::*;

use crate::nt::{ProviderCall, HIGHEST_PHYSICAL_ADDRESS, MEMORY_CACHING_TYPE, MM_ANY_NODE_OK};
use crate::outcome::{fallible_outcome, fallible_result, AllocError, Allocation, MemoryLayout};

verus! {

/// The physically contiguous allocator. Contiguous memory is scarce, so its
/// exhaustion is always reported to the caller and never halts.
#[derive(Clone, Copy, Debug, PartialEq, Eq, Structural)]
pub struct PhysicalAllocator;

/// The provider call that asks for `size` bytes of contiguous memory: any
/// physical address from zero to the highest, no boundary multiple, cached,
/// on any node.
pub open spec fn contiguous_allocation_call(size: usize) -> ProviderCall {
    ProviderCall::ContiguousAllocate {
        number_of_bytes: size,
        lowest: 0,
        highest: HIGHEST_PHYSICAL_ADDRESS,
        boundary: 0,
        cache_type: MEMORY_CACHING_TYPE::MmCached,
        preferred_node: MM_ANY_NODE_OK,
    }
}

/// The provider call that returns the contiguous block at `address`.
pub open spec fn contiguous_release_call(address: usize) -> ProviderCall {
    ProviderCall::ContiguousFree { address }
}

impl PhysicalAllocator {
    pub fn new() -> (r: PhysicalAllocator)
        ensures
            r == PhysicalAllocator,
    {
        PhysicalAllocator
    }

    /// The one provider call to make for a request of `layout`. Only the
    /// size depends on the request.
    pub fn allocation_call(&self, layout: MemoryLayout) -> (r: ProviderCall)
        ensures
            r == contiguous_allocation_call(layout.size),
    {
        ProviderCall::ContiguousAllocate {
            number_of_bytes: layout.size,
            lowest: 0,
            highest: HIGHEST_PHYSICAL_ADDRESS,
            boundary: 0,
            cache_type: MEMORY_CACHING_TYPE::MmCached,
            preferred_node: MM_ANY_NODE_OK,
        }
    }

    /// Given the address that the provider returned for
    /// `allocation_call(layout)`: a null address is an [`AllocError`], any
    /// other a block of exactly `layout.size` bytes.
    pub fn allocate(&self, provided: usize, layout: MemoryLayout) -> (r: Result<Allocation, AllocError>)
        ensures
            r == fallible_result(provided, layout.size),
            r is Err <==> provided == 0,
    {
        fallible_outcome(provided, layout)
    }

    /// The address goes back to the contiguous-memory free routine unchanged.
    pub fn deallocate(&self, address: usize, layout: MemoryLayout) -> (r: ProviderCall)
        ensures
            r == contiguous_release_call(address),
    {
        ProviderCall::ContiguousFree { address }
    }
}

} // verus!
