//! Properties that relate several of the allocators' operations.

use vstd::prelude::*;

use crate::nt::{
    NonPagedPool, ProviderCall, HIGHEST_PHYSICAL_ADDRESS, MEMORY_CACHING_TYPE, MM_ANY_NODE_OK,
    POOL_TAG,
};
use crate::outcome::{fallible_result, infallible_result, AllocError};
use crate::physical::{contiguous_allocation_call, contiguous_release_call};
use crate::pool::{pool_allocation_call, pool_release_call, KernelAlloc};

verus! {

/// A block that either contract grants has a non-null address, and
/// releasing it is one plain free call, which no failure policy takes part in.
pub proof fn lemma_granted_block_is_non_null(provided: usize, size: usize)
    ensures
        (fallible_result(provided, size) is Ok) ==> fallible_result(provided, size)->Ok_0.address != 0,
        (fallible_result(provided, size) is Ok) ==> fallible_result(provided, size)->Ok_0.size == size,
        (infallible_result(provided) is Granted) ==> infallible_result(provided)->Granted_0 != 0,
        (pool_release_call(provided) is PoolFree),
        (contiguous_release_call(provided) is ContiguousFree),
{
}

/// Tagging changes nothing in a pool request but the tag: the pool class and
/// the byte count are the same, and what the caller receives is decided by
/// the returned address alone.
pub proof fn lemma_tagging_changes_only_the_tag(
    tagged: KernelAlloc,
    untagged: KernelAlloc,
    size: usize,
    provided: usize,
)
    requires
        tagged.tagging,
        !untagged.tagging,
    ensures
        (pool_allocation_call(tagged.tagging, size) is PoolAllocateWithTag),
        (pool_allocation_call(untagged.tagging, size) is PoolAllocate),
        pool_allocation_call(tagged.tagging, size)->PoolAllocateWithTag_pool_type == NonPagedPool,
        pool_allocation_call(untagged.tagging, size)->PoolAllocate_pool_type == NonPagedPool,
        pool_allocation_call(tagged.tagging, size)->PoolAllocateWithTag_number_of_bytes == size,
        pool_allocation_call(untagged.tagging, size)->PoolAllocate_number_of_bytes == size,
        pool_allocation_call(tagged.tagging, size)->PoolAllocateWithTag_tag == POOL_TAG,
        tagged.global_alloc_spec(provided) == untagged.global_alloc_spec(provided),
        tagged.allocate_spec(provided, size) == untagged.allocate_spec(provided, size),
{
}

/// On the infallible contract a null answer from the provider always halts,
/// and a halt comes from nothing else.
pub proof fn lemma_null_halts_infallible(provided: usize)
    ensures
        provided == 0 <==> (infallible_result(provided) is Halt),
{
}

/// On the fallible contract a null answer from the provider is always the
/// allocation error, returned to the caller, and the error comes from nothing
/// else.
pub proof fn lemma_null_fails_fallible(provided: usize, size: usize)
    ensures
        provided == 0 <==> (fallible_result(provided, size) is Err),
        provided == 0 ==> fallible_result(provided, size)->Err_0 == AllocError,
{
}

/// Every contiguous request, whatever its size, asks for the whole physical
/// address range, no boundary multiple, cached memory and any node.
pub proof fn lemma_contiguous_request_is_unconstrained(size: usize)
    ensures
        (contiguous_allocation_call(size) is ContiguousAllocate),
        contiguous_allocation_call(size)->ContiguousAllocate_number_of_bytes == size,
        contiguous_allocation_call(size)->lowest == 0,
        contiguous_allocation_call(size)->highest == HIGHEST_PHYSICAL_ADDRESS,
        contiguous_allocation_call(size)->boundary == 0,
        contiguous_allocation_call(size)->cache_type == MEMORY_CACHING_TYPE::MmCached,
        contiguous_allocation_call(size)->preferred_node == MM_ANY_NODE_OK,
{
}

/// Allocating and then releasing the granted block hands the provider's own
/// address back to the matching free routine: the pool's for pool memory,
/// the contiguous one for contiguous memory.
pub proof fn lemma_round_trip_releases_same_handle(provided: usize, size: usize)
    requires
        provided != 0,
    ensures
        (fallible_result(provided, size) is Ok),
        (infallible_result(provided) is Granted),
        pool_release_call(fallible_result(provided, size)->Ok_0.address)
            == pool_release_call(provided),
        contiguous_release_call(fallible_result(provided, size)->Ok_0.address)
            == contiguous_release_call(provided),
        pool_release_call(infallible_result(provided)->Granted_0) == pool_release_call(provided),
        pool_release_call(provided)->PoolFree_address == provided,
        contiguous_release_call(provided)->ContiguousFree_address == provided,
{
}

/// Any two tagging allocators, serving any two requests, pass the provider
/// the same tag: the constant, which no operation changes.
pub proof fn lemma_pool_tag_is_constant(a: KernelAlloc, b: KernelAlloc, size_a: usize, size_b: usize)
    requires
        a.tagging,
        b.tagging,
    ensures
        pool_allocation_call(a.tagging, size_a)->PoolAllocateWithTag_tag == POOL_TAG,
        pool_allocation_call(b.tagging, size_b)->PoolAllocateWithTag_tag == POOL_TAG,
{
}

} // verus!
