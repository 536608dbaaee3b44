//! The kernel memory provider's interface, as plain values.
#![allow(non_camel_case_types)]
#![allow(non_upper_case_globals)]

use vstd::prelude::*;

verus! {

/// The class of pool memory that the provider is asked for.
pub type POOL_TYPE = i32;

pub const NonPagedPool: POOL_TYPE = 0;
pub const NonPagedPoolExecute: POOL_TYPE = 0;
pub const PagedPool: POOL_TYPE = 1;
pub const NonPagedPoolMustSucceed: POOL_TYPE = 2;
pub const NonPagedPoolCacheAligned: POOL_TYPE = 4;
pub const PagedPoolCacheAligned: POOL_TYPE = 5;
pub const NonPagedPoolNx: POOL_TYPE = 512;

/// A node affinity hint for contiguous memory.
pub type NODE_REQUIREMENT = u32;

/// Any NUMA node is acceptable.
pub const MM_ANY_NODE_OK: NODE_REQUIREMENT = 0x8000_0000;

/// The largest physical address: a `PHYSICAL_ADDRESS` with all bits set.
pub const HIGHEST_PHYSICAL_ADDRESS: u64 = 0xFFFF_FFFF_FFFF_FFFF;

/// The pool tag attached to tagged pool allocations. Its bytes in memory,
/// on the little-endian machines the kernel runs on, are `t s u R`, which
/// pool-tracking tools display as "Rust".
pub const POOL_TAG: u32 = 0x5275_7374;

/// The caching attribute of contiguous memory.
#[derive(Clone, Copy, Debug, PartialEq, Eq, Structural)]
pub enum MEMORY_CACHING_TYPE {
    MmNonCached,
    MmCached,
    MmWriteCombined,
    MmHardwareCoherentCached,
    MmNonCachedUnordered,
    MmUSWCCached,
    MmMaximumCacheType,
    MmNotMapped,
}

/// The value the provider's ABI gives each caching type.
pub open spec fn caching_code(t: MEMORY_CACHING_TYPE) -> i32 {
    match t {
        MEMORY_CACHING_TYPE::MmNonCached => 0,
        MEMORY_CACHING_TYPE::MmCached => 1,
        MEMORY_CACHING_TYPE::MmWriteCombined => 2,
        MEMORY_CACHING_TYPE::MmHardwareCoherentCached => 3,
        MEMORY_CACHING_TYPE::MmNonCachedUnordered => 4,
        MEMORY_CACHING_TYPE::MmUSWCCached => 5,
        MEMORY_CACHING_TYPE::MmMaximumCacheType => 6,
        MEMORY_CACHING_TYPE::MmNotMapped => -1i32,
    }
}

impl MEMORY_CACHING_TYPE {
    /// The value passed to the provider for this caching type.
    pub fn code(&self) -> (r: i32)
        ensures
            r == caching_code(*self),
    {
        match self {
            MEMORY_CACHING_TYPE::MmNonCached => 0,
            MEMORY_CACHING_TYPE::MmCached => 1,
            MEMORY_CACHING_TYPE::MmWriteCombined => 2,
            MEMORY_CACHING_TYPE::MmHardwareCoherentCached => 3,
            MEMORY_CACHING_TYPE::MmNonCachedUnordered => 4,
            MEMORY_CACHING_TYPE::MmUSWCCached => 5,
            MEMORY_CACHING_TYPE::MmMaximumCacheType => 6,
            MEMORY_CACHING_TYPE::MmNotMapped => -1,
        }
    }

    /// The caching type with the given ABI value, if there is one.
    pub fn from_code(code: i32) -> (r: Option<MEMORY_CACHING_TYPE>)
        ensures
            r matches Some(t) ==> caching_code(t) == code,
            r is None <==> !(-1 <= code <= 6),
    {
        match code {
            0 => Some(MEMORY_CACHING_TYPE::MmNonCached),
            1 => Some(MEMORY_CACHING_TYPE::MmCached),
            2 => Some(MEMORY_CACHING_TYPE::MmWriteCombined),
            3 => Some(MEMORY_CACHING_TYPE::MmHardwareCoherentCached),
            4 => Some(MEMORY_CACHING_TYPE::MmNonCachedUnordered),
            5 => Some(MEMORY_CACHING_TYPE::MmUSWCCached),
            6 => Some(MEMORY_CACHING_TYPE::MmMaximumCacheType),
            -1 => Some(MEMORY_CACHING_TYPE::MmNotMapped),
            _ => None,
        }
    }
}

/// One call into the kernel memory provider, with all of its arguments.
/// Addresses are plain integers; zero is the null address.
#[derive(Clone, Copy, Debug, PartialEq, Eq, Structural)]
pub enum ProviderCall {
    /// `ExAllocatePool(pool_type, number_of_bytes)`.
    PoolAllocate { pool_type: POOL_TYPE, number_of_bytes: usize },
    /// `ExAllocatePoolWithTag(pool_type, number_of_bytes, tag)`.
    PoolAllocateWithTag { pool_type: POOL_TYPE, number_of_bytes: usize, tag: u32 },
    /// `ExFreePool(address)`.
    PoolFree { address: usize },
    /// `MmAllocateContiguousMemorySpecifyCacheNode(number_of_bytes, lowest,
    /// highest, boundary, cache_type, preferred_node)`.
    ContiguousAllocate {
        number_of_bytes: usize,
        lowest: u64,
        highest: u64,
        boundary: u64,
        cache_type: MEMORY_CACHING_TYPE,
        preferred_node: NODE_REQUIREMENT,
    },
    /// `MmFreeContiguousMemory(address)`.
    ContiguousFree { address: usize },
}

impl ProviderCall {
    /// Whether this call asks the provider for memory, as opposed to
    /// returning memory to it.
    pub fn is_allocation(&self) -> (r: bool)
        ensures
            r <==> (*self is PoolAllocate || *self is PoolAllocateWithTag
                || *self is ContiguousAllocate),
    {
        match self {
            ProviderCall::PoolAllocate { .. } => true,
            ProviderCall::PoolAllocateWithTag { .. } => true,
            ProviderCall::ContiguousAllocate { .. } => true,
            ProviderCall::PoolFree { .. } => false,
            ProviderCall::ContiguousFree { .. } => false,
        }
    }
}

} // verus!
