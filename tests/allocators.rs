use kernel_alloc::nt::{
    NonPagedPool, HIGHEST_PHYSICAL_ADDRESS, MM_ANY_NODE_OK, POOL_TAG,
};
use kernel_alloc::outcome::{fallible_outcome, infallible_outcome};
use kernel_alloc::{
    AllocError, Allocation, GlobalOutcome, KernelAlloc, MemoryLayout, PhysicalAllocator,
    ProviderCall, MEMORY_CACHING_TYPE,
};

/// A stand-in for the kernel provider: it records every call and answers
/// allocations with addresses from a counter, or with null when exhausted.
struct MockProvider {
    calls: Vec<ProviderCall>,
    next: usize,
    exhausted: bool,
}

impl MockProvider {
    fn new(exhausted: bool) -> MockProvider {
        MockProvider { calls: Vec::new(), next: 0x1000, exhausted }
    }

    fn perform(&mut self, call: ProviderCall) -> usize {
        self.calls.push(call);
        if !call.is_allocation() || self.exhausted {
            return 0;
        }
        let a = self.next;
        self.next += 0x1000;
        a
    }
}

fn pool_round_trip(k: &KernelAlloc, size: usize) {
    let mut p = MockProvider::new(false);
    let layout = MemoryLayout::new(size, 8);
    let addr = p.perform(k.allocation_call(layout));
    let block = k.allocate(addr, layout).expect("provider had memory");
    assert_ne!(block.start(), 0);
    assert_eq!(block.len(), size);
    p.perform(k.deallocate(block.start(), layout));
    assert_eq!(p.calls.len(), 2);
    assert_eq!(p.calls[1], ProviderCall::PoolFree { address: addr });
}

#[test]
fn granted_block_is_non_null_and_released() {
    let k = KernelAlloc::new();
    let layout = MemoryLayout::new(64, 8);
    let mut p = MockProvider::new(false);
    let addr = p.perform(k.allocation_call(layout));
    match k.global_alloc(addr, layout) {
        GlobalOutcome::Granted(h) => {
            assert_ne!(h, 0);
            assert_eq!(h, addr);
            assert_eq!(k.global_dealloc(h, layout), ProviderCall::PoolFree { address: addr });
        }
        GlobalOutcome::Halt => panic!("halted with memory available"),
    }
}

#[test]
fn tagged_and_untagged_differ_only_in_tag() {
    for size in [0usize, 1, 4096, usize::MAX] {
        let layout = MemoryLayout::new(size, 16);
        let plain = KernelAlloc::new().allocation_call(layout);
        let tagged = KernelAlloc::with_pool_tag().allocation_call(layout);
        assert_eq!(plain, ProviderCall::PoolAllocate { pool_type: NonPagedPool, number_of_bytes: size });
        assert_eq!(
            tagged,
            ProviderCall::PoolAllocateWithTag { pool_type: NonPagedPool, number_of_bytes: size, tag: POOL_TAG }
        );
        assert_eq!(
            KernelAlloc::new().allocate(0x40, layout),
            KernelAlloc::with_pool_tag().allocate(0x40, layout)
        );
    }
}

#[test]
fn pool_tag_reads_rust() {
    assert_eq!(POOL_TAG.to_le_bytes(), *b"tsuR");
    assert_eq!(POOL_TAG, 0x5275_7374);
}

#[test]
fn null_on_infallible_contract_halts() {
    let k = KernelAlloc::with_pool_tag();
    let layout = MemoryLayout::new(128, 8);
    let mut p = MockProvider::new(true);
    let addr = p.perform(k.allocation_call(layout));
    assert_eq!(addr, 0);
    assert_eq!(k.global_alloc(addr, layout), GlobalOutcome::Halt);
    assert_eq!(p.calls.len(), 1);
    assert_eq!(infallible_outcome(0), GlobalOutcome::Halt);
    assert_eq!(infallible_outcome(0x2000), GlobalOutcome::Granted(0x2000));
}

#[test]
fn null_on_fallible_contract_is_an_error() {
    let layout = MemoryLayout::new(4096, 4096);
    let mut p = MockProvider::new(true);
    let k = KernelAlloc::new();
    let addr = p.perform(k.allocation_call(layout));
    assert_eq!(k.allocate(addr, layout), Err(AllocError));
    let phys = PhysicalAllocator::new();
    let addr = p.perform(phys.allocation_call(layout));
    assert_eq!(phys.allocate(addr, layout), Err(AllocError));
    assert_eq!(p.calls.len(), 2);
    assert_eq!(fallible_outcome(0, layout), Err(AllocError));
}

#[test]
fn contiguous_request_is_unconstrained() {
    let phys = PhysicalAllocator::new();
    for size in [1usize, 4096, 1 << 20] {
        let call = phys.allocation_call(MemoryLayout::new(size, 8));
        assert_eq!(
            call,
            ProviderCall::ContiguousAllocate {
                number_of_bytes: size,
                lowest: 0,
                highest: u64::MAX,
                boundary: 0,
                cache_type: MEMORY_CACHING_TYPE::MmCached,
                preferred_node: MM_ANY_NODE_OK,
            }
        );
    }
    assert_eq!(HIGHEST_PHYSICAL_ADDRESS as i64, -1);
    assert_eq!(MM_ANY_NODE_OK, 0x8000_0000);
}

#[test]
fn round_trip_frees_same_handle() {
    for n in [1usize, 8, 4096, 1_048_576] {
        pool_round_trip(&KernelAlloc::new(), n);
        pool_round_trip(&KernelAlloc::with_pool_tag(), n);

        let phys = PhysicalAllocator::new();
        let mut p = MockProvider::new(false);
        let layout = MemoryLayout::new(n, 8);
        let addr = p.perform(phys.allocation_call(layout));
        let block = phys.allocate(addr, layout).unwrap();
        assert_eq!(block, Allocation { address: addr, size: n });
        p.perform(phys.deallocate(block.start(), layout));
        assert_eq!(p.calls.len(), 2);
        assert_eq!(p.calls[1], ProviderCall::ContiguousFree { address: addr });
    }
}

#[test]
fn interleaved_callers_see_the_same_tag() {
    let a = KernelAlloc::with_pool_tag();
    let b = KernelAlloc::with_pool_tag();
    let mut p = MockProvider::new(false);
    let mut handles = Vec::new();
    for i in 1..=16usize {
        let k = if i % 2 == 0 { &a } else { &b };
        let layout = MemoryLayout::new(i * 24, 8);
        let addr = p.perform(k.allocation_call(layout));
        handles.push((k.allocate(addr, layout).unwrap(), layout));
    }
    for (block, layout) in handles.iter().rev() {
        p.perform(a.deallocate(block.start(), *layout));
    }
    for call in &p.calls {
        if let ProviderCall::PoolAllocateWithTag { tag, .. } = call {
            assert_eq!(*tag, POOL_TAG);
        }
    }
    assert_eq!(p.calls.len(), 32);
    assert_eq!(POOL_TAG, 0x5275_7374);
}

#[test]
fn zero_size_is_forwarded() {
    let call = KernelAlloc::new().allocation_call(MemoryLayout::new(0, 1));
    assert_eq!(call, ProviderCall::PoolAllocate { pool_type: 0, number_of_bytes: 0 });
    assert_eq!(
        KernelAlloc::new().allocate(0x10, MemoryLayout::new(0, 1)),
        Ok(Allocation { address: 0x10, size: 0 })
    );
}

#[test]
fn caching_codes() {
    assert_eq!(MEMORY_CACHING_TYPE::MmNonCached.code(), 0);
    assert_eq!(MEMORY_CACHING_TYPE::MmCached.code(), 1);
    assert_eq!(MEMORY_CACHING_TYPE::MmUSWCCached.code(), 5);
    assert_eq!(MEMORY_CACHING_TYPE::MmNotMapped.code(), -1);
    assert_eq!(MEMORY_CACHING_TYPE::from_code(2), Some(MEMORY_CACHING_TYPE::MmWriteCombined));
    assert_eq!(MEMORY_CACHING_TYPE::from_code(-1), Some(MEMORY_CACHING_TYPE::MmNotMapped));
    assert_eq!(MEMORY_CACHING_TYPE::from_code(7), None);
    assert_eq!(MEMORY_CACHING_TYPE::from_code(-2), None);
}

#[test]
fn release_calls_are_not_allocations() {
    assert!(!ProviderCall::PoolFree { address: 8 }.is_allocation());
    assert!(!ProviderCall::ContiguousFree { address: 8 }.is_allocation());
    assert!(KernelAlloc::new().allocation_call(MemoryLayout::new(1, 1)).is_allocation());
}
