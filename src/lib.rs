//! A memory-allocation layer for a kernel extension, written as a verified
//! bridge between two allocator contracts and the kernel memory provider.
//!
//! The provider itself (the routines that reserve non-paged pool and
//! physically contiguous memory) lives outside this library. For each request
//! the library states, as a plain value, the one provider call to make
//! ([`ProviderCall`]), and then decides from the address that came back what
//! the caller receives: an [`Allocation`], an [`AllocError`], or, on the
//! infallible path, [`GlobalOutcome::Halt`]. The code that performs the calls
//! hands the library plain integers and takes plain values back.
//!
//! Alignment: neither allocator forwards the requested alignment to the
//! provider. The pool provider aligns every block to its own fixed boundary
//! and contiguous memory starts on a page, and this layer relies on those
//! guarantees as they are; a request for a larger alignment is not honoured.

pub mod nt;
pub mod outcome;
pub mod physical;
pub mod pool;
pub mod laws;

pub use nt::{ProviderCall, MEMORY_CACHING_TYPE};
pub use outcome::{AllocError, Allocation, GlobalOutcome, MemoryLayout};
pub use physical::PhysicalAllocator;
pub use pool::KernelAlloc;
