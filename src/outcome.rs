//! What a caller receives once the provider has answered: the failure policy.

use vstd::prelude::*;

verus! {

/// The size and alignment of a requested block.
#[derive(Clone, Copy, Debug, PartialEq, Eq, Structural)]
pub struct MemoryLayout {
    pub size: usize,
    pub align: usize,
}

impl MemoryLayout {
    pub fn new(size: usize, align: usize) -> (r: MemoryLayout)
        ensures
            r.size == size,
            r.align == align,
    {
        MemoryLayout { size, align }
    }
}

/// The provider had no memory for the request.
#[derive(Clone, Copy, Debug, PartialEq, Eq, Structural)]
pub struct AllocError;

/// A block handed to the caller: `size` bytes starting at `address`.
#[derive(Clone, Copy, Debug, PartialEq, Eq, Structural)]
pub struct Allocation {
    pub address: usize,
    pub size: usize,
}

/// What the infallible contract does with the provider's answer.
#[derive(Clone, Copy, Debug, PartialEq, Eq, Structural)]
pub enum GlobalOutcome {
    /// The block at this (non-null) address goes to the caller.
    Granted(usize),
    /// The provider had no memory: report the failure and stop the process.
    /// The caller has no error channel, so nothing is returned to it.
    Halt,
}

/// The fallible contract: a null address becomes an error value, any other
/// address a block of exactly the requested size.
pub open spec fn fallible_result(address: usize, size: usize) -> Result<Allocation, AllocError> {
    if address == 0 {
        Err(AllocError)
    } else {
        Ok(Allocation { address, size })
    }
}

/// The infallible contract: a null address halts, any other is granted.
pub open spec fn infallible_result(address: usize) -> GlobalOutcome {
    if address == 0 {
        GlobalOutcome::Halt
    } else {
        GlobalOutcome::Granted(address)
    }
}

/// Applies the fallible contract to the provider's answer `address` for a
/// request of `layout`.
pub fn fallible_outcome(address: usize, layout: MemoryLayout) -> (r: Result<Allocation, AllocError>)
    ensures
        r == fallible_result(address, layout.size),
{
    if address == 0 {
        Err(AllocError)
    } else {
        Ok(Allocation { address, size: layout.size })
    }
}

/// Applies the infallible contract to the provider's answer `address`.
pub fn infallible_outcome(address: usize) -> (r: GlobalOutcome)
    ensures
        r == infallible_result(address),
{
    if address == 0 {
        GlobalOutcome::Halt
    } else {
        GlobalOutcome::Granted(address)
    }
}

impl Allocation {
    /// The block's first byte; never null.
    pub fn start(&self) -> (r: usize)
        ensures
            r == self.address,
    {
        self.address
    }

    /// The block's length in bytes.
    pub fn len(&self) -> (r: usize)
        ensures
            r == self.size,
    {
        self.size
    }
}

} // verus!
