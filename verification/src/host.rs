//! The host side: handing out a handle on the allocator of the running process.
use vstd::prelude::*;
use crate::handle::HostAllocatorPtr;

verus! {

/// The address of `std::alloc::alloc`, the allocating entry point of the
/// process's global allocator.
///
/// Trusted: the address of a function is never null. Which address it is
/// depends on where the process was loaded, so nothing more is claimed.
#[verifier::external_body]
fn global_alloc_address() -> (addr: usize)
    ensures
        addr != 0,
{
    std::alloc::alloc as usize
}

/// The address of `std::alloc::dealloc`, the deallocating entry point of the
/// process's global allocator.
///
/// Trusted: the address of a function is never null. Which address it is
/// depends on where the process was loaded, so nothing more is claimed.
#[verifier::external_body]
fn global_dealloc_address() -> (addr: usize)
    ensures
        addr != 0,
{
    std::alloc::dealloc as usize
}

/// The handle on the allocator of the running process, for passing to a plugin.
///
/// Both entry points are functions of the program itself, so the handle stays
/// usable for as long as the process lives. Nothing is stored and nothing is
/// changed by asking.
pub fn get_allocator() -> (handle: HostAllocatorPtr)
    ensures
        handle@.complete(),
{
    let alloc_fn: usize = global_alloc_address();
    let dealloc_fn: usize = global_dealloc_address();
    HostAllocatorPtr::from_present(alloc_fn, dealloc_fn)
}

} // verus!
