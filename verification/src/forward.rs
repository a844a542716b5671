//! The adapter: what the registry answers to each request of the plugin's heap.
use vstd::prelude::*;
use std::alloc::Layout;
use crate::registry::HostAllocator;
use crate::registry::SlotState;

verus! {

/// `std::alloc::Layout`, the size and alignment that go with every request.
///
/// Trusted as an opaque value: the registry hands a layout on as it came and
/// never looks inside.
#[verifier::external_type_specification]
#[verifier::external_body]
pub struct ExLayout(std::alloc::Layout);

/// What has to happen for a request to allocate.
#[derive(Clone, Copy, Debug, PartialEq, Eq)]
pub enum AllocAction {
    /// Call the entry point at address `alloc_fn` with `layout`. Whatever it
    /// returns, a null pointer included, is the answer to the request.
    Forward { alloc_fn: usize, layout: Layout },
    /// No allocator is installed. There is nothing to call and no answer to
    /// give: the process has to halt at once.
    Halt,
}

/// What has to happen for a request to deallocate.
#[derive(Clone, Copy, Debug, PartialEq, Eq)]
pub enum DeallocAction {
    /// Call the entry point at address `dealloc_fn` with the block at address
    /// `ptr` and with `layout`.
    Forward { dealloc_fn: usize, ptr: usize, layout: Layout },
    /// No allocator is installed. There is nothing to call: the process has to
    /// halt at once.
    Halt,
}

/// The answer to a request to allocate with `layout` while the slot is in
/// `state`.
pub open spec fn alloc_action(state: SlotState, layout: Layout) -> AllocAction {
    match state {
        SlotState::Initialized(entry_points) => AllocAction::Forward {
            alloc_fn: entry_points.alloc,
            layout,
        },
        SlotState::Uninitialized => AllocAction::Halt,
    }
}

/// The answer to a request to deallocate the block at `ptr` with `layout` while
/// the slot is in `state`.
pub open spec fn dealloc_action(state: SlotState, ptr: usize, layout: Layout) -> DeallocAction {
    match state {
        SlotState::Initialized(entry_points) => DeallocAction::Forward {
            dealloc_fn: entry_points.dealloc,
            ptr,
            layout,
        },
        SlotState::Uninitialized => DeallocAction::Halt,
    }
}

impl HostAllocator {
    /// Answers a request to allocate a block with `layout`.
    ///
    /// With a handle installed the request goes to that handle's allocating
    /// entry point, the layout untouched. With none installed the answer is to
    /// halt. An entry point that is handed out is never null.
    pub fn global_alloc(&self, layout: Layout) -> (action: AllocAction)
        ensures
            action == alloc_action(self@, layout),
            action is Halt <==> self@ is Uninitialized,
            action matches AllocAction::Forward { alloc_fn, .. } ==> alloc_fn != 0,
    {
        match self.installed() {
            Some(handle) => AllocAction::Forward { alloc_fn: handle.alloc_fn(), layout },
            None => AllocAction::Halt,
        }
    }

    /// Answers a request to deallocate the block at address `ptr`, which was
    /// allocated with `layout`.
    ///
    /// With a handle installed the request goes to that handle's deallocating
    /// entry point, address and layout untouched. With none installed the
    /// answer is to halt. An entry point that is handed out is never null.
    pub fn global_dealloc(&self, ptr: usize, layout: Layout) -> (action: DeallocAction)
        ensures
            action == dealloc_action(self@, ptr, layout),
            action is Halt <==> self@ is Uninitialized,
            action matches DeallocAction::Forward { dealloc_fn, .. } ==> dealloc_fn != 0,
    {
        match self.installed() {
            Some(handle) => DeallocAction::Forward { dealloc_fn: handle.dealloc_fn(), ptr, layout },
            None => DeallocAction::Halt,
        }
    }
}

} // verus!
