//! What holds of the registry across several steps.
use vstd::prelude::*;
use std::alloc::Layout;
use crate::handle::EntryPoints;
use crate::registry::SlotState;
use crate::registry::publish;
use crate::registry::publish_all;
use crate::forward::AllocAction;
use crate::forward::DeallocAction;
use crate::forward::alloc_action;
use crate::forward::dealloc_action;

verus! {

/// A block goes back to the allocator that it came from.
///
/// While a handle is installed, a request to allocate with `layout` goes to
/// that handle's allocating entry point, and the request to deallocate the
/// block at `ptr` that came of it, with the same `layout`, goes to the
/// deallocating entry point of the same handle. Address and layout arrive as
/// they were given.
pub proof fn lemma_round_trip_stays_with_one_handle(
    installed: EntryPoints,
    ptr: usize,
    layout: Layout,
)
    ensures
        alloc_action(SlotState::Initialized(installed), layout) == (AllocAction::Forward {
            alloc_fn: installed.alloc,
            layout,
        }),
        dealloc_action(SlotState::Initialized(installed), ptr, layout) == (DeallocAction::Forward {
            dealloc_fn: installed.dealloc,
            ptr,
            layout,
        }),
{
}

/// Once a handle has been installed, every request uses that handle and
/// nothing else.
///
/// Whatever the slot held before `handle` was installed, a request that comes
/// afterwards is sent to an entry point of `handle`: an entry point of an
/// earlier handle is never paired with one of `handle`, and the answer is never
/// to halt.
pub proof fn lemma_requests_follow_publication(
    before: SlotState,
    handle: EntryPoints,
    ptr: usize,
    layout: Layout,
)
    ensures
        alloc_action(publish(before, handle), layout) == (AllocAction::Forward {
            alloc_fn: handle.alloc,
            layout,
        }),
        dealloc_action(publish(before, handle), ptr, layout) == (DeallocAction::Forward {
            dealloc_fn: handle.dealloc,
            ptr,
            layout,
        }),
{
}

/// While no handle is installed, every request is answered with the order to
/// halt, and only then.
pub proof fn lemma_halt_only_before_publication(state: SlotState, ptr: usize, layout: Layout)
    ensures
        alloc_action(state, layout) is Halt <==> state is Uninitialized,
        dealloc_action(state, ptr, layout) is Halt <==> state is Uninitialized,
{
}

/// The slot never goes back to empty, and the handle installed last is the one
/// that it holds.
///
/// After any number of installations a slot that held a handle still holds
/// one. If at least one handle was installed, the slot holds the last of them,
/// whole, whatever it held before.
pub proof fn lemma_slot_never_empties(before: SlotState, handles: Seq<EntryPoints>)
    ensures
        handles.len() == 0 ==> publish_all(before, handles) == before,
        handles.len() > 0 ==> publish_all(before, handles) == SlotState::Initialized(
            handles.last(),
        ),
        before is Initialized ==> publish_all(before, handles) is Initialized,
    decreases handles.len(),
{
    if handles.len() > 0 {
        let rest = handles.drop_first();
        lemma_slot_never_empties(publish(before, handles.first()), rest);
        if rest.len() > 0 {
            assert(rest.last() == handles.last());
        }
    }
}

} // verus!
