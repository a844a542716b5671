//! The plugin side: the slot in which the host's handle is installed.
use vstd::prelude::*;
use crate::handle::EntryPoints;
use crate::handle::HostAllocatorPtr;

verus! {

/// What the slot of a registry holds.
pub enum SlotState {
    /// No handle has been installed yet.
    Uninitialized,
    /// A handle has been installed; these are its entry points.
    Initialized(EntryPoints),
}

/// The effect of installing `handle`: whatever the slot held before, it now
/// holds `handle`, whole.
pub open spec fn publish(before: SlotState, handle: EntryPoints) -> SlotState {
    SlotState::Initialized(handle)
}

/// The effect of installing the handles of `handles` one after the other,
/// the first of them first.
pub open spec fn publish_all(before: SlotState, handles: Seq<EntryPoints>) -> SlotState
    decreases handles.len(),
{
    if handles.len() == 0 {
        before
    } else {
        publish_all(publish(before, handles.first()), handles.drop_first())
    }
}

/// The registry of a plugin: one slot for the handle on the host's allocator.
///
/// The slot starts empty, is filled by [`set_allocator`] and is never emptied
/// again. It holds a handle as a unit, so its two entry points always come from
/// one and the same call of [`set_allocator`].
#[derive(Clone, Copy, Debug, PartialEq, Eq)]
pub struct HostAllocator {
    slot: Option<HostAllocatorPtr>,
}

impl View for HostAllocator {
    type V = SlotState;

    closed spec fn view(&self) -> SlotState {
        match self.slot {
            Some(handle) => SlotState::Initialized(handle@),
            None => SlotState::Uninitialized,
        }
    }
}

impl HostAllocator {
    /// A registry whose slot is empty.
    pub fn new() -> (registry: Self)
        ensures
            registry@ == SlotState::Uninitialized,
    {
        HostAllocator { slot: None }
    }

    /// Whether a handle has been installed.
    pub fn is_initialized(&self) -> (initialized: bool)
        ensures
            initialized <==> self@ is Initialized,
    {
        self.slot.is_some()
    }

    /// Reads the slot: the installed handle, or `None` while the slot is empty.
    pub fn installed(&self) -> (handle: Option<HostAllocatorPtr>)
        ensures
            match self@ {
                SlotState::Initialized(entry_points) => {
                    &&& handle matches Some(h)
                    &&& h@ == entry_points
                    &&& entry_points.complete()
                },
                SlotState::Uninitialized => handle is None,
            },
    {
        match self.slot {
            Some(handle) => {
                proof {
                    use_type_invariant(&handle);
                }
                Some(handle)
            },
            None => None,
        }
    }
}

/// Installs `allocator` in the slot of `registry`.
///
/// This is meant to happen once, before the plugin first allocates. A handle
/// that is already installed is replaced as a whole: afterwards both entry
/// points are those of `allocator`, and nothing of the earlier handle is left.
pub fn set_allocator(registry: &mut HostAllocator, allocator: HostAllocatorPtr)
    ensures
        final(registry)@ == publish(old(registry)@, allocator@),
        final(registry)@ == SlotState::Initialized(allocator@),
{
    registry.slot = Some(allocator);
}

} // verus!
