//! The allocator handle: the two entry points of one allocator, carried as a unit.
use vstd::prelude::*;

verus! {

/// The addresses of an allocator's two entry points, in the order in which a
/// handle carries them.
pub struct EntryPoints {
    /// Where a block is requested.
    pub alloc: usize,
    /// Where a block is given back.
    pub dealloc: usize,
}

impl EntryPoints {
    /// Both entry points are present: neither address is null.
    pub open spec fn complete(self) -> bool {
        self.alloc != 0 && self.dealloc != 0
    }
}

/// A handle on one allocator: the address of its allocating entry point and of
/// the matching deallocating one.
///
/// A handle is always complete. Whether its two entry points belong to the same
/// allocator cannot be told from the addresses; whoever builds a handle answers
/// for that.
#[derive(Clone, Copy, Debug, PartialEq, Eq)]
pub struct HostAllocatorPtr {
    alloc_fn: usize,
    dealloc_fn: usize,
}

impl View for HostAllocatorPtr {
    type V = EntryPoints;

    closed spec fn view(&self) -> EntryPoints {
        EntryPoints { alloc: self.alloc_fn, dealloc: self.dealloc_fn }
    }
}

impl HostAllocatorPtr {
    /// What holds of every handle: it is complete.
    #[verifier::type_invariant]
    pub open spec fn well_formed(self) -> bool {
        self@.complete()
    }

    /// Builds a handle from the addresses of two entry points. A null address
    /// stands for a missing entry point, and no handle is built from one.
    pub fn from_entry_points(alloc_fn: usize, dealloc_fn: usize) -> (handle: Option<Self>)
        ensures
            handle is Some <==> alloc_fn != 0 && dealloc_fn != 0,
            handle matches Some(h) ==> h@ == (EntryPoints { alloc: alloc_fn, dealloc: dealloc_fn }),
    {
        if alloc_fn != 0 && dealloc_fn != 0 {
            Some(HostAllocatorPtr { alloc_fn, dealloc_fn })
        } else {
            None
        }
    }

    /// Builds a handle from two addresses that are known to be present.
    pub(crate) fn from_present(alloc_fn: usize, dealloc_fn: usize) -> (handle: Self)
        requires
            alloc_fn != 0,
            dealloc_fn != 0,
        ensures
            handle@ == (EntryPoints { alloc: alloc_fn, dealloc: dealloc_fn }),
    {
        HostAllocatorPtr { alloc_fn, dealloc_fn }
    }

    /// The address of the allocating entry point.
    pub fn alloc_fn(&self) -> (addr: usize)
        ensures
            addr == self@.alloc,
            addr != 0,
    {
        proof {
            use_type_invariant(self);
        }
        self.alloc_fn
    }

    /// The address of the deallocating entry point.
    pub fn dealloc_fn(&self) -> (addr: usize)
        ensures
            addr == self@.dealloc,
            addr != 0,
    {
        proof {
            use_type_invariant(self);
        }
        self.dealloc_fn
    }
}

} // verus!
