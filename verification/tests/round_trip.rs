use std::alloc::Layout;
use std::collections::HashMap;

use plugin_api::forward::AllocAction;
use plugin_api::forward::DeallocAction;
use plugin_api::handle::HostAllocatorPtr;
use plugin_api::registry::set_allocator;
use plugin_api::registry::HostAllocator;

/// A host allocator that keeps books: it owns the memory of every block it has
/// handed out and refuses whatever it does not know.
struct Host {
    handle: HostAllocatorPtr,
    live: HashMap<usize, (Layout, Vec<u8>)>,
    handed_out: usize,
    taken_back: usize,
}

impl Host {
    fn new(alloc_fn: usize, dealloc_fn: usize) -> Host {
        Host {
            handle: HostAllocatorPtr::from_entry_points(alloc_fn, dealloc_fn).unwrap(),
            live: HashMap::new(),
            handed_out: 0,
            taken_back: 0,
        }
    }

    fn perform_alloc(&mut self, action: AllocAction) -> usize {
        match action {
            AllocAction::Forward { alloc_fn, layout } => {
                assert_eq!(alloc_fn, self.handle.alloc_fn());
                let block: Vec<u8> = Vec::with_capacity(layout.size().max(1));
                let ptr = block.as_ptr() as usize;
                assert!(self.live.insert(ptr, (layout, block)).is_none());
                self.handed_out += 1;
                ptr
            }
            AllocAction::Halt => panic!("no allocator installed"),
        }
    }

    fn perform_dealloc(&mut self, action: DeallocAction) {
        match action {
            DeallocAction::Forward { dealloc_fn, ptr, layout } => {
                assert_eq!(dealloc_fn, self.handle.dealloc_fn());
                let (allocated_with, _block) = self.live.remove(&ptr).unwrap();
                assert_eq!(allocated_with, layout);
                self.taken_back += 1;
            }
            DeallocAction::Halt => panic!("no allocator installed"),
        }
    }
}

#[test]
fn round_trip_is_accepted_by_the_installed_allocator() {
    let mut host = Host::new(0x1000, 0x2000);
    let mut registry = HostAllocator::new();
    set_allocator(&mut registry, host.handle);
    let sizes = [1usize, 2, 7, 8, 64, 100, 4096];
    let aligns = [1usize, 2, 4, 8, 16, 64];
    for size in sizes {
        for align in aligns {
            let layout = Layout::from_size_align(size, align).unwrap();
            let ptr = host.perform_alloc(registry.global_alloc(layout));
            assert_ne!(ptr, 0);
            host.perform_dealloc(registry.global_dealloc(ptr, layout));
        }
    }
    assert!(host.live.is_empty());
    assert_eq!(host.handed_out, 42);
    assert_eq!(host.taken_back, 42);
}

#[test]
fn ten_thousand_cycles_leave_nothing_behind() {
    let mut host = Host::new(0x1000, 0x2000);
    let mut registry = HostAllocator::new();
    set_allocator(&mut registry, host.handle);
    let layout = Layout::from_size_align(48, 8).unwrap();
    for _ in 0..10_000 {
        let ptr = host.perform_alloc(registry.global_alloc(layout));
        host.perform_dealloc(registry.global_dealloc(ptr, layout));
    }
    assert!(host.live.is_empty());
    assert_eq!(host.handed_out, 10_000);
    assert_eq!(host.taken_back, 10_000);
}

#[test]
fn blocks_may_be_given_back_in_any_order() {
    let mut host = Host::new(0x1000, 0x2000);
    let mut registry = HostAllocator::new();
    set_allocator(&mut registry, host.handle);
    let small = Layout::from_size_align(16, 8).unwrap();
    let large = Layout::from_size_align(512, 32).unwrap();
    let a = host.perform_alloc(registry.global_alloc(small));
    let b = host.perform_alloc(registry.global_alloc(large));
    let c = host.perform_alloc(registry.global_alloc(small));
    assert_eq!(host.live.len(), 3);
    host.perform_dealloc(registry.global_dealloc(b, large));
    host.perform_dealloc(registry.global_dealloc(a, small));
    host.perform_dealloc(registry.global_dealloc(c, small));
    assert!(host.live.is_empty());
}

#[test]
fn second_host_receives_every_request_after_its_publication() {
    let first = Host::new(0x1000, 0x2000);
    let mut second = Host::new(0x3000, 0x4000);
    let mut registry = HostAllocator::new();
    set_allocator(&mut registry, first.handle);
    set_allocator(&mut registry, second.handle);
    let layout = Layout::from_size_align(32, 8).unwrap();
    let ptr = second.perform_alloc(registry.global_alloc(layout));
    second.perform_dealloc(registry.global_dealloc(ptr, layout));
    assert!(second.live.is_empty());
    assert_eq!(second.handed_out, 1);
    assert_eq!(first.handed_out, 0);
}
