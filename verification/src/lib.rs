//! Sharing one heap between a host process and the plugins it loads.
//!
//! A plugin that frees a block with another allocator than the one that handed
//! the block out corrupts the heap. The host therefore publishes the two entry
//! points of its own allocator as a [`HostAllocatorPtr`]; the plugin installs
//! that handle in its [`HostAllocator`] registry and routes every allocation
//! and deallocation of its own through it.
//!
//! The registry decides; it never jumps. Each request is answered with the call
//! that has to be made on its behalf, or with the order to halt while no
//! allocator is installed. Performing the call is left to the embedding code.
pub mod handle;
pub mod host;
pub mod registry;
pub mod forward;
pub mod laws;
