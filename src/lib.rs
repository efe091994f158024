//! Verified core of a Vulkan renderer: device and queue family selection,
//! swapchain lifecycle with its release order, and the window registry.
//! Driver handles are carried as raw `u64` values; the calls into the
//! graphics API are made by the application around this library.
use vstd::prelude::*;

pub mod error;
pub mod queue_family;
pub mod registry;
pub mod surface;
pub mod swapchain;

verus! {

} // verus!
