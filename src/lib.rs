//! Frame pacing and GPU-resource synchronization for a real-time renderer:
//! fences and semaphores, keyed per-frame resource caches, frame slots that
//! rotate over the presentable images, and the rebuilding of the surface.
//! Device calls are made by the caller; this crate decides them.

pub mod cache;
pub mod descriptor;
pub mod draw;
pub mod events;
pub mod frame;
pub mod handle;
pub mod image;
pub mod keys;
pub mod swapchain;
pub mod sync;
