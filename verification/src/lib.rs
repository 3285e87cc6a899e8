//! A retained-mode 2D rendering core: a fixed list of colored shapes is drawn
//! into a swapchain of presentable images, paced by per-image completion
//! fences.
//!
//! The crate models the decision half of such a renderer. GPU objects appear
//! only as opaque integer handles; the host program that owns the real device
//! creates resources, executes the recorded submissions, and feeds acquisition
//! and submission outcomes back into the scheduler.

pub mod commands;
pub mod device;
pub mod geometry;
pub mod pipeline;
pub mod renderer;
pub mod shape;
pub mod swapchain;
