//! Bootstrap layer of the Laios graphics engine.
//!
//! The crate plans and supervises the bring-up of a Vulkan context and of the
//! window it presents to: which extensions and layers are requested, in which
//! order the window and the instance are acquired and released, and which
//! platform events end the event loop. Every decision is a verified function
//! on plain values; the host program performs the window-system and driver
//! calls and reports back what happened.

pub mod app;
pub mod error;
pub mod event_loop;
pub mod lifecycle;
pub mod renderer;
pub mod window;
