//! A small real-time rendering session, kept apart from the graphics device.
//!
//! Every decision the session takes is a function on plain values: which
//! swapchain a surface size calls for, how vertex attributes are packed, what a
//! pipeline is made of, how decoded pixels are staged for upload, and which
//! commands one frame records.  The caller owns the window, the device and the
//! queue, carries out what these functions describe, and reports back what the
//! platform answered.

pub mod bind_group;
pub mod buffer;
pub mod dds;
pub mod error;
pub mod event;
pub mod format;
pub mod pipeline;
pub mod png;
pub mod renderer;
pub mod session;
pub mod shader;
pub mod texture;
pub mod upload;
pub mod vertex;
