//! A verified model of a two-stage instanced dot-sprite renderer.
//!
//! The offscreen compositor draws an arbitrary number of soft circular
//! "dot" sprites into a fixed-size render target; a presentation bridge
//! then samples that target inside a host-provided render pass.  This
//! crate holds the CPU-side core of that pipeline: the exact byte images
//! of every GPU buffer (quad vertices, per-dot instances, uniforms), the
//! descriptors that parametrize pipeline and resource creation, and the
//! per-frame state machine that orders the offscreen render before the
//! presentation draw.  A host layer owns the actual device and queue and
//! issues the commands these types describe.

pub mod bytes;
pub mod layout;
pub mod dot;
pub mod geometry;
pub mod uniforms;
pub mod format;
pub mod surface;
pub mod surface_view;
