//! A minimal GPU orchestration layer, verified.
//!
//! The library models the host-side decisions of two workflows on top of a
//! graphics/compute device: a one-shot compute dispatch over a 2-D grid with
//! a blocking readback, and an event-driven presentation loop rendering to a
//! resizable surface.  Device, window and queue handles live outside this
//! crate; the library computes every descriptor, size and state transition
//! and proves them against the contracts below.

pub mod binder;
pub mod codec;
pub mod context;
pub mod controller;
pub mod dispatch;
pub mod renderer;
pub mod surface;
