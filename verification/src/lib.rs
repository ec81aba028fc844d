//! Core of an interactive Julia-set viewer.
//!
//! The library holds the verified heart of the viewer: the exact geometry
//! mapping between pixel space and the complex parameter plane, the input
//! event dispatcher that keeps the view state consistent, and the state
//! machine of the render loop with its hot-reload policy. Window creation,
//! GPU calls and file reads live outside the library and hand it plain
//! values.
//!
//! All coordinate arithmetic is carried out on exact rational numbers, so
//! every geometric statement below is exact rather than approximate; the
//! caller converts to floating point only at the GPU boundary.

pub mod geometry;
pub mod state;
pub mod controller;
