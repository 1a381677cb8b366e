//! Frame synchronisation and render submission for a Metal-backed view.
//!
//! A display-refresh timer coalesces hardware ticks into frame events, a
//! presentable surface turns each frame event into a fresh drawable and render
//! pass, and a renderer encodes one command buffer per frame. Every operation
//! is a total function on plain values: what has to happen in the windowing
//! system or on the GPU is returned as an ordered list of actions for the
//! caller to perform.

pub mod display_link;
pub mod metal_view;
pub mod object;
pub mod renderer;
pub mod vector_types;
