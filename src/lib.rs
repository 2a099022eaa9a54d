//! A frame-submission core for a small real-time renderer: surface
//! negotiation and resizing, pipeline selection, resource upload layout and
//! the per-frame state machine with its recovery policy.
pub mod format;
pub mod surface;
pub mod pipeline;
pub mod geometry;
pub mod texture;
pub mod frame;
pub mod driver;
