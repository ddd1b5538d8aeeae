//! A live telemetry visualizer core: a bounded sliding-window history of
//! timestamped sensor samples, the coordinate transform that rebases every
//! sample onto the window's epoch, the payload decoder, the render/input
//! loop's state machine, and the row layout of the exported data file.
//!
//! All I/O (the network subscription, the display surface, the rasterizer,
//! the file writer) lives outside this crate; the types here carry
//! timestamps as integer nanoseconds and sensor readings as the raw
//! little-endian payload bits, so that every rule about the window and the
//! chart frame is stated and proved over plain integers.

pub mod config;
pub mod control;
pub mod decode;
pub mod export;
pub mod window;
