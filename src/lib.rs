//! Bridges a touchscreen tablet's raw input stream into locally emulated pen
//! and touch devices: record decoding, multi-touch frame reassembly,
//! orientation transforms, palm rejection and the remote session's rules.

pub mod event;
pub mod orientation;
pub mod text;
pub mod palm;
pub mod device;
pub mod touch;
pub mod pen;
pub mod config;
pub mod grab;
pub mod session;
