//! Decision logic of a demo that shares a graphics buffer with a compute
//! device: render-driver selection, the ordering of the shared-buffer
//! commands, buffer sizing and the pacing of the presentation loop.

pub mod driver;
pub mod frame;
pub mod handshake;
pub mod layout;
