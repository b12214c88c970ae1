//! The decisions of a camera server that encodes two camera streams and sends
//! the encoded frames of one of them to its clients over the network.
//!
//! Devices, sockets, channels and threads are not here. Each loop of the server
//! is a state machine: it is told what came of its last action, and answers what
//! to do next.

pub mod buffer;
pub mod camera;
pub mod camera_loop;
pub mod command;
pub mod encoder;
pub mod fixed_encoder;
pub mod format;
pub mod pipeline;
pub mod relay;

pub use buffer::{CameraError, ReadError};
pub use format::Size;
