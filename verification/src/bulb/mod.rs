//! Tuya bulb commands: bodies, colours, signed requests and device batches.

pub mod color;
pub mod common;
pub mod request;
pub mod batch;
