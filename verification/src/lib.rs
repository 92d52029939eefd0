//! The transport and the device side of the vhost-user protocol.

pub mod bytes;
pub mod error;
pub mod message;
pub mod connection;
pub mod win32;
pub mod latch;
pub mod locks;
pub mod vring;
pub mod completion_backend;
pub mod backend;
pub mod completion_loop;
pub mod protocol;
pub mod daemon;
