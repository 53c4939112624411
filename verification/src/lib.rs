//! A fixed-capacity shared byte buffer with an ownership-transfer protocol.
//!
//! A host process and a sandboxed guest module exchange data through a single
//! byte region with two cursors. At any instant exactly one side holds the
//! handle, and the handle's compile-time role decides whether it may write or
//! read. Handing the buffer to the other side flips the role without moving
//! a byte or resetting a cursor.

pub mod buffer;
pub mod laws;
