//! Verified core of a cross-platform TUN/TAP device library.
//!
//! The crate models the logic of a virtual-network-interface stack: address
//! handling and parsing, interface configuration planning, the wintun-style
//! ring-session data plane, and the coordination state for asynchronous
//! wrappers (single in-flight operation, multi-waiter wake lists).  The raw
//! OS calls themselves (ioctls, descriptor reads, driver FFI) live outside
//! this crate; everything here is plain data and is verified.

pub mod addr;
pub mod async_device;
pub mod bitfield;
pub mod builder;
pub mod device;
pub mod driver;
pub mod error;
pub mod fd;
pub mod slot;
pub mod text;
pub mod waiters;
