//! A typed view over a kernel socket map: a fixed-capacity table, indexed by
//! a 32-bit key, whose values are raw socket descriptors.
//!
//! The view checks the raw map handle once when it is built, bounds-checks
//! every index before a mutation, and hands each kernel request to a gateway
//! that the caller supplies.

pub mod error;
pub mod handle;
pub mod keys;
pub mod sock_map;

pub use error::MapError;
pub use handle::{MapHandle, RawFd, BPF_MAP_TYPE_SOCKMAP};
pub use keys::MapKeys;
pub use sock_map::SockMap;
