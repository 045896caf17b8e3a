use crate::error::MapError;
use vstd::prelude::*;

verus! {

/// A raw open file descriptor, as the platform defines it.
pub type RawFd = i32;

/// The kernel's type tag for a socket map.
pub const BPF_MAP_TYPE_SOCKMAP: u32 = 15;

/// A raw map handle: the metadata the kernel declared for a map, and the
/// descriptor of the map once it is open.
#[derive(Debug, PartialEq, Eq, Structural)]
pub struct MapHandle {
    pub map_type: u32,
    pub key_size: u32,
    pub value_size: u32,
    pub max_entries: u32,
    pub fd: Option<RawFd>,
}

impl MapHandle {
    /// The map's open descriptor, or `MapNotLoaded` when it has none.
    pub fn fd_or_err(&self) -> (r: Result<RawFd, MapError>)
        ensures
            match self.fd {
                Some(fd) => r == Ok::<RawFd, MapError>(fd),
                None => r is Err && r->Err_0 is MapNotLoaded,
            },
    {
        match self.fd {
            Some(fd) => Ok(fd),
            None => Err(MapError::MapNotLoaded),
        }
    }
}

} // verus!
