use crate::error::{is_syscall_error, MapError};
use crate::keys::MapKeys;
use crate::handle::{MapHandle, RawFd, BPF_MAP_TYPE_SOCKMAP};
use vstd::prelude::*;

verus! {

broadcast use vstd::layout::layout_of_primitives;

/// What a kernel call hands back: its value, or the error code with the I/O error.
pub type SysResult<T> = Result<T, (i64, std::io::Error)>;

/// The handle describes a socket map that this library can drive: the socket
/// map type tag, `u32` keys, raw descriptors as values, and an open descriptor.
pub open spec fn is_sock_map_handle(map: MapHandle) -> bool {
    &&& map.map_type == BPF_MAP_TYPE_SOCKMAP
    &&& map.key_size == 4
    &&& map.value_size == 4
    &&& map.fd is Some
}

/// A typed view over a socket map: a table of raw socket descriptors indexed by `u32`.
///
/// The kernel calls are made by gateways that the caller hands to each
/// operation: `update` for `set`, `delete` for `clear_index`, and the key
/// enumerator for each step of `indices`.
///
/// The view takes its handle by value, and a `MapHandle` can be neither
/// copied nor cloned, so one handle value backs at most one view. `set` and
/// `clear_index` take `&mut self`, so a view has one writer at a time.
pub struct SockMap {
    inner: MapHandle,
}

impl SockMap {
    #[verifier::type_invariant]
    spec fn inv(&self) -> bool {
        is_sock_map_handle(self.inner)
    }

    /// The handle this view was built over.
    pub closed spec fn handle(&self) -> MapHandle {
        self.inner
    }

    /// The map's open descriptor.
    pub open spec fn map_fd(&self) -> RawFd {
        self.handle().fd->Some_0
    }

    /// The map's capacity.
    pub open spec fn max_entries(&self) -> u32 {
        self.handle().max_entries
    }

    /// Builds a view over `map`, checking in turn its type tag, its key width,
    /// its value width and that it is open.
    pub fn new(map: MapHandle) -> (r: Result<SockMap, MapError>)
        ensures
            map.map_type != BPF_MAP_TYPE_SOCKMAP ==> r == Err::<SockMap, MapError>(
                MapError::InvalidMapType { map_type: map.map_type },
            ),
            map.map_type == BPF_MAP_TYPE_SOCKMAP && map.key_size != 4 ==> r == Err::<
                SockMap,
                MapError,
            >(MapError::InvalidKeySize { size: map.key_size as usize, expected: 4 }),
            map.map_type == BPF_MAP_TYPE_SOCKMAP && map.key_size == 4 && map.value_size != 4
                ==> r == Err::<SockMap, MapError>(
                MapError::InvalidValueSize { size: map.value_size as usize, expected: 4 },
            ),
            map.map_type == BPF_MAP_TYPE_SOCKMAP && map.key_size == 4 && map.value_size == 4
                && map.fd is None ==> r == Err::<SockMap, MapError>(MapError::MapNotLoaded),
            r is Ok <==> is_sock_map_handle(map),
            r is Ok ==> r->Ok_0.handle() == map,
            match validation_error(map) {
                Some(e) => r == Err::<SockMap, MapError>(e),
                None => r is Ok,
            },
    {
        let map_type = map.map_type;
        if map_type != BPF_MAP_TYPE_SOCKMAP {
            return Err(MapError::InvalidMapType { map_type });
        }
        let expected = core::mem::size_of::<u32>();
        let size = map.key_size as usize;
        if size != expected {
            return Err(MapError::InvalidKeySize { size, expected });
        }
        let expected = core::mem::size_of::<RawFd>();
        let size = map.value_size as usize;
        if size != expected {
            return Err(MapError::InvalidValueSize { size, expected });
        }
        let _fd = map.fd_or_err()?;
        Ok(SockMap { inner: map })
    }

    /// The handle this view was built over.
    pub fn map(&self) -> (r: &MapHandle)
        ensures
            *r == self.handle(),
            is_sock_map_handle(*r),
    {
        proof {
            use_type_invariant(self);
        }
        &self.inner
    }

    /// Starts an enumeration of the map's populated indices.
    ///
    /// Each call starts afresh. The kernel takes no snapshot: the indices
    /// handed out are consistent only while no other writer changes the map.
    pub fn indices(&self) -> (r: MapKeys)
        ensures
            r.is_fresh(self.map_fd()),
    {
        proof {
            use_type_invariant(self);
        }
        MapKeys::new(self.inner.fd.unwrap())
    }

    /// `Ok` when `index` is below the map's capacity, else `OutOfBounds`
    /// with the index and the capacity.
    pub fn check_bounds(&self, index: u32) -> (r: Result<(), MapError>)
        ensures
            index < self.max_entries() ==> r is Ok,
            index >= self.max_entries() ==> r == Err::<(), MapError>(
                MapError::OutOfBounds { index, max_entries: self.max_entries() },
            ),
    {
        let max_entries = self.inner.max_entries;
        if index >= max_entries {
            Err(MapError::OutOfBounds { index, max_entries })
        } else {
            Ok(())
        }
    }

    /// Stores the socket descriptor `tcp_fd` at `index`.
    ///
    /// Once `index` is in bounds, `update` is called once with the map's
    /// descriptor, the index, the socket descriptor and `flags`, which pass
    /// through unchanged; a failure it reports comes back as a `SyscallError`
    /// named `"update"`.
    pub fn set<F>(&mut self, index: u32, tcp_fd: RawFd, flags: u64, update: F) -> (r: Result<(), MapError>) where
        F: FnOnce(RawFd, u32, RawFd, u64) -> SysResult<()>,
        requires
            index < old(self).max_entries() ==> update.requires(
                (old(self).map_fd(), index, tcp_fd, flags),
            ),
        ensures
            *final(self) == *old(self),
            index >= old(self).max_entries() ==> r == Err::<(), MapError>(
                MapError::OutOfBounds { index, max_entries: old(self).max_entries() },
            ),
            index < old(self).max_entries() ==> exists|res: SysResult<()>|
                #[trigger] update.ensures((old(self).map_fd(), index, tcp_fd, flags), res)
                    && reports(r, res, "update"@),
    {
        proof {
            use_type_invariant(&*self);
        }
        let fd = self.inner.fd_or_err()?;
        self.check_bounds(index)?;
        match update(fd, index, tcp_fd, flags) {
            Ok(()) => Ok(()),
            Err((code, io_error)) => Err(
                MapError::SyscallError { call: "update".to_owned(), code, io_error },
            ),
        }
    }

    /// Removes the entry at `index`.
    ///
    /// Once `index` is in bounds, `delete` is called once with the map's
    /// descriptor and the index. An index that holds no entry is no
    /// success: the failure `delete` reports for it comes back as a
    /// `SyscallError` named `"delete"`, like any other.
    pub fn clear_index<F>(&mut self, index: &u32, delete: F) -> (r: Result<(), MapError>) where
        F: FnOnce(RawFd, u32) -> SysResult<()>,
        requires
            *index < old(self).max_entries() ==> delete.requires((old(self).map_fd(), *index)),
        ensures
            *final(self) == *old(self),
            *index >= old(self).max_entries() ==> r == Err::<(), MapError>(
                MapError::OutOfBounds { index: *index, max_entries: old(self).max_entries() },
            ),
            *index < old(self).max_entries() ==> exists|res: SysResult<()>|
                #[trigger] delete.ensures((old(self).map_fd(), *index), res) && reports(
                    r,
                    res,
                    "delete"@,
                ),
    {
        proof {
            use_type_invariant(&*self);
        }
        let fd = self.inner.fd_or_err()?;
        self.check_bounds(*index)?;
        match delete(fd, *index) {
            Ok(()) => Ok(()),
            Err((code, io_error)) => Err(
                MapError::SyscallError { call: "delete".to_owned(), code, io_error },
            ),
        }
    }
}

impl TryFrom<MapHandle> for SockMap {
    type Error = MapError;

    fn try_from(map: MapHandle) -> (r: Result<SockMap, MapError>) {
        SockMap::new(map)
    }
}

impl vstd::std_specs::convert::TryFromSpecImpl<MapHandle> for SockMap {
    open spec fn obeys_try_from_spec() -> bool {
        true
    }

    closed spec fn try_from_spec(map: MapHandle) -> Result<SockMap, MapError> {
        match validation_error(map) {
            Some(e) => Err(e),
            None => Ok(SockMap { inner: map }),
        }
    }
}

/// `SockMap::try_from(map)` returns what `SockMap::new(map)` returns: the
/// error of the first check that `map` fails, or a view over `map`.
pub proof fn lemma_try_from_spec(map: MapHandle)
    ensures
        ({
            let r = <SockMap as vstd::std_specs::convert::TryFromSpec<MapHandle>>::try_from_spec(
                map,
            );
            &&& r is Ok <==> validation_error(map) is None
            &&& validation_error(map) is Some ==> r == Err::<SockMap, MapError>(
                validation_error(map)->Some_0,
            )
            &&& r is Ok ==> r->Ok_0.handle() == map
        }),
{
}

/// The error that building a view over `map` fails with, if any: checked in
/// turn, its type tag, its key width, its value width and that it is open.
pub open spec fn validation_error(map: MapHandle) -> Option<MapError> {
    if map.map_type != BPF_MAP_TYPE_SOCKMAP {
        Some(MapError::InvalidMapType { map_type: map.map_type })
    } else if map.key_size != 4 {
        Some(MapError::InvalidKeySize { size: map.key_size as usize, expected: 4 })
    } else if map.value_size != 4 {
        Some(MapError::InvalidValueSize { size: map.value_size as usize, expected: 4 })
    } else if map.fd is None {
        Some(MapError::MapNotLoaded)
    } else {
        None
    }
}

/// `r` is what a kernel call named `name` that returned `res` amounts to:
/// `Ok` for `Ok`, and a `SyscallError` carrying the code and the I/O error
/// for a failure.
pub open spec fn reports(r: Result<(), MapError>, res: SysResult<()>, name: Seq<char>) -> bool {
    match res {
        Ok(()) => r is Ok,
        Err((code, io_error)) => r is Err && is_syscall_error(r->Err_0, name, code, io_error),
    }
}

} // verus!
