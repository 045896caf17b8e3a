use vstd::prelude::*;

verus! {

/// `std::io::Error` is carried through unchanged, as the kernel reported it.
#[verifier::external_type_specification]
#[verifier::external_body]
pub struct ExIoError(std::io::Error);

/// The ways in which building a socket map view, or using one, can fail.
#[derive(Debug)]
pub enum MapError {
    /// The handle's type tag is not the socket map type.
    InvalidMapType { map_type: u32 },
    /// The handle's key width is not that of a `u32` index.
    InvalidKeySize { size: usize, expected: usize },
    /// The handle's value width is not that of a raw descriptor.
    InvalidValueSize { size: usize, expected: usize },
    /// The handle has no open descriptor.
    MapNotLoaded,
    /// The index is not below the map's capacity.
    OutOfBounds { index: u32, max_entries: u32 },
    /// A kernel call failed; `call` names it, `code` and `io_error` are what it returned.
    SyscallError { call: String, code: i64, io_error: std::io::Error },
}

/// `e` reports that the kernel call named `name` failed with `code` and `io_error`.
pub open spec fn is_syscall_error(
    e: MapError,
    name: Seq<char>,
    code: i64,
    io_error: std::io::Error,
) -> bool {
    match e {
        MapError::SyscallError { call, code: c, io_error: ie } => call@ == name && c == code
            && ie == io_error,
        _ => false,
    }
}

} // verus!
