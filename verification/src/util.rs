//! Reading small binary files — certificate and key material — fully into
//! memory.

use vstd::prelude::*;

use crate::error::{ErrorKind, InventoryError};

verus! {

/// Relies on fs_err::read, a thin wrapper over std's file reading whose
/// errors name the offending path: it reads the whole file at `path` into
/// memory, and on a missing or unreadable file it fails with the I/O
/// error's message. What comes back depends on the file system, so nothing
/// more is claimed of the bytes.
#[verifier::external_body]
fn read_file_bytes(path: &str) -> (r: Result<Vec<u8>, String>) {
    match fs_err::read(path) {
        Ok(b) => Ok(b),
        Err(e) => Err(format!("{}", e)),
    }
}

/// Reads the file at `path` fully into memory: no partial reads, no
/// streaming. Every failure is an I/O error, surfaced before any
/// connection attempt.
pub fn load_binary_file(path: &str) -> (r: Result<Vec<u8>, InventoryError>)
    ensures
        r matches Err(e) ==> e.kind == ErrorKind::Io,
{
    match read_file_bytes(path) {
        Ok(b) => Ok(b),
        Err(m) => Err(InventoryError::new(ErrorKind::Io, m)),
    }
}

} // verus!
