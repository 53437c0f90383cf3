//! The error taxonomy: one error value carrying its stage and a
//! human-readable message.

use vstd::prelude::*;

verus! {

/// The stage a failure belongs to. Parse and option-combination errors come
/// before any connection attempt; fetch errors are the only kind a backend
/// policy may recover from.
#[derive(Clone, Copy, Debug, PartialEq, Eq, Structural)]
pub enum ErrorKind {
    Parse,
    Connect,
    Enumerate,
    Fetch,
    Io,
}

/// An error of the inventory engine.
#[derive(Debug, Clone)]
pub struct InventoryError {
    pub kind: ErrorKind,
    pub msg: String,
}

impl InventoryError {
    /// Builds an error of the given stage.
    pub fn new(kind: ErrorKind, msg: String) -> (r: InventoryError)
        ensures
            r.kind == kind,
            r.msg@ == msg@,
    {
        InventoryError { kind, msg }
    }

    /// The message, for display outside the library.
    pub fn message(&self) -> (r: &String)
        ensures
            r@ == self.msg@,
    {
        &self.msg
    }
}

} // verus!
