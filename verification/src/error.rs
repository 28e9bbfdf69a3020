//! Why a statement against a table fails.

use vstd::prelude::*;

verus! {

/// A statement that the table refused.
#[derive(Clone, Copy, Debug, PartialEq, Eq, Structural)]
pub enum StoreError {
    /// An insert under a key that a row already has.
    DuplicateKey,
    /// An update or delete that names a row which is not there.
    NoSuchRow,
    /// An insert into a table that has handed out its last key.
    OutOfKeys,
}

} // verus!
