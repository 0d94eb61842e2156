//! The rule of the metadata store that does not depend on the store
//! itself: only a read-write transaction takes writes.

use vstd::prelude::*;
use crate::error::TransactionError;

verus! {

/// What a transaction on the store may do.
#[derive(Debug, Clone, Copy, PartialEq, Eq)]
pub enum TxnMode {
    ReadWrite,
    ReadOnly,
}

/// The reason given when a write is tried in a read-only transaction.
pub open spec fn read_only_write_reason() -> Seq<char> {
    "Tried to write to a ReadOnly Transaction"@
}

/// Whether a transaction in `mode` may write: a read-write one may, a
/// read-only one is refused with a [`TransactionError`].
pub fn check_write(mode: TxnMode) -> (r: Result<(), TransactionError>)
    ensures
        r is Ok <==> mode == TxnMode::ReadWrite,
        r matches Err(e) ==> e.0@ == read_only_write_reason(),
{
    match mode {
        TxnMode::ReadWrite => Ok(()),
        TxnMode::ReadOnly => Err(TransactionError("Tried to write to a ReadOnly Transaction".to_string())),
    }
}

} // verus!
