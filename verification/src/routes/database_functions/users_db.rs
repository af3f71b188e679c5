use vstd::prelude::*;

verus! {

/// Whether inserting a user succeeded, given the number of rows that the
/// insert affected or the error that stopped it: it did when exactly one row
/// was inserted.
pub fn user_inserted(rows_affected: Result<u64, String>) -> (r: bool)
    ensures
        r == (rows_affected matches Ok(n) && n == 1),
{
    match rows_affected {
        Err(_) => false,
        Ok(n) => n == 1,
    }
}

} // verus!
