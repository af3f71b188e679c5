use vstd::prelude::*;

use crate::reply::{reply2, Reply};

verus! {

/// HTTP 500, the status of a failed database call.
pub const INTERNAL_SERVER_ERROR: u16 = 500;

/// Turns the text of a database error into the status and message sent back.
pub fn map_db_err(err: String) -> (r: (u16, String))
    ensures
        r.0 == INTERNAL_SERVER_ERROR,
        r.1@ == err@,
{
    (INTERNAL_SERVER_ERROR, err)
}

/// The reply to a request whose database call failed with message `e`.
pub open spec fn database_error_view(e: Seq<char>) -> (u16, Seq<(Seq<char>, Seq<char>)>) {
    (INTERNAL_SERVER_ERROR, seq![("status"@, "error"@), ("message"@, "Database error: "@ + e)])
}

/// The reply to a request whose database call failed with message `e`:
/// status 500 and `{"status": "error", "message": "Database error: <e>"}`.
pub fn database_error_reply(e: &str) -> (r: Reply)
    ensures
        r@ == database_error_view(e@),
{
    let message = String::from_str("Database error: ").concat(e);
    reply2(INTERNAL_SERVER_ERROR, "status", "error", "message", message.as_str())
}

} // verus!
