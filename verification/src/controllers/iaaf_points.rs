use vstd::prelude::*;

use crate::reply::{reply1, Reply};

verus! {

/// HTTP 404, which the points search answers a malformed query with.
pub const NOT_FOUND: u16 = 404;

/// The number of rows above which the points table counts as loaded.
pub const POINTS_TABLE_FULL: i64 = 200000;

/// Whether the points table, holding `count` rows, is already loaded, so that
/// the data file must not be read into it again.
pub fn points_already_loaded(count: i64) -> (r: bool)
    ensures
        r == (count > POINTS_TABLE_FULL),
{
    count > POINTS_TABLE_FULL
}

/// The page text that loading the points table answers with, given the
/// number of rows that the table held: "Records already exist." when it was
/// loaded already, otherwise "Success" once the rows are inserted.
pub fn load_page_text(count: i64) -> (r: &'static str)
    ensures
        count > POINTS_TABLE_FULL ==> r@ == "Records already exist."@,
        count <= POINTS_TABLE_FULL ==> r@ == "Success"@,
{
    if points_already_loaded(count) {
        "Records already exist."
    } else {
        "Success"
    }
}

/// Whether a points search names what to search by in exactly one way: by
/// a mark or by a points value, not both and not neither.
pub fn points_query_valid(has_mark: bool, has_points: bool) -> (r: bool)
    ensures
        r == (has_mark != has_points),
{
    !((has_mark && has_points) || (!has_mark && !has_points))
}

/// The reply to a malformed points search: status 404 and
/// `{"status": "Bad Request"}`.
pub fn bad_points_query_reply() -> (r: Reply)
    ensures
        r@ == (NOT_FOUND, seq![("status"@, "Bad Request"@)]),
{
    reply1(NOT_FOUND, "status", "Bad Request")
}

} // verus!
