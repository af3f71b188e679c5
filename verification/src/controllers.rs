//! The decisions behind the HTTP handlers, taken on the values that the
//! application fetched, and the replies they send.

pub mod iaaf_points;
pub mod users;
