//! The decisions behind the current HTTP handlers, and the records they
//! move between the data file, the database and the replies.

pub mod database_functions;
pub mod iaaf_points;
pub mod system_info;
pub mod users;
