//! Records in the shapes of the database tables.

pub mod iaaf_points;
pub mod todo;
pub mod user;
