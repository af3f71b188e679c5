//! Request handling for an athletics points and user service: the decisions
//! behind each HTTP endpoint, the replies it sends, and the records it keeps.
//! The HTTP server, the database and the machine probes live in the
//! application crate, which hands this library plain values.

pub mod bcrypt;
pub mod reply;
pub mod identity;
pub mod models;
pub mod db_models;
pub mod req_models;
pub mod db;
pub mod controllers;
pub mod routes;
