//! Calls on the `users` table.

pub mod users_db;
