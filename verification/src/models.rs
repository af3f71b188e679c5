//! The user record as the service reads it from the `users` table.

pub mod user;
