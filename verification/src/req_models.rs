//! The bodies of the requests that the user endpoints accept.

pub mod user_req;
