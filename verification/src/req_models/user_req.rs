use vstd::prelude::*;

verus! {

/// A request to register a user.
#[derive(Debug)]
pub struct CreateUserRequest {
    pub first_name: String,
    pub last_name: String,
    pub user_name: String,
    pub email: String,
    pub phone: Option<String>,
    pub password: String,
}

/// What is shown of a user.
#[derive(Debug)]
pub struct UserResponse {
    pub first_name: String,
    pub last_name: String,
    pub user_name: String,
    pub email: String,
    pub phone: Option<String>,
}

/// A request to register by name and e-mail.
#[derive(Debug)]
pub struct RegisterUserSchema {
    pub name: String,
    pub email: String,
    pub password: String,
}

/// A request to log in by e-mail.
#[derive(Debug)]
pub struct LoginUserSchema {
    pub email: String,
    pub password: String,
}

} // verus!
