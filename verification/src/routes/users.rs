use vstd::prelude::*;

verus! {

/// A login request: a user name and a password.
#[derive(Debug)]
pub struct LoginRequest {
    user_name: String,
    password: String,
}

impl View for LoginRequest {
    type V = (Seq<char>, Seq<char>);

    /// The user name and the password.
    closed spec fn view(&self) -> (Seq<char>, Seq<char>) {
        (self.user_name@, self.password@)
    }
}

impl LoginRequest {
    /// A login request for the given user name and password.
    pub fn new(user_name: String, password: String) -> (r: Self)
        ensures
            r@ == (user_name@, password@),
    {
        LoginRequest { user_name, password }
    }
}

} // verus!
