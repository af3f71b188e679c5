use vstd::prelude::*;

verus! {

/// A contact record: who a user is and how to reach them.
#[derive(Debug, PartialEq, Eq, Clone)]
pub struct User {
    contact_id: uuid::Uuid,
    first_name: String,
    last_name: String,
    email: String,
    phone: Option<String>,
    password: String,
}

/// What a contact record holds, as mathematical values.
pub struct ContactView {
    pub contact_id: uuid::Uuid,
    pub first_name: Seq<char>,
    pub last_name: Seq<char>,
    pub email: Seq<char>,
    pub phone: Option<Seq<char>>,
    pub password: Seq<char>,
}

/// The view of an optional string.
pub open spec fn opt_view(s: Option<String>) -> Option<Seq<char>> {
    match s {
        Some(v) => Some(v@),
        None => None,
    }
}

impl View for User {
    type V = ContactView;

    closed spec fn view(&self) -> ContactView {
        ContactView {
            contact_id: self.contact_id,
            first_name: self.first_name@,
            last_name: self.last_name@,
            email: self.email@,
            phone: opt_view(self.phone),
            password: self.password@,
        }
    }
}

impl User {
    /// A contact record made of the given fields.
    pub fn new(
        contact_id: uuid::Uuid,
        first_name: String,
        last_name: String,
        email: String,
        phone: Option<String>,
        password: String,
    ) -> (u: Self)
        ensures
            u@ == (ContactView {
                contact_id,
                first_name: first_name@,
                last_name: last_name@,
                email: email@,
                phone: opt_view(phone),
                password: password@,
            }),
    {
        Self { contact_id, first_name, last_name, email, phone, password }
    }
}

} // verus!
