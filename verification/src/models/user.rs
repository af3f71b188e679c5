use vstd::prelude::*;

verus! {

/// A user as stored in the `users` table. The password field holds the
/// bcrypt hash of the user's password, never the password itself.
#[derive(Default, Debug, Clone, PartialEq, Eq)]
pub struct User {
    pub id: uuid::Uuid,
    pub active: bool,
    pub first_name: String,
    pub last_name: String,
    pub user_name: String,
    pub email: String,
    pub phone: Option<String>,
    password: String,
}

/// What a user record holds, as mathematical values.
pub struct UserView {
    pub id: uuid::Uuid,
    pub active: bool,
    pub first_name: Seq<char>,
    pub last_name: Seq<char>,
    pub user_name: Seq<char>,
    pub email: Seq<char>,
    pub phone: Option<Seq<char>>,
    pub password_hash: Seq<char>,
}

impl View for User {
    type V = UserView;

    closed spec fn view(&self) -> UserView {
        UserView {
            id: self.id,
            active: self.active,
            first_name: self.first_name@,
            last_name: self.last_name@,
            user_name: self.user_name@,
            email: self.email@,
            phone: match self.phone {
                Some(p) => Some(p@),
                None => None,
            },
            password_hash: self.password@,
        }
    }
}

/// The session hash of a user whose stored password hash is `password_hash`:
/// the UTF-8 bytes of that hash.
pub open spec fn session_hash_of(password_hash: Seq<char>) -> Seq<u8> {
    vstd::utf8::encode_utf8(password_hash)
}

impl User {
    /// Assembles a user from the columns of its row.
    pub fn from_row(
        id: uuid::Uuid,
        active: bool,
        first_name: String,
        last_name: String,
        user_name: String,
        email: String,
        phone: Option<String>,
        password: String,
    ) -> (u: User)
        ensures
            u@ == (UserView {
                id,
                active,
                first_name: first_name@,
                last_name: last_name@,
                user_name: user_name@,
                email: email@,
                phone: match phone {
                    Some(p) => Some(p@),
                    None => None,
                },
                password_hash: password@,
            }),
    {
        User { id, active, first_name, last_name, user_name, email, phone, password }
    }

    /// The stored password hash.
    pub fn get_hash(&self) -> (r: &String)
        ensures
            r@ == self@.password_hash,
    {
        &self.password
    }

    /// The identifier by which a login session names this user.
    pub fn id(&self) -> (r: uuid::Uuid)
        ensures
            r == self@.id,
    {
        self.id
    }

    /// The bytes that a login session is tied to: those of the stored
    /// password hash, so that a session ends when the password changes.
    pub fn session_auth_hash(&self) -> (r: &[u8])
        ensures
            r@ == session_hash_of(self@.password_hash),
    {
        self.password.as_str().as_bytes()
    }
}

/// Two users have the same session hash exactly when they have the same
/// stored password hash: changing the password invalidates every session
/// tied to the old one.
pub proof fn lemma_session_hash_follows_password(a: User, b: User)
    ensures
        (session_hash_of(a@.password_hash) == session_hash_of(b@.password_hash)) <==> (
        a@.password_hash == b@.password_hash),
{
    vstd::utf8::encode_utf8_decode_utf8(a@.password_hash);
    vstd::utf8::encode_utf8_decode_utf8(b@.password_hash);
}

} // verus!
