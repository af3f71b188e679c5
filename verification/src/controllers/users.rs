use vstd::prelude::*;

use crate::bcrypt::{
    bcrypt_hash_shape, bcrypt_verifies, hash_password, password_matches, printable_ascii,
};
use crate::db::{database_error_reply, database_error_view, INTERNAL_SERVER_ERROR};
use crate::models::user::User;
use crate::reply::{reply1, reply2, Reply};
use crate::req_models::user_req::CreateUserRequest;

verus! {

/// HTTP 200.
pub const OK: u16 = 200;

/// HTTP 400.
pub const BAD_REQUEST: u16 = 400;

/// The view of a reply: its status and its fields.
pub type ReplyView = (u16, Seq<(Seq<char>, Seq<char>)>);

/// A login request: a user name and a password.
#[derive(Debug)]
pub struct LoginRequest {
    user_name: String,
    password: String,
}

impl View for LoginRequest {
    type V = (Seq<char>, Seq<char>);

    /// The user name and the password.
    closed spec fn view(&self) -> (Seq<char>, Seq<char>) {
        (self.user_name@, self.password@)
    }
}

impl LoginRequest {
    /// A login request for the given user name and password.
    pub fn new(user_name: String, password: String) -> (r: Self)
        ensures
            r@ == (user_name@, password@),
    {
        LoginRequest { user_name, password }
    }

    /// The user name to look up.
    pub fn user_name(&self) -> (r: &String)
        ensures
            r@ == self@.0,
    {
        &self.user_name
    }
}

// ---------------------------------------------------------------------------
// Listing users
/// The reply to a request for the list of users: `{"status": "ok"}`.
pub fn users_list_reply() -> (r: Reply)
    ensures
        r@ == (OK, seq![("status"@, "ok"@)]),
{
    reply1(OK, "status", "ok")
}

// ---------------------------------------------------------------------------
// Registering a user
/// The row that registration inserts: the request's fields and the bcrypt
/// hash of its password in place of the password.
#[derive(Debug)]
pub struct NewUser {
    pub user_name: String,
    pub first_name: String,
    pub last_name: String,
    pub email: String,
    pub phone: Option<String>,
    pub password_hash: String,
}

/// What registration does after looking up the requested user name.
#[derive(Debug)]
pub enum CreateUserStep {
    /// Send this reply; nothing is inserted.
    Respond(Reply),
    /// Insert this row, then reply as `create_user_after_insert` says.
    Insert(NewUser),
}

/// Whether `row` is a row that registration may insert for `req`: the same
/// names, e-mail and phone, and a stored hash that the request's password
/// logs in with, which has the shape of a bcrypt hash.
pub open spec fn is_registration_row(req: CreateUserRequest, row: NewUser) -> bool {
    &&& row.user_name@ == req.user_name@
    &&& row.first_name@ == req.first_name@
    &&& row.last_name@ == req.last_name@
    &&& row.email@ == req.email@
    &&& row.phone == req.phone
    &&& bcrypt_hash_shape(row.password_hash@)
    &&& login_accepts(req.password@, row.password_hash@)
}

/// The reply to registering a user name that is taken.
pub open spec fn user_exists_view() -> ReplyView {
    (OK, seq![("status"@, "User Already Exists"@)])
}

/// Whether `s` is what registration does for `req`, given the lookup result
/// `lookup`.
pub open spec fn is_create_user_step(
    req: CreateUserRequest,
    lookup: Result<Option<User>, String>,
    s: CreateUserStep,
) -> bool {
    match lookup {
        Err(e) => s matches CreateUserStep::Respond(r) && r@ == database_error_view(e@),
        Ok(Some(_)) => s matches CreateUserStep::Respond(r) && r@ == user_exists_view(),
        Ok(None) => s matches CreateUserStep::Insert(row) && is_registration_row(req, row),
    }
}

/// First step of registration, given the result of looking the requested
/// user name up: a database error is answered with status 500, a taken name
/// with `{"status": "User Already Exists"}`, and a free name leads to
/// inserting the request with its password hashed.
pub fn create_user_after_lookup(req: CreateUserRequest, lookup: Result<Option<User>, String>) -> (s:
    CreateUserStep)
    ensures
        is_create_user_step(req, lookup, s),
{
    match lookup {
        Err(e) => CreateUserStep::Respond(database_error_reply(e.as_str())),
        Ok(Some(_)) => CreateUserStep::Respond(reply1(OK, "status", "User Already Exists")),
        Ok(None) => {
            let password_hash = hash_password(req.password.as_str());
            CreateUserStep::Insert(
                NewUser {
                    user_name: req.user_name,
                    first_name: req.first_name,
                    last_name: req.last_name,
                    email: req.email,
                    phone: req.phone,
                    password_hash,
                },
            )
        },
    }
}

/// Last step of registration, given whether the insert succeeded:
/// `{"status": "OK", "Message": "User Created"}` or
/// `{"status": "Error inserting"}`, both with status 200.
pub fn create_user_after_insert(inserted: Result<(), String>) -> (r: Reply)
    ensures
        inserted is Ok ==> r@ == (OK, seq![("status"@, "OK"@), ("Message"@, "User Created"@)]),
        inserted is Err ==> r@ == (OK, seq![("status"@, "Error inserting"@)]),
{
    match inserted {
        Ok(()) => reply2(OK, "status", "OK", "Message", "User Created"),
        Err(_) => reply1(OK, "status", "Error inserting"),
    }
}

// ---------------------------------------------------------------------------
// Logging in
/// Whether a password logs in against a stored hash: the hash is a bcrypt
/// hash string and bcrypt verifies the password against it.
pub open spec fn login_accepts(password: Seq<char>, stored_hash: Seq<char>) -> bool {
    printable_ascii(stored_hash) && bcrypt_verifies(password, stored_hash)
}

/// What login does after looking the user up.
#[derive(Debug)]
pub enum LoginStep {
    /// Send this reply.
    Respond(Reply),
    /// The password is right: issue an access token for this user.
    IssueToken(uuid::Uuid),
}

/// The reply to a login for an unknown user name.
pub open spec fn user_not_found_view() -> ReplyView {
    (BAD_REQUEST, seq![("status"@, "Error user not found."@)])
}

/// The reply to a login with a wrong password.
pub open spec fn wrong_password_view() -> ReplyView {
    (BAD_REQUEST, seq![("status"@, "fail"@), ("message"@, "Invalid email or password"@)])
}

/// Whether `s` is what login does for a request with password `password`,
/// given the lookup result `lookup`.
pub open spec fn is_login_step(
    password: Seq<char>,
    lookup: Result<Option<User>, String>,
    s: LoginStep,
) -> bool {
    match lookup {
        Err(e) => s matches LoginStep::Respond(r) && r@ == database_error_view(e@),
        Ok(None) => s matches LoginStep::Respond(r) && r@ == user_not_found_view(),
        Ok(Some(u)) => if login_accepts(password, u@.password_hash) {
            s == LoginStep::IssueToken(u@.id)
        } else {
            s matches LoginStep::Respond(r) && r@ == wrong_password_view()
        },
    }
}

/// First step of login, given the result of looking the user name up: a
/// database error is answered with status 500, an unknown name with 400 and
/// `{"status": "Error user not found."}`, a wrong password with 400 and
/// `{"status": "fail", "message": "Invalid email or password"}`, and the
/// right password leads to issuing a token for the user.
pub fn login_after_lookup(req: &LoginRequest, lookup: Result<Option<User>, String>) -> (s:
    LoginStep)
    ensures
        is_login_step(req@.1, lookup, s),
{
    match lookup {
        Err(e) => LoginStep::Respond(database_error_reply(e.as_str())),
        Ok(None) => LoginStep::Respond(reply1(BAD_REQUEST, "status", "Error user not found.")),
        Ok(Some(user)) => {
            if password_matches(req.password.as_str(), user.get_hash().as_str()) {
                LoginStep::IssueToken(user.id())
            } else {
                LoginStep::Respond(
                    reply2(BAD_REQUEST, "status", "fail", "message", "Invalid email or password"),
                )
            }
        },
    }
}

/// The reply to a token that could not be made, with error message `e`:
/// status 500 and `{"status": "error", "message": "error generating token: <e>"}`.
pub fn token_error_reply(e: &str) -> (r: Reply)
    ensures
        r@ == (INTERNAL_SERVER_ERROR, seq![
            ("status"@, "error"@),
            ("message"@, "error generating token: "@ + e@),
        ]),
{
    let message = String::from_str("error generating token: ").concat(e);
    reply2(INTERNAL_SERVER_ERROR, "status", "error", "message", message.as_str())
}

/// Last step of login, given the token made for the user or the error that
/// prevented it: `{"status": "success", "access_token": <token>}` with status
/// 200, or the reply of `token_error_reply`.
pub fn login_after_token(token: Result<String, String>) -> (r: Reply)
    ensures
        match token {
            Ok(t) => r@ == (OK, seq![("status"@, "success"@), ("access_token"@, t@)]),
            Err(e) => r@ == (INTERNAL_SERVER_ERROR, seq![
                ("status"@, "error"@),
                ("message"@, "error generating token: "@ + e@),
            ]),
        },
{
    match token {
        Ok(t) => reply2(OK, "status", "success", "access_token", t.as_str()),
        Err(e) => token_error_reply(e.as_str()),
    }
}

// ---------------------------------------------------------------------------
// User details
/// The reply to a request for a user's details, given the result of looking
/// the identifier up. As the service answers it: status 200 with
/// `{"status": "great Successs"}` when no user has the identifier and
/// `{"status": "Not Found"}` when one has; a database error gets status 500.
pub fn user_details_reply(lookup: Result<Option<User>, String>) -> (r: Reply)
    ensures
        match lookup {
            Err(e) => r@ == database_error_view(e@),
            Ok(None) => r@ == (OK, seq![("status"@, "great Successs"@)]),
            Ok(Some(_)) => r@ == (OK, seq![("status"@, "Not Found"@)]),
        },
{
    match lookup {
        Err(e) => database_error_reply(e.as_str()),
        Ok(None) => reply1(OK, "status", "great Successs"),
        Ok(Some(_)) => reply1(OK, "status", "Not Found"),
    }
}

// ---------------------------------------------------------------------------
// Laws
/// Registration never stores the password itself: the stored string is a
/// bcrypt hash that the password verifies against, and it differs from the
/// password whenever the password does not itself have the shape of a
/// bcrypt hash.
pub proof fn lemma_stored_hash_is_not_the_password(req: CreateUserRequest, row: NewUser)
    requires
        is_registration_row(req, row),
    ensures
        bcrypt_verifies(req.password@, row.password_hash@),
        !bcrypt_hash_shape(req.password@) ==> row.password_hash@ != req.password@,
{
}

/// Registration inserts every free name: when the lookup finds no user, the
/// step inserts a row with the request's user name, names, e-mail and phone
/// (absent or not), and a stored hash of 60 characters that the request's
/// password verifies against.
pub proof fn lemma_free_name_is_inserted(req: CreateUserRequest, s: CreateUserStep)
    requires
        is_create_user_step(req, Ok(None), s),
    ensures
        s is Insert,
        s matches CreateUserStep::Insert(row) ==> {
            &&& row.user_name@ == req.user_name@
            &&& row.first_name@ == req.first_name@
            &&& row.last_name@ == req.last_name@
            &&& row.email@ == req.email@
            &&& row.phone == req.phone
            &&& row.password_hash@.len() == 60
            &&& printable_ascii(row.password_hash@)
            &&& bcrypt_verifies(req.password@, row.password_hash@)
        },
{
}

/// A taken name is refused and nothing is inserted: the reply is status 200
/// with `{"status": "User Already Exists"}`, whoever holds the name.
pub proof fn lemma_taken_name_is_refused(req: CreateUserRequest, holder: User, s: CreateUserStep)
    requires
        is_create_user_step(req, Ok(Some(holder)), s),
    ensures
        s matches CreateUserStep::Respond(r) && r@ == (200u16, seq![
            ("status"@, "User Already Exists"@),
        ]),
{
}

/// A failed lookup inserts nothing and answers status 500 with the
/// database's message.
pub proof fn lemma_lookup_error_inserts_nothing(
    req: CreateUserRequest,
    e: String,
    s: CreateUserStep,
)
    requires
        is_create_user_step(req, Err(e), s),
    ensures
        s matches CreateUserStep::Respond(r) && r@ == (500u16, seq![
            ("status"@, "error"@),
            ("message"@, "Database error: "@ + e@),
        ]),
{
}

/// For a found user, login issues a token exactly when the stored hash is
/// printable ASCII and bcrypt verifies the password against it, whatever
/// the bcrypt variant and cost of the hash; the token is for that user, and
/// every refusal is status 400 with the wrong-password reply.
pub proof fn lemma_login_issues_token_iff_password_verifies(
    password: Seq<char>,
    stored: User,
    s: LoginStep,
)
    requires
        is_login_step(password, Ok(Some(stored)), s),
    ensures
        (s is IssueToken) <==> (printable_ascii(stored@.password_hash) && bcrypt_verifies(
            password,
            stored@.password_hash,
        )),
        s matches LoginStep::IssueToken(id) ==> id == stored@.id,
        !(s is IssueToken) ==> (s matches LoginStep::Respond(r) && r@ == (400u16, seq![
            ("status"@, "fail"@),
            ("message"@, "Invalid email or password"@),
        ])),
{
}

/// An unknown user name never gets a token: the reply is status 400 with
/// `{"status": "Error user not found."}`.
pub proof fn lemma_unknown_user_is_refused(password: Seq<char>, s: LoginStep)
    requires
        is_login_step(password, Ok(None), s),
    ensures
        s matches LoginStep::Respond(r) && r@ == (400u16, seq![
            ("status"@, "Error user not found."@),
        ]),
{
}

/// Whether no user name occurs twice in `names`.
pub open spec fn names_distinct(names: Seq<Seq<char>>) -> bool {
    forall|i: int, j: int|
        0 <= i < names.len() && 0 <= j < names.len() && i != j ==> #[trigger] names[i]
            != #[trigger] names[j]
}

/// The user names of the table after registration took step `s` on it.
pub open spec fn names_after(names: Seq<Seq<char>>, s: CreateUserStep) -> Seq<Seq<char>> {
    match s {
        CreateUserStep::Insert(row) => names.push(row.user_name@),
        CreateUserStep::Respond(_) => names,
    }
}

/// Registration keeps user names distinct: when the names in the table are
/// distinct and the lookup finds a user exactly when the requested name is
/// in the table (no other write in between), the names after the step are
/// still distinct.
pub proof fn lemma_registration_keeps_names_distinct(
    names: Seq<Seq<char>>,
    req: CreateUserRequest,
    lookup: Result<Option<User>, String>,
    s: CreateUserStep,
)
    requires
        names_distinct(names),
        lookup matches Ok(found) ==> (found is Some <==> names.contains(req.user_name@)),
        is_create_user_step(req, lookup, s),
    ensures
        names_distinct(names_after(names, s)),
{
    if let CreateUserStep::Insert(row) = s {
        let after = names.push(row.user_name@);
        assert forall|i: int, j: int|
            0 <= i < after.len() && 0 <= j < after.len() && i != j implies #[trigger] after[i]
            != #[trigger] after[j] by {
            if i == names.len() as int {
                assert(names[j] == after[j]);
            } else if j == names.len() as int {
                assert(names[i] == after[i]);
            } else {
                assert(names[i] == after[i] && names[j] == after[j]);
            }
        }
    }
}

/// A user registered with a password logs in with that password: when the
/// row that registration inserted is what the lookup finds, login issues a
/// token for that user.
pub proof fn lemma_registered_password_logs_in(
    req: CreateUserRequest,
    row: NewUser,
    stored: User,
    login: LoginRequest,
    s: LoginStep,
)
    requires
        is_registration_row(req, row),
        stored@.password_hash == row.password_hash@,
        login@.1 == req.password@,
        is_login_step(login@.1, Ok(Some(stored)), s),
    ensures
        s == LoginStep::IssueToken(stored@.id),
{
}

/// A login is refused exactly when the password does not log in against the
/// stored hash; then nothing is issued and the reply is the wrong-password
/// reply.
pub proof fn lemma_wrong_password_refused(password: Seq<char>, stored: User, s: LoginStep)
    requires
        is_login_step(password, Ok(Some(stored)), s),
    ensures
        !(s is IssueToken) <==> !login_accepts(password, stored@.password_hash),
        !login_accepts(password, stored@.password_hash) ==> (s matches LoginStep::Respond(r)
            && r@ == wrong_password_view()),
{
}

} // verus!
