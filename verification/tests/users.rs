use aths_server::bcrypt::{hash_password, is_printable_ascii, password_matches};
use aths_server::controllers::users::{
    create_user_after_insert, create_user_after_lookup, login_after_lookup, login_after_token,
    token_error_reply, user_details_reply, users_list_reply, CreateUserStep, LoginRequest,
    LoginStep,
};
use aths_server::db::{database_error_reply, map_db_err};
use aths_server::models::user::User;
use aths_server::reply::Reply;
use aths_server::req_models::user_req::CreateUserRequest;
use aths_server::routes::database_functions::users_db::user_inserted;

fn body(r: &Reply) -> Vec<(&str, &str)> {
    r.body.iter().map(|(k, v)| (k.as_str(), v.as_str())).collect()
}

fn request(password: &str) -> CreateUserRequest {
    CreateUserRequest {
        first_name: "Ada".to_string(),
        last_name: "Lovelace".to_string(),
        user_name: "ada".to_string(),
        email: "ada@example.com".to_string(),
        phone: Some("555-0100".to_string()),
        password: password.to_string(),
    }
}

fn stored_user(id: u128, hash: &str) -> User {
    User::from_row(
        uuid::Uuid::from_u128(id),
        true,
        "Ada".to_string(),
        "Lovelace".to_string(),
        "ada".to_string(),
        "ada@example.com".to_string(),
        None,
        hash.to_string(),
    )
}

#[test]
fn hashed_password_verifies() {
    let h = hash_password("correct horse");
    assert!(h.starts_with("$2b$10$"));
    assert_eq!(h.len(), 60);
    assert!(is_printable_ascii(&h));
    assert!(password_matches("correct horse", &h));
    assert!(!password_matches("correct horsf", &h));
}

#[test]
fn hash_differs_from_password() {
    let h = hash_password("pw");
    assert_ne!(h, "pw");
    assert!(!password_matches("pw", "pw"));
}

#[test]
fn known_bcrypt_hash_verifies() {
    let h = "$2y$05$bvIG6Nmid91Mu9RcmmWZfO5HJIMCT8riNW0hEp8f6/FuA2/mHZFpe";
    assert!(password_matches("password", h));
    assert!(!password_matches("Password", h));
}

#[test]
fn control_characters_match_nothing() {
    assert!(!is_printable_ascii("$2b$10$\n"));
    assert!(!is_printable_ascii("\u{80}"));
    assert!(is_printable_ascii(" ~\u{7f}"));
    assert!(!password_matches("x", "$2b$10$\u{1}bcdefghijklmnopqrstuv"));
}

#[test]
fn register_then_login() {
    let step = create_user_after_lookup(request("s3cret"), Ok(None));
    let row = match step {
        CreateUserStep::Insert(row) => row,
        CreateUserStep::Respond(r) => panic!("unexpected reply {:?}", r),
    };
    assert_eq!(row.user_name, "ada");
    assert_eq!(row.first_name, "Ada");
    assert_eq!(row.last_name, "Lovelace");
    assert_eq!(row.email, "ada@example.com");
    assert_eq!(row.phone.as_deref(), Some("555-0100"));
    assert_ne!(row.password_hash, "s3cret");
    let user = stored_user(7, &row.password_hash);
    let login = LoginRequest::new("ada".to_string(), "s3cret".to_string());
    match login_after_lookup(&login, Ok(Some(user))) {
        LoginStep::IssueToken(id) => assert_eq!(id, uuid::Uuid::from_u128(7)),
        LoginStep::Respond(r) => panic!("unexpected reply {:?}", r),
    }
}

#[test]
fn wrong_password_is_refused() {
    let h = hash_password("s3cret");
    let login = LoginRequest::new("ada".to_string(), "guess".to_string());
    match login_after_lookup(&login, Ok(Some(stored_user(1, &h)))) {
        LoginStep::Respond(r) => {
            assert_eq!(r.status, 400);
            assert_eq!(body(&r), vec![("status", "fail"), ("message", "Invalid email or password")]);
        },
        LoginStep::IssueToken(_) => panic!("wrong password accepted"),
    }
}

#[test]
fn unknown_user_is_refused() {
    let login = LoginRequest::new("nobody".to_string(), "x".to_string());
    assert_eq!(login.user_name(), "nobody");
    match login_after_lookup(&login, Ok(None)) {
        LoginStep::Respond(r) => {
            assert_eq!(r.status, 400);
            assert_eq!(body(&r), vec![("status", "Error user not found.")]);
        },
        LoginStep::IssueToken(_) => panic!("unknown user accepted"),
    }
}

#[test]
fn login_database_error() {
    let login = LoginRequest::new("ada".to_string(), "x".to_string());
    match login_after_lookup(&login, Err("connection refused".to_string())) {
        LoginStep::Respond(r) => {
            assert_eq!(r.status, 500);
            assert_eq!(
                body(&r),
                vec![("status", "error"), ("message", "Database error: connection refused")]
            );
        },
        LoginStep::IssueToken(_) => panic!("error accepted"),
    }
}

#[test]
fn login_token_replies() {
    let ok = login_after_token(Ok("abc.def".to_string()));
    assert_eq!(ok.status, 200);
    assert_eq!(body(&ok), vec![("status", "success"), ("access_token", "abc.def")]);
    let err = login_after_token(Err("bad key".to_string()));
    assert_eq!(err.status, 500);
    assert_eq!(body(&err), vec![("status", "error"), ("message", "error generating token: bad key")]);
    let direct = token_error_reply("x");
    assert_eq!(body(&direct), vec![("status", "error"), ("message", "error generating token: x")]);
}

#[test]
fn taken_user_name_is_not_inserted() {
    let step = create_user_after_lookup(request("pw"), Ok(Some(stored_user(2, "$2b$10$x"))));
    match step {
        CreateUserStep::Respond(r) => {
            assert_eq!(r.status, 200);
            assert_eq!(body(&r), vec![("status", "User Already Exists")]);
        },
        CreateUserStep::Insert(_) => panic!("taken name inserted"),
    }
}

#[test]
fn registration_database_error() {
    match create_user_after_lookup(request("pw"), Err("timeout".to_string())) {
        CreateUserStep::Respond(r) => {
            assert_eq!(r.status, 500);
            assert_eq!(body(&r), vec![("status", "error"), ("message", "Database error: timeout")]);
        },
        CreateUserStep::Insert(_) => panic!("inserted after an error"),
    }
}

#[test]
fn insert_replies() {
    let ok = create_user_after_insert(Ok(()));
    assert_eq!(ok.status, 200);
    assert_eq!(body(&ok), vec![("status", "OK"), ("Message", "User Created")]);
    let err = create_user_after_insert(Err("duplicate key".to_string()));
    assert_eq!(err.status, 200);
    assert_eq!(body(&err), vec![("status", "Error inserting")]);
}

#[test]
fn user_inserted_needs_one_row() {
    assert!(user_inserted(Ok(1)));
    assert!(!user_inserted(Ok(0)));
    assert!(!user_inserted(Ok(2)));
    assert!(!user_inserted(Err("e".to_string())));
}

#[test]
fn details_and_list_replies() {
    let none = user_details_reply(Ok(None));
    assert_eq!((none.status, body(&none)), (200, vec![("status", "great Successs")]));
    let some = user_details_reply(Ok(Some(stored_user(3, "h"))));
    assert_eq!((some.status, body(&some)), (200, vec![("status", "Not Found")]));
    let err = user_details_reply(Err("e".to_string()));
    assert_eq!((err.status, body(&err)), (500, vec![("status", "error"), ("message", "Database error: e")]));
    let list = users_list_reply();
    assert_eq!((list.status, body(&list)), (200, vec![("status", "ok")]));
}

#[test]
fn database_errors() {
    assert_eq!(map_db_err("boom".to_string()), (500, "boom".to_string()));
    let r = database_error_reply("");
    assert_eq!(body(&r), vec![("status", "error"), ("message", "Database error: ")]);
}

#[test]
fn hash_has_bcrypt_shape() {
    let h = hash_password("$2b$10$");
    let chars: Vec<char> = h.chars().collect();
    assert_eq!(chars.len(), 60);
    assert_eq!(&h[..7], "$2b$10$");
    assert!(chars[7..]
        .iter()
        .all(|c| *c == '.' || *c == '/' || c.is_ascii_alphanumeric()));
    assert!(password_matches("$2b$10$", &h));
}

#[test]
fn stored_hash_is_not_the_password() {
    match create_user_after_lookup(request("plain text"), Ok(None)) {
        CreateUserStep::Insert(row) => {
            assert_ne!(row.password_hash, "plain text");
            assert!(password_matches("plain text", &row.password_hash));
        },
        CreateUserStep::Respond(r) => panic!("unexpected reply {:?}", r),
    }
}

#[test]
fn taken_name_leaves_table_unchanged() {
    let mut names = vec!["ada".to_string(), "bob".to_string()];
    let found = names.contains(&"ada".to_string());
    let lookup = if found { Ok(Some(stored_user(9, "h"))) } else { Ok(None) };
    if let CreateUserStep::Insert(row) = create_user_after_lookup(request("pw"), lookup) {
        names.push(row.user_name);
    }
    assert_eq!(names, vec!["ada", "bob"]);
}
