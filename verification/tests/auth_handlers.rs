use collaboard::dto::{ApiResult, LoginPayload, LoginResponse, UserResponse};
use collaboard::error::Error;
use collaboard::handlers::auth::{login, register, who_am_i};
use collaboard::handlers::{Query, Reply, Step};
use collaboard::model::{NewUser, User};
use collaboard::password::hash_password;

fn ana(password: &str) -> User {
    User {
        id: 1,
        name: "Ana".into(),
        surname: "Anić".into(),
        email: "ana@example.com".into(),
        password: hash_password(password),
    }
}

fn payload(password: &str) -> LoginPayload {
    LoginPayload { email: "ana@example.com".into(), password: password.into() }
}

#[test]
fn login_steps() {
    let p = payload("secret1");
    assert_eq!(login(&p, &vec![]), Step::Run(Query::Connect));
    assert_eq!(login(&p, &vec![Reply::Failed]), Step::Finish(Err(Error::FailToGetPool)));
    assert_eq!(login(&p, &vec![Reply::Done]), Step::Run(Query::FindUserByEmail("ana@example.com".into())));
    assert_eq!(login(&p, &vec![Reply::Done, Reply::Failed]), Step::Finish(Err(Error::UserNotFound)));
    let found = vec![Reply::Done, Reply::User(ana("secret1"))];
    assert_eq!(login(&p, &found), Step::Run(Query::IssueToken("ana@example.com".into())));
    let mut issued = found.clone();
    issued.push(Reply::Text("tok.en.x".into()));
    assert_eq!(
        login(&p, &issued),
        Step::Finish(Ok(LoginResponse { token: "tok.en.x".into(), email: "ana@example.com".into() }))
    );
    let mut failed = found;
    failed.push(Reply::Failed);
    assert_eq!(login(&p, &failed), Step::Finish(Err(Error::TokenEncodingFail)));
}

#[test]
fn login_refuses_a_wrong_password_as_unknown_user() {
    let p = payload("secret2");
    assert_eq!(login(&p, &vec![Reply::Done, Reply::User(ana("secret1"))]), Step::Finish(Err(Error::UserNotFound)));
}

#[test]
fn login_refuses_a_bad_payload_before_anything_else() {
    let p = LoginPayload { email: "not-an-address".into(), password: "x".into() };
    assert_eq!(login(&p, &vec![]), Step::Finish(Err(Error::BadRequest)));
    let empty = LoginPayload { email: "ana@example.com".into(), password: "".into() };
    assert_eq!(login(&empty, &vec![Reply::Done]), Step::Finish(Err(Error::BadRequest)));
}

fn new_user() -> NewUser {
    NewUser { name: "Ana".into(), surname: "Anić".into(), email: "ana@example.com".into(), password: "secret1".into() }
}

#[test]
fn register_steps() {
    let u = new_user();
    assert_eq!(register(&u, &vec![]), Step::Run(Query::Connect));
    assert_eq!(register(&u, &vec![Reply::Failed]), Step::Finish(Err(Error::FailToGetPool)));
    let stored = NewUser { password: hash_password("secret1"), ..new_user() };
    assert_eq!(register(&u, &vec![Reply::Done]), Step::Run(Query::InsertUser(stored)));
    assert_eq!(register(&u, &vec![Reply::Done, Reply::Done]), Step::Finish(Ok(ApiResult { success: true })));
    assert_eq!(register(&u, &vec![Reply::Done, Reply::Failed]), Step::Finish(Err(Error::FailInsertDB)));
    let bad = NewUser { email: "ana".into(), ..new_user() };
    assert_eq!(register(&bad, &vec![]), Step::Finish(Err(Error::BadRequest)));
}

#[test]
fn registered_user_can_log_in() {
    let u = new_user();
    let stored = match register(&u, &vec![Reply::Done]) {
        Step::Run(Query::InsertUser(s)) => s,
        other => panic!("unexpected step {:?}", other),
    };
    let row = User { id: 9, name: stored.name, surname: stored.surname, email: stored.email, password: stored.password };
    let p = LoginPayload { email: u.email.clone(), password: u.password.clone() };
    assert_eq!(login(&p, &vec![Reply::Done, Reply::User(row)]), Step::Run(Query::IssueToken(u.email)));
}

#[test]
fn who_am_i_steps() {
    let email = "ana@example.com".to_string();
    assert_eq!(who_am_i(&email, &vec![]), Step::Run(Query::Connect));
    assert_eq!(who_am_i(&email, &vec![Reply::Failed]), Step::Finish(Err(Error::FailToGetPool)));
    assert_eq!(who_am_i(&email, &vec![Reply::Done]), Step::Run(Query::FindUserByEmail(email.clone())));
    assert_eq!(who_am_i(&email, &vec![Reply::Done, Reply::Done]), Step::Finish(Err(Error::UserNotFound)));
    assert_eq!(
        who_am_i(&email, &vec![Reply::Done, Reply::User(ana("x"))]),
        Step::Finish(Ok(UserResponse { name: "Ana".into(), surname: "Anić".into(), email: email.clone() }))
    );
}
