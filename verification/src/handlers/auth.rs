//! Logging in, registering, and asking who one is.
use vstd::prelude::*;
use crate::dto::{ApiResult, LoginPayload, LoginResponse, UserResponse};
use crate::error::Error;
use crate::handlers::{Query, Reply, Step, is_done, user_of, reply_user, reply_text};
use crate::model::NewUser;
use crate::password::{hash_password, password_hash, password_matches};
use crate::validation::{spec_login_payload_valid, spec_new_user_valid};

verus! {

pub open spec fn text_string_of(r: Reply) -> Option<String> {
    match r {
        Reply::Text(t) => Some(t),
        _ => None,
    }
}

/// Login: check the payload, find the user by address, compare the stored
/// password with the hash of the given one, and issue a token.
pub open spec fn login_next(payload: LoginPayload, rs: Seq<Reply>) -> Step<LoginResponse> {
    if !spec_login_payload_valid(payload) {
        Step::Finish(Err(Error::BadRequest))
    } else if rs.len() == 0 {
        Step::Run(Query::Connect)
    } else if !is_done(rs[0]) {
        Step::Finish(Err(Error::FailToGetPool))
    } else if rs.len() == 1 {
        Step::Run(Query::FindUserByEmail(payload.email))
    } else {
        match user_of(rs[1]) {
            None => Step::Finish(Err(Error::UserNotFound)),
            Some(u) => if u.password@ != password_hash(payload.password@) {
                Step::Finish(Err(Error::UserNotFound))
            } else if rs.len() == 2 {
                Step::Run(Query::IssueToken(payload.email))
            } else {
                match text_string_of(rs[2]) {
                    Some(token) => Step::Finish(Ok(LoginResponse { token, email: u.email })),
                    None => Step::Finish(Err(Error::TokenEncodingFail)),
                }
            },
        }
    }
}

/// The next step of logging in with `payload`.
pub fn login(payload: &LoginPayload, replies: &Vec<Reply>) -> (s: Step<LoginResponse>)
    ensures
        s == login_next(*payload, replies@),
{
    if payload.validate().is_err() {
        return Step::Finish(Err(Error::BadRequest));
    }
    if replies.len() == 0 {
        return Step::Run(Query::Connect);
    }
    if !matches!(replies[0], Reply::Done) {
        return Step::Finish(Err(Error::FailToGetPool));
    }
    if replies.len() == 1 {
        return Step::Run(Query::FindUserByEmail(payload.email.clone()));
    }
    let user = match reply_user(&replies[1]) {
        Some(u) => u,
        None => {
            return Step::Finish(Err(Error::UserNotFound));
        },
    };
    if !password_matches(&user.password, payload.password.as_str()) {
        return Step::Finish(Err(Error::UserNotFound));
    }
    if replies.len() == 2 {
        return Step::Run(Query::IssueToken(payload.email.clone()));
    }
    match reply_text(&replies[2]) {
        Some(token) => Step::Finish(Ok(LoginResponse { token, email: user.email })),
        None => Step::Finish(Err(Error::TokenEncodingFail)),
    }
}

/// Registration: check the payload, then store the user with the hash of
/// the password in place of the password.
pub open spec fn register_next(user: NewUser, rs: Seq<Reply>, s: Step<ApiResult>) -> bool {
    if !spec_new_user_valid(user) {
        s == Step::<ApiResult>::Finish(Err(Error::BadRequest))
    } else if rs.len() == 0 {
        s == Step::<ApiResult>::Run(Query::Connect)
    } else if !is_done(rs[0]) {
        s == Step::<ApiResult>::Finish(Err(Error::FailToGetPool))
    } else if rs.len() == 1 {
        s matches Step::Run(Query::InsertUser(stored)) && {
            &&& stored.name == user.name
            &&& stored.surname == user.surname
            &&& stored.email == user.email
            &&& stored.password@ == password_hash(user.password@)
            &&& stored.password@.len() == 64
        }
    } else if is_done(rs[1]) {
        s == Step::<ApiResult>::Finish(Ok(ApiResult { success: true }))
    } else {
        s == Step::<ApiResult>::Finish(Err(Error::FailInsertDB))
    }
}

/// The next step of registering `user`.
pub fn register(user: &NewUser, replies: &Vec<Reply>) -> (s: Step<ApiResult>)
    ensures
        register_next(*user, replies@, s),
{
    if user.validate().is_err() {
        return Step::Finish(Err(Error::BadRequest));
    }
    if replies.len() == 0 {
        return Step::Run(Query::Connect);
    }
    if !matches!(replies[0], Reply::Done) {
        return Step::Finish(Err(Error::FailToGetPool));
    }
    if replies.len() == 1 {
        let stored = NewUser {
            name: user.name.clone(),
            surname: user.surname.clone(),
            email: user.email.clone(),
            password: hash_password(user.password.as_str()),
        };
        return Step::Run(Query::InsertUser(stored));
    }
    if matches!(replies[1], Reply::Done) {
        Step::Finish(Ok(ApiResult { success: true }))
    } else {
        Step::Finish(Err(Error::FailInsertDB))
    }
}

/// Who am I: the name, surname and address of the user the token names.
pub open spec fn who_am_i_next(email: String, rs: Seq<Reply>) -> Step<UserResponse> {
    if rs.len() == 0 {
        Step::Run(Query::Connect)
    } else if !is_done(rs[0]) {
        Step::Finish(Err(Error::FailToGetPool))
    } else if rs.len() == 1 {
        Step::Run(Query::FindUserByEmail(email))
    } else {
        match user_of(rs[1]) {
            None => Step::Finish(Err(Error::UserNotFound)),
            Some(u) => Step::Finish(Ok(UserResponse { name: u.name, surname: u.surname, email: u.email })),
        }
    }
}

/// The next step of telling the bearer of a token for `email` who they are.
pub fn who_am_i(email: &String, replies: &Vec<Reply>) -> (s: Step<UserResponse>)
    ensures
        s == who_am_i_next(*email, replies@),
{
    if replies.len() == 0 {
        return Step::Run(Query::Connect);
    }
    if !matches!(replies[0], Reply::Done) {
        return Step::Finish(Err(Error::FailToGetPool));
    }
    if replies.len() == 1 {
        return Step::Run(Query::FindUserByEmail(email.clone()));
    }
    match reply_user(&replies[1]) {
        None => Step::Finish(Err(Error::UserNotFound)),
        Some(u) => Step::Finish(Ok(UserResponse { name: u.name, surname: u.surname, email: u.email })),
    }
}

} // verus!
