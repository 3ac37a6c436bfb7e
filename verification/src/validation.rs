//! The checks a request's payload must pass before it is acted on.
use vstd::prelude::*;
use vstd::string::StrSliceExecFns;
use crate::dto::{BoardPayload, DeletePermissionParams, InvitationPayload, LoginPayload};
use crate::error::Error;
use crate::model::NewUser;

verus! {

/// Whether `s` is an e-mail address in the sense of the HTML5 form rules
/// that the `validator` crate implements.
pub uninterp spec fn valid_email(s: Seq<char>) -> bool;

/// `validator::validate_email`. The contract names the result and states
/// the one fact its source shows up front: an address without `@` fails.
#[verifier::external_body]
pub(crate) fn validate_email(s: &str) -> (b: bool)
    ensures
        b == valid_email(s@),
        b ==> s@.contains('@'),
{
    validator::validate_email(s)
}

/// Whether `s` has at least `min` characters (the `length(min = ..)` rule,
/// which counts characters).
pub fn has_min_length(s: &str, min: usize) -> (b: bool)
    ensures
        b == (s@.len() >= min),
{
    s.unicode_len() >= min
}

pub open spec fn spec_login_payload_valid(p: LoginPayload) -> bool {
    valid_email(p.email@) && p.password@.len() >= 1
}

pub open spec fn spec_new_user_valid(u: NewUser) -> bool {
    &&& u.name@.len() >= 1
    &&& u.surname@.len() >= 1
    &&& valid_email(u.email@)
    &&& u.password@.len() >= 1
}

pub open spec fn spec_board_payload_valid(p: BoardPayload) -> bool {
    p.name@.len() >= 1
}

pub open spec fn spec_invitation_payload_valid(p: InvitationPayload) -> bool {
    valid_email(p.user_email@) && p.board_id >= 0 && p.role >= 0
}

pub open spec fn spec_delete_permission_params_valid(p: DeletePermissionParams) -> bool {
    valid_email(p.user_email@) && p.board_id >= 0
}

/// `Ok` when `valid` holds, else the error every handler answers a payload
/// that fails its checks with.
pub open spec fn checked(valid: bool) -> Result<(), Error> {
    if valid {
        Ok(())
    } else {
        Err(Error::BadRequest)
    }
}

impl LoginPayload {
    /// The address must be an e-mail address and the password non-empty.
    pub fn validate(&self) -> (r: Result<(), Error>)
        ensures
            r == checked(spec_login_payload_valid(*self)),
    {
        if validate_email(self.email.as_str()) && has_min_length(self.password.as_str(), 1) {
            Ok(())
        } else {
            Err(Error::BadRequest)
        }
    }
}

impl NewUser {
    /// Name, surname and password must be non-empty and the address an
    /// e-mail address.
    pub fn validate(&self) -> (r: Result<(), Error>)
        ensures
            r == checked(spec_new_user_valid(*self)),
    {
        if has_min_length(self.name.as_str(), 1) && has_min_length(self.surname.as_str(), 1)
            && validate_email(self.email.as_str()) && has_min_length(self.password.as_str(), 1) {
            Ok(())
        } else {
            Err(Error::BadRequest)
        }
    }
}

impl BoardPayload {
    /// The name must be non-empty.
    pub fn validate(&self) -> (r: Result<(), Error>)
        ensures
            r == checked(spec_board_payload_valid(*self)),
    {
        if has_min_length(self.name.as_str(), 1) {
            Ok(())
        } else {
            Err(Error::BadRequest)
        }
    }
}

impl InvitationPayload {
    /// The address must be an e-mail address; board and role not negative.
    pub fn validate(&self) -> (r: Result<(), Error>)
        ensures
            r == checked(spec_invitation_payload_valid(*self)),
    {
        if validate_email(self.user_email.as_str()) && self.board_id >= 0 && self.role >= 0 {
            Ok(())
        } else {
            Err(Error::BadRequest)
        }
    }
}

impl DeletePermissionParams {
    /// The address must be an e-mail address; the board not negative.
    pub fn validate(&self) -> (r: Result<(), Error>)
        ensures
            r == checked(spec_delete_permission_params_valid(*self)),
    {
        if validate_email(self.user_email.as_str()) && self.board_id >= 0 {
            Ok(())
        } else {
            Err(Error::BadRequest)
        }
    }
}

} // verus!
