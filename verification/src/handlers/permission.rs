//! Inviting users to a board, accepting invitations, and managing who may
//! use a board.
use vstd::prelude::*;
use crate::dto::{ApiResult, DeletePermissionParams, InvitationPayload, UserPermission};
use crate::error::Error;
use crate::handlers::{
    Abort, Query, Reply, Step, board_of, grants_owner_role, invitation_of, is_done, members_of, permission_of,
    reply_board, reply_grants_owner_role, reply_invitation, reply_members, reply_permission, reply_text, reply_time,
    reply_user, text_of, time_of, user_of,
};
use crate::handlers::auth::text_string_of;
use crate::invitation::{
    INVITATION_LIFETIME_MICROS, email_template_path, invitation_email, invitation_expiry,
    invitation_subject, render_invitation_email,
};
use crate::model::{Board, Invitation, NewInvitation, NewPermission, User};
use crate::validation::{spec_delete_permission_params_valid, spec_invitation_payload_valid};

verus! {

/// Inviting a user: the board's owner may, and so may a user holding the
/// Owner role on it; the invitation gets a fresh code, expires two days
/// after it is made, is stored, and is mailed to the invited user.
pub open spec fn create_invitation_next(email: String, payload: InvitationPayload, rs: Seq<Reply>, s: Step<Invitation>) -> bool {
    if !spec_invitation_payload_valid(payload) {
        s == Step::<Invitation>::Finish(Err(Error::BadRequest))
    } else if rs.len() == 0 {
        s == Step::<Invitation>::Run(Query::Connect)
    } else if !is_done(rs[0]) {
        s == Step::<Invitation>::Finish(Err(Error::FailToGetPool))
    } else if rs.len() == 1 {
        s == Step::<Invitation>::Run(Query::FindUserByEmail(email))
    } else {
        match user_of(rs[1]) {
            None => s == Step::<Invitation>::Finish(Err(Error::UserNotFound)),
            Some(issuer) => if rs.len() == 2 {
                s == Step::<Invitation>::Run(Query::FindUserByEmail(payload.user_email))
            } else {
                match user_of(rs[2]) {
                    None => s == Step::<Invitation>::Finish(Err(Error::UserNotFound)),
                    Some(invited) => if rs.len() == 3 {
                        s == Step::<Invitation>::Run(Query::FindBoard(payload.board_id))
                    } else {
                        match board_of(rs[3]) {
                            None => s == Step::<Invitation>::Finish(Err(Error::BoardNotFound)),
                            Some(b) => if issuer.id == b.owner_id {
                                invitation_steps_next(issuer, invited, b, payload, rs, 4, s)
                            } else if rs.len() == 4 {
                                s == Step::<Invitation>::Run(Query::FindPermission { user_id: issuer.id, board_id: b.id })
                            } else if grants_owner_role(rs[4]) {
                                invitation_steps_next(issuer, invited, b, payload, rs, 5, s)
                            } else {
                                s == Step::<Invitation>::Finish(Err(Error::PermissionDenied))
                            },
                        }
                    },
                }
            },
        }
    }
}

/// Making, storing and mailing the invitation once the issuer may manage
/// board `b`, the fresh code being the `k`-th reply.
pub open spec fn invitation_steps_next(
    issuer: User,
    invited: User,
    b: Board,
    payload: InvitationPayload,
    rs: Seq<Reply>,
    k: int,
    s: Step<Invitation>,
) -> bool {
    if rs.len() == k {
        s == Step::<Invitation>::Run(Query::NewInvitationCode)
    } else {
        match text_string_of(rs[k]) {
            None => s == Step::<Invitation>::Abort(Abort::UnexpectedReply),
            Some(code) => if rs.len() == k + 1 {
                s == Step::<Invitation>::Run(Query::LocalTime)
            } else {
                match time_of(rs[k + 1]) {
                    None => s == Step::<Invitation>::Abort(Abort::UnexpectedReply),
                    Some(now) => if now > i64::MAX - INVITATION_LIFETIME_MICROS {
                        s == Step::<Invitation>::Abort(Abort::TimeOverflow)
                    } else {
                        mail_invitation_next(
                            issuer.email@,
                            invited.email,
                            b.name@,
                            NewInvitation {
                                code,
                                role: payload.role,
                                expire: (now + INVITATION_LIFETIME_MICROS) as i64,
                                board_id: payload.board_id,
                                user_id: invited.id,
                            },
                            rs,
                            k + 2,
                            s,
                        )
                    },
                }
            },
        }
    }
}

/// Storing invitation `ni` and mailing it to `to`, once the invitation's
/// row is the `k`-th reply.
pub open spec fn mail_invitation_next(
    issuer: Seq<char>,
    to: String,
    board_name: Seq<char>,
    ni: NewInvitation,
    rs: Seq<Reply>,
    k: int,
    s: Step<Invitation>,
) -> bool {
    if rs.len() == k {
        s == Step::<Invitation>::Run(Query::InsertInvitation(ni))
    } else {
        match invitation_of(rs[k]) {
            None => s == Step::<Invitation>::Finish(Err(Error::FailInsertDB)),
            Some(inv) => if rs.len() == k + 1 {
                s matches Step::Run(Query::ReadFile(p)) && p@ == "./src/email_template.html"@
            } else {
                match text_of(rs[k + 1]) {
                    None => s == Step::<Invitation>::Abort(Abort::NoEmailTemplate),
                    Some(template) => if rs.len() == k + 2 {
                        s matches Step::Run(Query::SendEmail { to: t, subject, html }) && {
                            &&& t == to
                            &&& subject@ == "Board Invitation"@
                            &&& html@ == invitation_email(template, board_name, issuer, inv.role, inv.code@)
                        }
                    } else if is_done(rs[k + 2]) {
                        s == Step::<Invitation>::Finish(Ok(inv))
                    } else {
                        s == Step::<Invitation>::Abort(Abort::EmailNotSent)
                    },
                }
            },
        }
    }
}

fn invitation_steps(
    issuer: User,
    invited: User,
    board: Board,
    payload: &InvitationPayload,
    replies: &Vec<Reply>,
    k: usize,
) -> (s: Step<Invitation>)
    requires
        k <= replies@.len(),
    ensures
        invitation_steps_next(issuer, invited, board, *payload, replies@, k as int, s),
{
    if replies.len() == k {
        return Step::Run(Query::NewInvitationCode);
    }
    let code = match reply_text(&replies[k]) {
        Some(c) => c,
        None => {
            return Step::Abort(Abort::UnexpectedReply);
        },
    };
    if replies.len() == k + 1 {
        return Step::Run(Query::LocalTime);
    }
    let now = match reply_time(&replies[k + 1]) {
        Some(t) => t,
        None => {
            return Step::Abort(Abort::UnexpectedReply);
        },
    };
    let expire = match invitation_expiry(now) {
        Some(t) => t,
        None => {
            return Step::Abort(Abort::TimeOverflow);
        },
    };
    if replies.len() == k + 2 {
        return Step::Run(
            Query::InsertInvitation(
                NewInvitation { code, role: payload.role, expire, board_id: payload.board_id, user_id: invited.id },
            ),
        );
    }
    let inv = match reply_invitation(&replies[k + 2]) {
        Some(i) => i,
        None => {
            return Step::Finish(Err(Error::FailInsertDB));
        },
    };
    if replies.len() == k + 3 {
        return Step::Run(Query::ReadFile(email_template_path()));
    }
    let template = match reply_text(&replies[k + 3]) {
        Some(t) => t,
        None => {
            return Step::Abort(Abort::NoEmailTemplate);
        },
    };
    if replies.len() == k + 4 {
        let html = render_invitation_email(
            template.as_str(),
            board.name.as_str(),
            issuer.email.as_str(),
            inv.role,
            inv.code.as_str(),
        );
        return Step::Run(Query::SendEmail { to: invited.email, subject: invitation_subject(), html });
    }
    if matches!(replies[k + 4], Reply::Done) {
        Step::Finish(Ok(inv))
    } else {
        Step::Abort(Abort::EmailNotSent)
    }
}

/// The next step of `email` inviting the user that `payload` names.
pub fn create_invitation(email: &String, payload: &InvitationPayload, replies: &Vec<Reply>) -> (s: Step<Invitation>)
    ensures
        create_invitation_next(*email, *payload, replies@, s),
{
    if payload.validate().is_err() {
        return Step::Finish(Err(Error::BadRequest));
    }
    if replies.len() == 0 {
        return Step::Run(Query::Connect);
    }
    if !matches!(replies[0], Reply::Done) {
        return Step::Finish(Err(Error::FailToGetPool));
    }
    if replies.len() == 1 {
        return Step::Run(Query::FindUserByEmail(email.clone()));
    }
    let issuer = match reply_user(&replies[1]) {
        Some(u) => u,
        None => {
            return Step::Finish(Err(Error::UserNotFound));
        },
    };
    if replies.len() == 2 {
        return Step::Run(Query::FindUserByEmail(payload.user_email.clone()));
    }
    let invited = match reply_user(&replies[2]) {
        Some(u) => u,
        None => {
            return Step::Finish(Err(Error::UserNotFound));
        },
    };
    if replies.len() == 3 {
        return Step::Run(Query::FindBoard(payload.board_id));
    }
    let board = match reply_board(&replies[3]) {
        Some(b) => b,
        None => {
            return Step::Finish(Err(Error::BoardNotFound));
        },
    };
    if issuer.id == board.owner_id {
        return invitation_steps(issuer, invited, board, payload, replies, 4);
    }
    if replies.len() == 4 {
        return Step::Run(Query::FindPermission { user_id: issuer.id, board_id: board.id });
    }
    if reply_grants_owner_role(&replies[4]) {
        invitation_steps(issuer, invited, board, payload, replies, 5)
    } else {
        Step::Finish(Err(Error::PermissionDenied))
    }
}

/// Accepting an invitation: it must exist under the code, be addressed to
/// the user, and not have expired; then the user gets the offered role on
/// the board and the invitation is deleted.
pub open spec fn accept_invitation_next(email: String, code: String, rs: Seq<Reply>) -> Step<ApiResult> {
    if rs.len() == 0 {
        Step::Run(Query::Connect)
    } else if !is_done(rs[0]) {
        Step::Finish(Err(Error::FailToGetPool))
    } else if rs.len() == 1 {
        Step::Run(Query::FindUserByEmail(email))
    } else {
        match user_of(rs[1]) {
            None => Step::Finish(Err(Error::UserNotFound)),
            Some(u) => if rs.len() == 2 {
                Step::Run(Query::FindInvitationByCode(code))
            } else {
                match invitation_of(rs[2]) {
                    None => Step::Finish(Err(Error::InvitationNotFound)),
                    Some(inv) => if inv.code@ != code@ || inv.user_id != u.id {
                        Step::Finish(Err(Error::InvitationNotFound))
                    } else if rs.len() == 3 {
                        Step::Run(Query::UtcTime)
                    } else {
                        match time_of(rs[3]) {
                            None => Step::Abort(Abort::UnexpectedReply),
                            Some(now) => if inv.expire < now {
                                Step::Finish(Err(Error::InvitationExpired))
                            } else if rs.len() == 4 {
                                Step::Run(
                                    Query::InsertPermission(
                                        NewPermission { board_id: inv.board_id, user_id: u.id, role: inv.role },
                                    ),
                                )
                            } else if !is_done(rs[4]) {
                                Step::Finish(Err(Error::FailInsertDB))
                            } else if rs.len() == 5 {
                                Step::Run(Query::DeleteInvitation(inv.code))
                            } else {
                                Step::Finish(Ok(ApiResult { success: true }))
                            },
                        }
                    },
                }
            },
        }
    }
}

/// The next step of `email` accepting the invitation with `code`.
pub fn accept_invitation(email: &String, code: &String, replies: &Vec<Reply>) -> (s: Step<ApiResult>)
    ensures
        s == accept_invitation_next(*email, *code, replies@),
{
    if replies.len() == 0 {
        return Step::Run(Query::Connect);
    }
    if !matches!(replies[0], Reply::Done) {
        return Step::Finish(Err(Error::FailToGetPool));
    }
    if replies.len() == 1 {
        return Step::Run(Query::FindUserByEmail(email.clone()));
    }
    let user = match reply_user(&replies[1]) {
        Some(u) => u,
        None => {
            return Step::Finish(Err(Error::UserNotFound));
        },
    };
    if replies.len() == 2 {
        return Step::Run(Query::FindInvitationByCode(code.clone()));
    }
    let inv = match reply_invitation(&replies[2]) {
        Some(i) => i,
        None => {
            return Step::Finish(Err(Error::InvitationNotFound));
        },
    };
    if inv.code != *code || inv.user_id != user.id {
        return Step::Finish(Err(Error::InvitationNotFound));
    }
    if replies.len() == 3 {
        return Step::Run(Query::UtcTime);
    }
    let now = match reply_time(&replies[3]) {
        Some(t) => t,
        None => {
            return Step::Abort(Abort::UnexpectedReply);
        },
    };
    if inv.expire < now {
        return Step::Finish(Err(Error::InvitationExpired));
    }
    if replies.len() == 4 {
        return Step::Run(
            Query::InsertPermission(NewPermission { board_id: inv.board_id, user_id: user.id, role: inv.role }),
        );
    }
    if !matches!(replies[4], Reply::Done) {
        return Step::Finish(Err(Error::FailInsertDB));
    }
    if replies.len() == 5 {
        return Step::Run(Query::DeleteInvitation(inv.code));
    }
    Step::Finish(Ok(ApiResult { success: true }))
}

/// Changing a member's role: the board's owner may, and so may a user
/// holding the Owner role on it. (A missing member is answered as a failure
/// to reach the database.)
pub open spec fn change_permission_next(email: String, payload: InvitationPayload, rs: Seq<Reply>) -> Step<ApiResult> {
    if !spec_invitation_payload_valid(payload) {
        Step::Finish(Err(Error::BadRequest))
    } else if rs.len() == 0 {
        Step::Run(Query::Connect)
    } else if !is_done(rs[0]) {
        Step::Finish(Err(Error::FailToGetPool))
    } else if rs.len() == 1 {
        Step::Run(Query::FindUserByEmail(email))
    } else {
        match user_of(rs[1]) {
            None => Step::Finish(Err(Error::UserNotFound)),
            Some(u) => if rs.len() == 2 {
                Step::Run(Query::FindUserByEmail(payload.user_email))
            } else {
                match user_of(rs[2]) {
                    None => Step::Finish(Err(Error::FailToGetPool)),
                    Some(member) => if rs.len() == 3 {
                        Step::Run(Query::FindBoard(payload.board_id))
                    } else {
                        match board_of(rs[3]) {
                            None => Step::Finish(Err(Error::BoardNotFound)),
                            Some(b) => if u.id == b.owner_id {
                                update_role_next(b.id, member.id, payload.role, rs, 4)
                            } else if rs.len() == 4 {
                                Step::Run(Query::FindPermission { user_id: u.id, board_id: b.id })
                            } else if grants_owner_role(rs[4]) {
                                update_role_next(b.id, member.id, payload.role, rs, 5)
                            } else {
                                Step::Finish(Err(Error::PermissionDenied))
                            },
                        }
                    },
                }
            },
        }
    }
}

/// Setting the role of `user_id` on `board_id`, answered by the `k`-th reply.
pub open spec fn update_role_next(board_id: i32, user_id: i32, role: i32, rs: Seq<Reply>, k: int) -> Step<ApiResult> {
    if rs.len() == k {
        Step::Run(Query::UpdatePermissionRole { board_id, user_id, role })
    } else if !is_done(rs[k]) {
        Step::Finish(Err(Error::FailUpdateDB))
    } else {
        Step::Finish(Ok(ApiResult { success: true }))
    }
}

fn update_role(board_id: i32, user_id: i32, role: i32, replies: &Vec<Reply>, k: usize) -> (s: Step<ApiResult>)
    requires
        k <= replies@.len(),
    ensures
        s == update_role_next(board_id, user_id, role, replies@, k as int),
{
    if replies.len() == k {
        return Step::Run(Query::UpdatePermissionRole { board_id, user_id, role });
    }
    if !matches!(replies[k], Reply::Done) {
        return Step::Finish(Err(Error::FailUpdateDB));
    }
    Step::Finish(Ok(ApiResult { success: true }))
}

/// The next step of `email` changing a member's role as `payload` asks.
pub fn change_permission(email: &String, payload: &InvitationPayload, replies: &Vec<Reply>) -> (s: Step<ApiResult>)
    ensures
        s == change_permission_next(*email, *payload, replies@),
{
    if payload.validate().is_err() {
        return Step::Finish(Err(Error::BadRequest));
    }
    if replies.len() == 0 {
        return Step::Run(Query::Connect);
    }
    if !matches!(replies[0], Reply::Done) {
        return Step::Finish(Err(Error::FailToGetPool));
    }
    if replies.len() == 1 {
        return Step::Run(Query::FindUserByEmail(email.clone()));
    }
    let user = match reply_user(&replies[1]) {
        Some(u) => u,
        None => {
            return Step::Finish(Err(Error::UserNotFound));
        },
    };
    if replies.len() == 2 {
        return Step::Run(Query::FindUserByEmail(payload.user_email.clone()));
    }
    let member = match reply_user(&replies[2]) {
        Some(u) => u,
        None => {
            return Step::Finish(Err(Error::FailToGetPool));
        },
    };
    if replies.len() == 3 {
        return Step::Run(Query::FindBoard(payload.board_id));
    }
    let board = match reply_board(&replies[3]) {
        Some(b) => b,
        None => {
            return Step::Finish(Err(Error::BoardNotFound));
        },
    };
    if user.id == board.owner_id {
        return update_role(board.id, member.id, payload.role, replies, 4);
    }
    if replies.len() == 4 {
        return Step::Run(Query::FindPermission { user_id: user.id, board_id: board.id });
    }
    if reply_grants_owner_role(&replies[4]) {
        update_role(board.id, member.id, payload.role, replies, 5)
    } else {
        Step::Finish(Err(Error::PermissionDenied))
    }
}

/// Withdrawing a member's permission: the board's owner may, and so may a
/// user holding the Owner role on it.
pub open spec fn delete_permission_next(email: String, params: DeletePermissionParams, rs: Seq<Reply>) -> Step<ApiResult> {
    if !spec_delete_permission_params_valid(params) {
        Step::Finish(Err(Error::BadRequest))
    } else if rs.len() == 0 {
        Step::Run(Query::Connect)
    } else if !is_done(rs[0]) {
        Step::Finish(Err(Error::FailToGetPool))
    } else if rs.len() == 1 {
        Step::Run(Query::FindUserByEmail(email))
    } else {
        match user_of(rs[1]) {
            None => Step::Finish(Err(Error::UserNotFound)),
            Some(u) => if rs.len() == 2 {
                Step::Run(Query::FindUserByEmail(params.user_email))
            } else {
                match user_of(rs[2]) {
                    None => Step::Finish(Err(Error::UserNotFound)),
                    Some(member) => if rs.len() == 3 {
                        Step::Run(Query::FindBoard(params.board_id))
                    } else {
                        match board_of(rs[3]) {
                            None => Step::Finish(Err(Error::BoardNotFound)),
                            Some(b) => if u.id == b.owner_id {
                                withdraw_next(member.id, b.id, rs, 4)
                            } else if rs.len() == 4 {
                                Step::Run(Query::FindPermission { user_id: u.id, board_id: b.id })
                            } else if grants_owner_role(rs[4]) {
                                withdraw_next(member.id, b.id, rs, 5)
                            } else {
                                Step::Finish(Err(Error::PermissionDenied))
                            },
                        }
                    },
                }
            },
        }
    }
}

/// Deleting the permission of `user_id` on `board_id`, answered by the
/// `k`-th reply.
pub open spec fn withdraw_next(user_id: i32, board_id: i32, rs: Seq<Reply>, k: int) -> Step<ApiResult> {
    if rs.len() == k {
        Step::Run(Query::DeletePermission { user_id, board_id })
    } else if !is_done(rs[k]) {
        Step::Finish(Err(Error::FailDeleteDB))
    } else {
        Step::Finish(Ok(ApiResult { success: true }))
    }
}

fn withdraw(user_id: i32, board_id: i32, replies: &Vec<Reply>, k: usize) -> (s: Step<ApiResult>)
    requires
        k <= replies@.len(),
    ensures
        s == withdraw_next(user_id, board_id, replies@, k as int),
{
    if replies.len() == k {
        return Step::Run(Query::DeletePermission { user_id, board_id });
    }
    if !matches!(replies[k], Reply::Done) {
        return Step::Finish(Err(Error::FailDeleteDB));
    }
    Step::Finish(Ok(ApiResult { success: true }))
}

/// The next step of `email` withdrawing the permission `params` names.
pub fn delete_permission(email: &String, params: &DeletePermissionParams, replies: &Vec<Reply>) -> (s: Step<ApiResult>)
    ensures
        s == delete_permission_next(*email, *params, replies@),
{
    if params.validate().is_err() {
        return Step::Finish(Err(Error::BadRequest));
    }
    if replies.len() == 0 {
        return Step::Run(Query::Connect);
    }
    if !matches!(replies[0], Reply::Done) {
        return Step::Finish(Err(Error::FailToGetPool));
    }
    if replies.len() == 1 {
        return Step::Run(Query::FindUserByEmail(email.clone()));
    }
    let user = match reply_user(&replies[1]) {
        Some(u) => u,
        None => {
            return Step::Finish(Err(Error::UserNotFound));
        },
    };
    if replies.len() == 2 {
        return Step::Run(Query::FindUserByEmail(params.user_email.clone()));
    }
    let member = match reply_user(&replies[2]) {
        Some(u) => u,
        None => {
            return Step::Finish(Err(Error::UserNotFound));
        },
    };
    if replies.len() == 3 {
        return Step::Run(Query::FindBoard(params.board_id));
    }
    let board = match reply_board(&replies[3]) {
        Some(b) => b,
        None => {
            return Step::Finish(Err(Error::BoardNotFound));
        },
    };
    if user.id == board.owner_id {
        return withdraw(member.id, board.id, replies, 4);
    }
    if replies.len() == 4 {
        return Step::Run(Query::FindPermission { user_id: user.id, board_id: board.id });
    }
    if reply_grants_owner_role(&replies[4]) {
        withdraw(member.id, board.id, replies, 5)
    } else {
        Step::Finish(Err(Error::PermissionDenied))
    }
}

/// Listing a board's members: its owner and its members may.
pub open spec fn get_permission_next(email: String, board_id: i32, rs: Seq<Reply>, s: Step<Vec<UserPermission>>) -> bool {
    if rs.len() == 0 {
        s == Step::<Vec<UserPermission>>::Run(Query::Connect)
    } else if !is_done(rs[0]) {
        s == Step::<Vec<UserPermission>>::Finish(Err(Error::FailToGetPool))
    } else if rs.len() == 1 {
        s == Step::<Vec<UserPermission>>::Run(Query::FindUserByEmail(email))
    } else {
        match user_of(rs[1]) {
            None => s == Step::<Vec<UserPermission>>::Finish(Err(Error::UserNotFound)),
            Some(u) => if rs.len() == 2 {
                s == Step::<Vec<UserPermission>>::Run(Query::FindBoard(board_id))
            } else {
                match board_of(rs[2]) {
                    None => s == Step::<Vec<UserPermission>>::Finish(Err(Error::BoardNotFound)),
                    Some(b) => if b.owner_id == u.id {
                        list_members_next(board_id, rs, 3, s)
                    } else if rs.len() == 3 {
                        s == Step::<Vec<UserPermission>>::Run(Query::FindPermission { user_id: u.id, board_id: b.id })
                    } else {
                        match permission_of(rs[3]) {
                            None => s == Step::<Vec<UserPermission>>::Finish(Err(Error::PermissionDenied)),
                            Some(_) => list_members_next(board_id, rs, 4, s),
                        }
                    },
                }
            },
        }
    }
}

/// Loading the members of `board_id`, whose list is the `k`-th reply.
pub open spec fn list_members_next(board_id: i32, rs: Seq<Reply>, k: int, s: Step<Vec<UserPermission>>) -> bool {
    if rs.len() == k {
        s == Step::<Vec<UserPermission>>::Run(Query::LoadBoardMembers(board_id))
    } else {
        match members_of(rs[k]) {
            None => s == Step::<Vec<UserPermission>>::Finish(Err(Error::UserNotFound)),
            Some(ms) => s matches Step::Finish(Ok(v)) && v@ == ms,
        }
    }
}

fn list_members(board_id: i32, replies: &Vec<Reply>, k: usize) -> (s: Step<Vec<UserPermission>>)
    requires
        k <= replies@.len(),
    ensures
        list_members_next(board_id, replies@, k as int, s),
{
    if replies.len() == k {
        return Step::Run(Query::LoadBoardMembers(board_id));
    }
    match reply_members(&replies[k]) {
        None => Step::Finish(Err(Error::UserNotFound)),
        Some(ms) => Step::Finish(Ok(ms)),
    }
}

/// The next step of listing the members of `board_id` for `email`.
pub fn get_permission(email: &String, board_id: i32, replies: &Vec<Reply>) -> (s: Step<Vec<UserPermission>>)
    ensures
        get_permission_next(*email, board_id, replies@, s),
{
    if replies.len() == 0 {
        return Step::Run(Query::Connect);
    }
    if !matches!(replies[0], Reply::Done) {
        return Step::Finish(Err(Error::FailToGetPool));
    }
    if replies.len() == 1 {
        return Step::Run(Query::FindUserByEmail(email.clone()));
    }
    let user = match reply_user(&replies[1]) {
        Some(u) => u,
        None => {
            return Step::Finish(Err(Error::UserNotFound));
        },
    };
    if replies.len() == 2 {
        return Step::Run(Query::FindBoard(board_id));
    }
    let board = match reply_board(&replies[2]) {
        Some(b) => b,
        None => {
            return Step::Finish(Err(Error::BoardNotFound));
        },
    };
    if board.owner_id == user.id {
        return list_members(board_id, replies, 3);
    }
    if replies.len() == 3 {
        return Step::Run(Query::FindPermission { user_id: user.id, board_id: board.id });
    }
    match reply_permission(&replies[3]) {
        None => Step::Finish(Err(Error::PermissionDenied)),
        Some(_) => list_members(board_id, replies, 4),
    }
}

} // verus!
