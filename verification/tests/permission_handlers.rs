use collaboard::dto::{ApiResult, DeletePermissionParams, InvitationPayload, UserPermission};
use collaboard::error::Error;
use collaboard::handlers::permission::{
    accept_invitation, change_permission, create_invitation, delete_permission, get_permission,
};
use collaboard::handlers::{Abort, Query, Reply, Step};
use collaboard::model::{Board, Invitation, NewInvitation, NewPermission, Permission, User};

fn user(id: i32, email: &str) -> User {
    User { id, name: "N".into(), surname: "S".into(), email: email.into(), password: "h".into() }
}

fn board(id: i32, owner_id: i32) -> Board {
    Board { id, name: "Plans".into(), path: "./boards/u.json".into(), owner_id }
}

fn with(rs: &Vec<Reply>, r: Reply) -> Vec<Reply> {
    let mut v = rs.clone();
    v.push(r);
    v
}

fn invitation(code: &str, user_id: i32, expire: i64) -> Invitation {
    Invitation { id: 3, code: code.into(), role: 1, expire, user_id, board_id: 11 }
}

#[test]
fn create_invitation_steps() {
    let email = "ana@example.com".to_string();
    let p = InvitationPayload { user_email: "bo@example.com".into(), board_id: 11, role: 1 };
    assert_eq!(
        create_invitation(&email, &InvitationPayload { role: -1, ..p.clone() }, &vec![]),
        Step::Finish(Err(Error::BadRequest))
    );
    let rs = vec![];
    assert_eq!(create_invitation(&email, &p, &rs), Step::Run(Query::Connect));
    assert_eq!(create_invitation(&email, &p, &with(&rs, Reply::Failed)), Step::Finish(Err(Error::FailToGetPool)));
    let rs = with(&rs, Reply::Done);
    assert_eq!(create_invitation(&email, &p, &rs), Step::Run(Query::FindUserByEmail(email.clone())));
    assert_eq!(create_invitation(&email, &p, &with(&rs, Reply::Failed)), Step::Finish(Err(Error::UserNotFound)));
    let rs = with(&rs, Reply::User(user(4, "ana@example.com")));
    assert_eq!(create_invitation(&email, &p, &rs), Step::Run(Query::FindUserByEmail("bo@example.com".into())));
    assert_eq!(create_invitation(&email, &p, &with(&rs, Reply::Failed)), Step::Finish(Err(Error::UserNotFound)));
    let rs = with(&rs, Reply::User(user(5, "bo@example.com")));
    assert_eq!(create_invitation(&email, &p, &rs), Step::Run(Query::FindBoard(11)));
    assert_eq!(create_invitation(&email, &p, &with(&rs, Reply::Failed)), Step::Finish(Err(Error::BoardNotFound)));
    let other_board = with(&rs, Reply::Board(board(11, 7)));
    assert_eq!(
        create_invitation(&email, &p, &other_board),
        Step::Run(Query::FindPermission { user_id: 4, board_id: 11 })
    );
    assert_eq!(
        create_invitation(&email, &p, &with(&other_board, Reply::Failed)),
        Step::Finish(Err(Error::PermissionDenied))
    );
    assert_eq!(
        create_invitation(&email, &p, &with(&other_board, Reply::Permission(Permission { board_id: 11, user_id: 4, role: 1 }))),
        Step::Finish(Err(Error::PermissionDenied))
    );
    assert_eq!(
        create_invitation(&email, &p, &with(&other_board, Reply::Permission(Permission { board_id: 11, user_id: 4, role: 2 }))),
        Step::Run(Query::NewInvitationCode)
    );
    let rs = with(&rs, Reply::Board(board(11, 4)));
    assert_eq!(create_invitation(&email, &p, &rs), Step::Run(Query::NewInvitationCode));
    assert_eq!(create_invitation(&email, &p, &with(&rs, Reply::Done)), Step::Abort(Abort::UnexpectedReply));
    let rs = with(&rs, Reply::Text("Ab3dE6gH".into()));
    assert_eq!(create_invitation(&email, &p, &rs), Step::Run(Query::LocalTime));
    assert_eq!(create_invitation(&email, &p, &with(&rs, Reply::Done)), Step::Abort(Abort::UnexpectedReply));
    assert_eq!(create_invitation(&email, &p, &with(&rs, Reply::Time(i64::MAX))), Step::Abort(Abort::TimeOverflow));
    let rs = with(&rs, Reply::Time(1_000));
    assert_eq!(
        create_invitation(&email, &p, &rs),
        Step::Run(Query::InsertInvitation(NewInvitation {
            code: "Ab3dE6gH".into(),
            role: 1,
            expire: 172_800_001_000,
            board_id: 11,
            user_id: 5
        }))
    );
    assert_eq!(create_invitation(&email, &p, &with(&rs, Reply::Failed)), Step::Finish(Err(Error::FailInsertDB)));
    let inv = invitation("Ab3dE6gH", 5, 172_800_001_000);
    let rs = with(&rs, Reply::Invitation(inv.clone()));
    assert_eq!(create_invitation(&email, &p, &rs), Step::Run(Query::ReadFile("./src/email_template.html".into())));
    assert_eq!(create_invitation(&email, &p, &with(&rs, Reply::Failed)), Step::Abort(Abort::NoEmailTemplate));
    let rs = with(&rs, Reply::Text("{{issuer_name}}|{{board_name}}|{{board_role}}|{{invitation_link}}".into()));
    assert_eq!(
        create_invitation(&email, &p, &rs),
        Step::Run(Query::SendEmail {
            to: "bo@example.com".into(),
            subject: "Board Invitation".into(),
            html: "ana@example.com|Plans|Editor|http://127.0.0.1:8080/invitation/Ab3dE6gH".into()
        })
    );
    assert_eq!(create_invitation(&email, &p, &with(&rs, Reply::Failed)), Step::Abort(Abort::EmailNotSent));
    assert_eq!(create_invitation(&email, &p, &with(&rs, Reply::Done)), Step::Finish(Ok(inv)));
}

#[test]
fn accept_invitation_steps() {
    let email = "bo@example.com".to_string();
    let code = "Ab3dE6gH".to_string();
    let rs = vec![];
    assert_eq!(accept_invitation(&email, &code, &rs), Step::Run(Query::Connect));
    assert_eq!(accept_invitation(&email, &code, &with(&rs, Reply::Failed)), Step::Finish(Err(Error::FailToGetPool)));
    let rs = with(&rs, Reply::Done);
    assert_eq!(accept_invitation(&email, &code, &rs), Step::Run(Query::FindUserByEmail(email.clone())));
    assert_eq!(accept_invitation(&email, &code, &with(&rs, Reply::Failed)), Step::Finish(Err(Error::UserNotFound)));
    let rs = with(&rs, Reply::User(user(5, "bo@example.com")));
    assert_eq!(accept_invitation(&email, &code, &rs), Step::Run(Query::FindInvitationByCode(code.clone())));
    assert_eq!(
        accept_invitation(&email, &code, &with(&rs, Reply::Failed)),
        Step::Finish(Err(Error::InvitationNotFound))
    );
    assert_eq!(
        accept_invitation(&email, &code, &with(&rs, Reply::Invitation(invitation("Ab3dE6gH", 6, 10)))),
        Step::Finish(Err(Error::InvitationNotFound))
    );
    assert_eq!(
        accept_invitation(&email, &code, &with(&rs, Reply::Invitation(invitation("other", 5, 10)))),
        Step::Finish(Err(Error::InvitationNotFound))
    );
    let rs = with(&rs, Reply::Invitation(invitation("Ab3dE6gH", 5, 10)));
    assert_eq!(accept_invitation(&email, &code, &rs), Step::Run(Query::UtcTime));
    assert_eq!(accept_invitation(&email, &code, &with(&rs, Reply::Done)), Step::Abort(Abort::UnexpectedReply));
    assert_eq!(
        accept_invitation(&email, &code, &with(&rs, Reply::Time(11))),
        Step::Finish(Err(Error::InvitationExpired))
    );
    let rs = with(&rs, Reply::Time(10));
    assert_eq!(
        accept_invitation(&email, &code, &rs),
        Step::Run(Query::InsertPermission(NewPermission { board_id: 11, user_id: 5, role: 1 }))
    );
    assert_eq!(accept_invitation(&email, &code, &with(&rs, Reply::Failed)), Step::Finish(Err(Error::FailInsertDB)));
    let rs = with(&rs, Reply::Done);
    assert_eq!(accept_invitation(&email, &code, &rs), Step::Run(Query::DeleteInvitation(code.clone())));
    assert_eq!(accept_invitation(&email, &code, &with(&rs, Reply::Done)), Step::Finish(Ok(ApiResult { success: true })));
    assert_eq!(
        accept_invitation(&email, &code, &with(&rs, Reply::Failed)),
        Step::Finish(Ok(ApiResult { success: true }))
    );
}

#[test]
fn change_permission_steps() {
    let email = "ana@example.com".to_string();
    let p = InvitationPayload { user_email: "bo@example.com".into(), board_id: 11, role: 2 };
    assert_eq!(
        change_permission(&email, &InvitationPayload { user_email: "x".into(), ..p.clone() }, &vec![]),
        Step::Finish(Err(Error::BadRequest))
    );
    let rs = vec![];
    assert_eq!(change_permission(&email, &p, &rs), Step::Run(Query::Connect));
    assert_eq!(change_permission(&email, &p, &with(&rs, Reply::Failed)), Step::Finish(Err(Error::FailToGetPool)));
    let rs = with(&rs, Reply::Done);
    assert_eq!(change_permission(&email, &p, &rs), Step::Run(Query::FindUserByEmail(email.clone())));
    assert_eq!(change_permission(&email, &p, &with(&rs, Reply::Failed)), Step::Finish(Err(Error::UserNotFound)));
    let rs = with(&rs, Reply::User(user(4, "ana@example.com")));
    assert_eq!(change_permission(&email, &p, &rs), Step::Run(Query::FindUserByEmail("bo@example.com".into())));
    assert_eq!(change_permission(&email, &p, &with(&rs, Reply::Failed)), Step::Finish(Err(Error::FailToGetPool)));
    let rs = with(&rs, Reply::User(user(5, "bo@example.com")));
    assert_eq!(change_permission(&email, &p, &rs), Step::Run(Query::FindBoard(11)));
    assert_eq!(change_permission(&email, &p, &with(&rs, Reply::Failed)), Step::Finish(Err(Error::BoardNotFound)));
    let other_board = with(&rs, Reply::Board(board(11, 5)));
    assert_eq!(change_permission(&email, &p, &other_board), Step::Run(Query::FindPermission { user_id: 4, board_id: 11 }));
    assert_eq!(change_permission(&email, &p, &with(&other_board, Reply::Failed)), Step::Finish(Err(Error::PermissionDenied)));
    let viewer = with(&other_board, Reply::Permission(Permission { board_id: 11, user_id: 4, role: 0 }));
    assert_eq!(change_permission(&email, &p, &viewer), Step::Finish(Err(Error::PermissionDenied)));
    let autor = with(&other_board, Reply::Permission(Permission { board_id: 11, user_id: 4, role: 2 }));
    assert_eq!(change_permission(&email, &p, &autor), Step::Run(Query::UpdatePermissionRole { board_id: 11, user_id: 5, role: 2 }));
    let rs = with(&rs, Reply::Board(board(11, 4)));
    assert_eq!(
        change_permission(&email, &p, &rs),
        Step::Run(Query::UpdatePermissionRole { board_id: 11, user_id: 5, role: 2 })
    );
    assert_eq!(change_permission(&email, &p, &with(&rs, Reply::Failed)), Step::Finish(Err(Error::FailUpdateDB)));
    assert_eq!(change_permission(&email, &p, &with(&rs, Reply::Done)), Step::Finish(Ok(ApiResult { success: true })));
}

#[test]
fn delete_permission_steps() {
    let email = "ana@example.com".to_string();
    let p = DeletePermissionParams { user_email: "bo@example.com".into(), board_id: 11 };
    assert_eq!(
        delete_permission(&email, &DeletePermissionParams { board_id: -1, ..p.clone() }, &vec![]),
        Step::Finish(Err(Error::BadRequest))
    );
    let rs = vec![];
    assert_eq!(delete_permission(&email, &p, &rs), Step::Run(Query::Connect));
    assert_eq!(delete_permission(&email, &p, &with(&rs, Reply::Failed)), Step::Finish(Err(Error::FailToGetPool)));
    let rs = with(&rs, Reply::Done);
    assert_eq!(delete_permission(&email, &p, &rs), Step::Run(Query::FindUserByEmail(email.clone())));
    assert_eq!(delete_permission(&email, &p, &with(&rs, Reply::Failed)), Step::Finish(Err(Error::UserNotFound)));
    let rs = with(&rs, Reply::User(user(4, "ana@example.com")));
    assert_eq!(delete_permission(&email, &p, &rs), Step::Run(Query::FindUserByEmail("bo@example.com".into())));
    assert_eq!(delete_permission(&email, &p, &with(&rs, Reply::Failed)), Step::Finish(Err(Error::UserNotFound)));
    let rs = with(&rs, Reply::User(user(5, "bo@example.com")));
    assert_eq!(delete_permission(&email, &p, &rs), Step::Run(Query::FindBoard(11)));
    assert_eq!(delete_permission(&email, &p, &with(&rs, Reply::Failed)), Step::Finish(Err(Error::BoardNotFound)));
    let other_board = with(&rs, Reply::Board(board(11, 5)));
    assert_eq!(delete_permission(&email, &p, &other_board), Step::Run(Query::FindPermission { user_id: 4, board_id: 11 }));
    assert_eq!(delete_permission(&email, &p, &with(&other_board, Reply::Failed)), Step::Finish(Err(Error::PermissionDenied)));
    let viewer = with(&other_board, Reply::Permission(Permission { board_id: 11, user_id: 4, role: 0 }));
    assert_eq!(delete_permission(&email, &p, &viewer), Step::Finish(Err(Error::PermissionDenied)));
    let autor = with(&other_board, Reply::Permission(Permission { board_id: 11, user_id: 4, role: 2 }));
    assert_eq!(delete_permission(&email, &p, &autor), Step::Run(Query::DeletePermission { user_id: 5, board_id: 11 }));
    let rs = with(&rs, Reply::Board(board(11, 4)));
    assert_eq!(delete_permission(&email, &p, &rs), Step::Run(Query::DeletePermission { user_id: 5, board_id: 11 }));
    assert_eq!(delete_permission(&email, &p, &with(&rs, Reply::Failed)), Step::Finish(Err(Error::FailDeleteDB)));
    assert_eq!(delete_permission(&email, &p, &with(&rs, Reply::Done)), Step::Finish(Ok(ApiResult { success: true })));
}

#[test]
fn members_are_listed_to_owner_and_members() {
    let members = vec![
        UserPermission { email: "bo@example.com".into(), permission_type: 0 },
        UserPermission { email: "cy@example.com".into(), permission_type: 1 },
    ];
    let owner = "ana@example.com".to_string();
    let rs = vec![];
    assert_eq!(get_permission(&owner, 11, &rs), Step::Run(Query::Connect));
    assert_eq!(get_permission(&owner, 11, &with(&rs, Reply::Failed)), Step::Finish(Err(Error::FailToGetPool)));
    let rs = with(&rs, Reply::Done);
    assert_eq!(get_permission(&owner, 11, &rs), Step::Run(Query::FindUserByEmail(owner.clone())));
    assert_eq!(get_permission(&owner, 11, &with(&rs, Reply::Failed)), Step::Finish(Err(Error::UserNotFound)));
    let base = with(&rs, Reply::User(user(4, "ana@example.com")));
    assert_eq!(get_permission(&owner, 11, &base), Step::Run(Query::FindBoard(11)));
    assert_eq!(get_permission(&owner, 11, &with(&base, Reply::Failed)), Step::Finish(Err(Error::BoardNotFound)));
    let as_owner = with(&base, Reply::Board(board(11, 4)));
    assert_eq!(get_permission(&owner, 11, &as_owner), Step::Run(Query::LoadBoardMembers(11)));
    assert_eq!(get_permission(&owner, 11, &with(&as_owner, Reply::Failed)), Step::Finish(Err(Error::UserNotFound)));
    assert_eq!(
        get_permission(&owner, 11, &with(&as_owner, Reply::Members(members.clone()))),
        Step::Finish(Ok(members.clone()))
    );

    let other = "bo@example.com".to_string();
    let as_other = vec![Reply::Done, Reply::User(user(5, "bo@example.com")), Reply::Board(board(11, 4))];
    assert_eq!(get_permission(&other, 11, &as_other), Step::Run(Query::FindPermission { user_id: 5, board_id: 11 }));
    assert_eq!(get_permission(&other, 11, &with(&as_other, Reply::Failed)), Step::Finish(Err(Error::PermissionDenied)));
    let as_member = with(&as_other, Reply::Permission(Permission { board_id: 11, user_id: 5, role: 0 }));
    assert_eq!(get_permission(&other, 11, &as_member), Step::Run(Query::LoadBoardMembers(11)));
    assert_eq!(
        get_permission(&other, 11, &with(&as_member, Reply::Members(members.clone()))),
        Step::Finish(Ok(members))
    );
}
