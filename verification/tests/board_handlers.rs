use collaboard::board_file::initial_document;
use collaboard::dto::{ApiResult, BoardPayload, BoardResponse};
use collaboard::error::Error;
use collaboard::handlers::board::{
    board_path, create_board, delete_board, get_board, get_my_boards, role_label, ROLE_EDITOR, ROLE_OWNER, ROLE_VIEWER,
};
use collaboard::handlers::{answer_locally, Abort, Query, Reply, Step, INVITATION_CODE_LENGTH};
use collaboard::model::{Board, NewBoard, Permission, User};

fn user(id: i32, email: &str) -> User {
    User { id, name: "N".into(), surname: "S".into(), email: email.into(), password: "h".into() }
}

fn board(id: i32, owner_id: i32) -> Board {
    Board { id, name: "Plans".into(), path: "./boards/u.json".into(), owner_id }
}

#[test]
fn role_names() {
    assert_eq!(role_label(ROLE_VIEWER), "Viewer");
    assert_eq!(role_label(ROLE_EDITOR), "Editor");
    assert_eq!(role_label(ROLE_OWNER), "Owner");
    assert_eq!(role_label(-3), "Viewer");
    assert_eq!(board_path("1234"), "./boards/1234.json");
}

#[test]
fn create_board_steps() {
    let email = "ana@example.com".to_string();
    let p = BoardPayload { name: "Plans".into() };
    assert_eq!(create_board(&email, &BoardPayload { name: "".into() }, &vec![]), Step::Finish(Err(Error::BadRequest)));
    assert_eq!(create_board(&email, &p, &vec![]), Step::Run(Query::Connect));
    assert_eq!(create_board(&email, &p, &vec![Reply::Failed]), Step::Finish(Err(Error::FailToGetPool)));
    assert_eq!(create_board(&email, &p, &vec![Reply::Done]), Step::Run(Query::FindUserByEmail(email.clone())));
    assert_eq!(create_board(&email, &p, &vec![Reply::Done, Reply::Failed]), Step::Finish(Err(Error::UserNotFound)));
    let mut rs = vec![Reply::Done, Reply::User(user(4, "ana@example.com"))];
    assert_eq!(create_board(&email, &p, &rs), Step::Run(Query::NewUuid));
    assert_eq!(
        create_board(&email, &p, &vec![Reply::Done, Reply::User(user(4, "a")), Reply::Done]),
        Step::Abort(Abort::UnexpectedReply)
    );
    rs.push(Reply::Text("abc-123".into()));
    assert_eq!(
        create_board(&email, &p, &rs),
        Step::Run(Query::CreateFile { path: "./boards/abc-123.json".into(), content: initial_document() })
    );
    let mut failed = rs.clone();
    failed.push(Reply::Failed);
    assert_eq!(create_board(&email, &p, &failed), Step::Finish(Err(Error::FailCreatingFile)));
    rs.push(Reply::Done);
    assert_eq!(
        create_board(&email, &p, &rs),
        Step::Run(Query::InsertBoard(NewBoard { name: "Plans".into(), path: "./boards/abc-123.json".into(), owner_id: 4 }))
    );
    let mut not_stored = rs.clone();
    not_stored.push(Reply::Failed);
    assert_eq!(create_board(&email, &p, &not_stored), Step::Finish(Err(Error::FailInsertDB)));
    let stored = Board { id: 11, name: "Plans".into(), path: "./boards/abc-123.json".into(), owner_id: 4 };
    rs.push(Reply::Board(stored.clone()));
    assert_eq!(create_board(&email, &p, &rs), Step::Finish(Ok(stored)));
}

#[test]
fn owner_sees_board_as_owner() {
    let email = "ana@example.com".to_string();
    assert_eq!(get_board(&email, 11, &vec![]), Step::Run(Query::Connect));
    assert_eq!(get_board(&email, 11, &vec![Reply::Failed]), Step::Abort(Abort::NoConnection));
    assert_eq!(get_board(&email, 11, &vec![Reply::Done, Reply::Failed]), Step::Finish(Err(Error::UserNotFound)));
    let mut rs = vec![Reply::Done, Reply::User(user(4, "ana@example.com"))];
    assert_eq!(get_board(&email, 11, &rs), Step::Run(Query::FindBoard(11)));
    let mut missing = rs.clone();
    missing.push(Reply::Failed);
    assert_eq!(get_board(&email, 11, &missing), Step::Finish(Err(Error::BoardNotFound)));
    rs.push(Reply::Board(board(11, 4)));
    assert_eq!(get_board(&email, 11, &rs), Step::Run(Query::ReadFile("./boards/u.json".into())));
    let mut unreadable = rs.clone();
    unreadable.push(Reply::Failed);
    assert_eq!(get_board(&email, 11, &unreadable), Step::Abort(Abort::UnreadableFile));
    let mut malformed = rs.clone();
    malformed.push(Reply::Text("{oops".into()));
    assert_eq!(get_board(&email, 11, &malformed), Step::Abort(Abort::MalformedBoardFile));
    rs.push(Reply::Text("{ \"elements\" : [] }".into()));
    assert_eq!(
        get_board(&email, 11, &rs),
        Step::Finish(Ok(BoardResponse {
            id: 11,
            name: "Plans".into(),
            data: "{\"elements\":[]}".into(),
            role: "Owner".into()
        }))
    );
}

#[test]
fn member_sees_board_with_granted_role() {
    let email = "bo@example.com".to_string();
    let mut rs = vec![Reply::Done, Reply::User(user(5, "bo@example.com")), Reply::Board(board(11, 4))];
    assert_eq!(get_board(&email, 11, &rs), Step::Run(Query::FindPermission { user_id: 5, board_id: 11 }));
    let mut denied = rs.clone();
    denied.push(Reply::Failed);
    assert_eq!(get_board(&email, 11, &denied), Step::Finish(Err(Error::PermissionDenied)));
    rs.push(Reply::Permission(Permission { board_id: 11, user_id: 5, role: ROLE_EDITOR }));
    assert_eq!(get_board(&email, 11, &rs), Step::Run(Query::ReadFile("./boards/u.json".into())));
    rs.push(Reply::Text("[1]".into()));
    assert_eq!(
        get_board(&email, 11, &rs),
        Step::Finish(Ok(BoardResponse { id: 11, name: "Plans".into(), data: "[1]".into(), role: "Editor".into() }))
    );
}

#[test]
fn my_boards_are_shared_then_owned() {
    let email = "ana@example.com".to_string();
    assert_eq!(get_my_boards(&email, &vec![]), Step::Run(Query::Connect));
    assert_eq!(get_my_boards(&email, &vec![Reply::Failed]), Step::Finish(Err(Error::FailToGetPool)));
    assert_eq!(get_my_boards(&email, &vec![Reply::Done, Reply::Done]), Step::Finish(Err(Error::UserNotFound)));
    let mut rs = vec![Reply::Done, Reply::User(user(4, "ana@example.com"))];
    assert_eq!(get_my_boards(&email, &rs), Step::Run(Query::LoadSharedBoards(4)));
    let mut bad = rs.clone();
    bad.push(Reply::Failed);
    assert_eq!(get_my_boards(&email, &bad), Step::Finish(Err(Error::UserNotFound)));
    rs.push(Reply::Boards(vec![board(20, 9)]));
    assert_eq!(get_my_boards(&email, &rs), Step::Run(Query::LoadOwnedBoards(4)));
    let mut bad = rs.clone();
    bad.push(Reply::Done);
    assert_eq!(get_my_boards(&email, &bad), Step::Finish(Err(Error::UserNotFound)));
    rs.push(Reply::Boards(vec![board(1, 4), board(2, 4)]));
    assert_eq!(get_my_boards(&email, &rs), Step::Finish(Ok(vec![board(20, 9), board(1, 4), board(2, 4)])));
}

#[test]
fn delete_board_steps() {
    let email = "ana@example.com".to_string();
    assert_eq!(delete_board(&email, 11, &vec![]), Step::Run(Query::Connect));
    assert_eq!(delete_board(&email, 11, &vec![Reply::Failed]), Step::Finish(Err(Error::FailToGetPool)));
    assert_eq!(delete_board(&email, 11, &vec![Reply::Done, Reply::Failed]), Step::Finish(Err(Error::UserNotFound)));
    let mut rs = vec![Reply::Done, Reply::User(user(4, "ana@example.com"))];
    assert_eq!(delete_board(&email, 11, &rs), Step::Run(Query::FindBoard(11)));
    let mut missing = rs.clone();
    missing.push(Reply::Failed);
    assert_eq!(delete_board(&email, 11, &missing), Step::Finish(Err(Error::BoardNotFound)));
    let mut not_owner = rs.clone();
    not_owner.push(Reply::Board(board(11, 5)));
    assert_eq!(delete_board(&email, 11, &not_owner), Step::Run(Query::FindPermission { user_id: 4, board_id: 11 }));
    let mut no_permission = not_owner.clone();
    no_permission.push(Reply::Failed);
    assert_eq!(delete_board(&email, 11, &no_permission), Step::Finish(Err(Error::PermissionDenied)));
    let mut editor = not_owner.clone();
    editor.push(Reply::Permission(Permission { board_id: 11, user_id: 4, role: ROLE_EDITOR }));
    assert_eq!(delete_board(&email, 11, &editor), Step::Finish(Err(Error::PermissionDenied)));
    let mut autor = not_owner.clone();
    autor.push(Reply::Permission(Permission { board_id: 11, user_id: 4, role: ROLE_OWNER }));
    assert_eq!(delete_board(&email, 11, &autor), Step::Run(Query::DeletePermissionsOfBoard(11)));
    autor.push(Reply::Done);
    assert_eq!(delete_board(&email, 11, &autor), Step::Run(Query::DeleteBoard(11)));
    autor.push(Reply::Done);
    assert_eq!(delete_board(&email, 11, &autor), Step::Finish(Ok(ApiResult { success: true })));
    rs.push(Reply::Board(board(11, 4)));
    assert_eq!(delete_board(&email, 11, &rs), Step::Run(Query::DeletePermissionsOfBoard(11)));
    let mut failed = rs.clone();
    failed.push(Reply::Failed);
    assert_eq!(delete_board(&email, 11, &failed), Step::Finish(Err(Error::FailDeleteDB)));
    rs.push(Reply::Done);
    assert_eq!(delete_board(&email, 11, &rs), Step::Run(Query::DeleteBoard(11)));
    let mut failed = rs.clone();
    failed.push(Reply::Failed);
    assert_eq!(delete_board(&email, 11, &failed), Step::Finish(Err(Error::FailDeleteDB)));
    rs.push(Reply::Done);
    assert_eq!(delete_board(&email, 11, &rs), Step::Finish(Ok(ApiResult { success: true })));
}

#[test]
fn local_answers() {
    match answer_locally(&Query::NewUuid) {
        Some(Reply::Text(t)) => {
            assert_eq!(t.len(), 36);
            let cs: Vec<char> = t.chars().collect();
            for (i, c) in cs.iter().enumerate() {
                if [8, 13, 18, 23].contains(&i) {
                    assert_eq!(*c, '-');
                } else {
                    assert!(c.is_ascii_digit() || ('a'..='f').contains(c));
                }
            }
            assert_eq!(cs[14], '4');
        }
        other => panic!("unexpected {:?}", other),
    }
    match answer_locally(&Query::NewInvitationCode) {
        Some(Reply::Text(t)) => {
            assert_eq!(t.len(), INVITATION_CODE_LENGTH);
            assert!(t.chars().all(|c| c.is_ascii_alphanumeric()));
        }
        other => panic!("unexpected {:?}", other),
    }
    assert!(matches!(answer_locally(&Query::LocalTime), Some(Reply::Time(_))));
    match answer_locally(&Query::UtcTime) {
        Some(Reply::Time(t)) => assert!(t > 1_600_000_000_000_000),
        other => panic!("unexpected {:?}", other),
    }
    assert_eq!(answer_locally(&Query::Connect), None);
    assert_eq!(answer_locally(&Query::ReadFile("x".into())), None);
}
