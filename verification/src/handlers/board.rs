//! Creating, showing, listing and deleting boards.
use vstd::prelude::*;
use vstd::string::StringExecFns;
use crate::dto::{ApiResult, BoardPayload, BoardResponse};
use crate::error::Error;
use crate::handlers::{
    Abort, Query, Reply, Step, board_of, boards_of, grants_owner_role, is_done, permission_of, reply_board,
    reply_boards, reply_grants_owner_role, reply_permission, reply_text, reply_user, text_of, user_of,
};
use crate::board_file::{empty_drawing, empty_drawing_text, initial_document, initial_document_text};
use crate::json::{json_compact, reformat_json};
use crate::model::{Board, NewBoard};
use crate::validation::spec_board_payload_valid;

verus! {

/// Roles a user can hold on a board.
pub const ROLE_VIEWER: i32 = 0;
pub const ROLE_EDITOR: i32 = 1;
pub const ROLE_OWNER: i32 = 2;

/// The name of a role: 1 is "Editor", 2 is "Owner", anything else "Viewer".
pub open spec fn role_name(role: i32) -> Seq<char> {
    if role == ROLE_EDITOR {
        "Editor"@
    } else if role == ROLE_OWNER {
        "Owner"@
    } else {
        "Viewer"@
    }
}

/// The name of `role`.
pub fn role_label(role: i32) -> (r: String)
    ensures
        r@ == role_name(role),
{
    if role == ROLE_EDITOR {
        String::from_str("Editor")
    } else if role == ROLE_OWNER {
        String::from_str("Owner")
    } else {
        String::from_str("Viewer")
    }
}

/// Where the drawing of a board created under `uuid` is kept.
pub open spec fn board_file_path(uuid: Seq<char>) -> Seq<char> {
    "./boards/"@ + uuid + ".json"@
}

/// The path of the drawing file for `uuid`.
pub fn board_path(uuid: &str) -> (r: String)
    ensures
        r@ == board_file_path(uuid@),
{
    let mut r = String::from_str("./boards/");
    r.append(uuid);
    r.append(".json");
    r
}

/// Creating a board: check the name, find the user, make a drawing file
/// with nothing drawn on it under a fresh UUID, and store the board as owned
/// by the user.
pub open spec fn create_board_next(email: String, payload: BoardPayload, rs: Seq<Reply>, s: Step<Board>) -> bool {
    if !spec_board_payload_valid(payload) {
        s == Step::<Board>::Finish(Err(Error::BadRequest))
    } else if rs.len() == 0 {
        s == Step::<Board>::Run(Query::Connect)
    } else if !is_done(rs[0]) {
        s == Step::<Board>::Finish(Err(Error::FailToGetPool))
    } else if rs.len() == 1 {
        s == Step::<Board>::Run(Query::FindUserByEmail(email))
    } else {
        match user_of(rs[1]) {
            None => s == Step::<Board>::Finish(Err(Error::UserNotFound)),
            Some(u) => if rs.len() == 2 {
                s == Step::<Board>::Run(Query::NewUuid)
            } else {
                match text_of(rs[2]) {
                    None => s == Step::<Board>::Abort(Abort::UnexpectedReply),
                    Some(uuid) => if rs.len() == 3 {
                        s matches Step::Run(Query::CreateFile { path: p, content: c }) && p@ == board_file_path(uuid)
                            && c@ == initial_document_text()
                    } else if !is_done(rs[3]) {
                        s == Step::<Board>::Finish(Err(Error::FailCreatingFile))
                    } else if rs.len() == 4 {
                        s matches Step::Run(Query::InsertBoard(nb)) && {
                            &&& nb.name == payload.name
                            &&& nb.path@ == board_file_path(uuid)
                            &&& nb.owner_id == u.id
                        }
                    } else {
                        match board_of(rs[4]) {
                            Some(b) => s == Step::<Board>::Finish(Ok(b)),
                            None => s == Step::<Board>::Finish(Err(Error::FailInsertDB)),
                        }
                    },
                }
            },
        }
    }
}

/// The next step of creating a board named by `payload` for `email`.
pub fn create_board(email: &String, payload: &BoardPayload, replies: &Vec<Reply>) -> (s: Step<Board>)
    ensures
        create_board_next(*email, *payload, replies@, s),
{
    if payload.validate().is_err() {
        return Step::Finish(Err(Error::BadRequest));
    }
    if replies.len() == 0 {
        return Step::Run(Query::Connect);
    }
    if !matches!(replies[0], Reply::Done) {
        return Step::Finish(Err(Error::FailToGetPool));
    }
    if replies.len() == 1 {
        return Step::Run(Query::FindUserByEmail(email.clone()));
    }
    let user = match reply_user(&replies[1]) {
        Some(u) => u,
        None => {
            return Step::Finish(Err(Error::UserNotFound));
        },
    };
    if replies.len() == 2 {
        return Step::Run(Query::NewUuid);
    }
    let uuid = match reply_text(&replies[2]) {
        Some(t) => t,
        None => {
            return Step::Abort(Abort::UnexpectedReply);
        },
    };
    let path = board_path(uuid.as_str());
    if replies.len() == 3 {
        return Step::Run(Query::CreateFile { path, content: initial_document() });
    }
    if !matches!(replies[3], Reply::Done) {
        return Step::Finish(Err(Error::FailCreatingFile));
    }
    if replies.len() == 4 {
        return Step::Run(Query::InsertBoard(NewBoard { name: payload.name.clone(), path, owner_id: user.id }));
    }
    match reply_board(&replies[4]) {
        Some(b) => Step::Finish(Ok(b)),
        None => Step::Finish(Err(Error::FailInsertDB)),
    }
}

/// Showing board `b` to a member with `role`, once the file's text is the
/// `k`-th reply: a file that still holds the document a new board starts
/// with is shown as an empty drawing; any other is shown in compact form.
pub open spec fn show_board_next(b: Board, role: i32, rs: Seq<Reply>, k: int, s: Step<BoardResponse>) -> bool {
    if rs.len() == k {
        s == Step::<BoardResponse>::Run(Query::ReadFile(b.path))
    } else {
        match text_of(rs[k]) {
            None => s == Step::<BoardResponse>::Abort(Abort::UnreadableFile),
            Some(content) => if content == initial_document_text() {
                s matches Step::Finish(Ok(r)) && {
                    &&& r.id == b.id
                    &&& r.name == b.name
                    &&& r.data@ == empty_drawing_text()
                    &&& r.role@ == role_name(role)
                }
            } else {
                match json_compact(content) {
                    None => s == Step::<BoardResponse>::Abort(Abort::MalformedBoardFile),
                    Some(data) => s matches Step::Finish(Ok(r)) && {
                        &&& r.id == b.id
                        &&& r.name == b.name
                        &&& r.data@ == data
                        &&& r.role@ == role_name(role)
                    },
                }
            },
        }
    }
}

/// Showing a board: its owner sees it as owner; anyone else needs a
/// permission on it and sees it with the role the permission grants.
pub open spec fn get_board_next(email: String, board_id: i32, rs: Seq<Reply>, s: Step<BoardResponse>) -> bool {
    if rs.len() == 0 {
        s == Step::<BoardResponse>::Run(Query::Connect)
    } else if !is_done(rs[0]) {
        s == Step::<BoardResponse>::Abort(Abort::NoConnection)
    } else if rs.len() == 1 {
        s == Step::<BoardResponse>::Run(Query::FindUserByEmail(email))
    } else {
        match user_of(rs[1]) {
            None => s == Step::<BoardResponse>::Finish(Err(Error::UserNotFound)),
            Some(u) => if rs.len() == 2 {
                s == Step::<BoardResponse>::Run(Query::FindBoard(board_id))
            } else {
                match board_of(rs[2]) {
                    None => s == Step::<BoardResponse>::Finish(Err(Error::BoardNotFound)),
                    Some(b) => if b.owner_id == u.id {
                        show_board_next(b, ROLE_OWNER, rs, 3, s)
                    } else if rs.len() == 3 {
                        s == Step::<BoardResponse>::Run(Query::FindPermission { user_id: u.id, board_id: b.id })
                    } else {
                        match permission_of(rs[3]) {
                            None => s == Step::<BoardResponse>::Finish(Err(Error::PermissionDenied)),
                            Some(p) => show_board_next(b, p.role, rs, 4, s),
                        }
                    },
                }
            },
        }
    }
}

fn show_board(b: &Board, role: i32, replies: &Vec<Reply>, k: usize) -> (s: Step<BoardResponse>)
    requires
        k <= replies@.len(),
    ensures
        show_board_next(*b, role, replies@, k as int, s),
{
    if replies.len() == k {
        return Step::Run(Query::ReadFile(b.path.clone()));
    }
    let content = match reply_text(&replies[k]) {
        Some(t) => t,
        None => {
            return Step::Abort(Abort::UnreadableFile);
        },
    };
    let initial = initial_document();
    if content == initial {
        return Step::Finish(
            Ok(BoardResponse { id: b.id, name: b.name.clone(), data: empty_drawing(), role: role_label(role) }),
        );
    }
    match reformat_json(content.as_str()) {
        None => Step::Abort(Abort::MalformedBoardFile),
        Some(data) => Step::Finish(Ok(BoardResponse { id: b.id, name: b.name.clone(), data, role: role_label(role) })),
    }
}

/// The next step of showing board `board_id` to `email`.
pub fn get_board(email: &String, board_id: i32, replies: &Vec<Reply>) -> (s: Step<BoardResponse>)
    ensures
        get_board_next(*email, board_id, replies@, s),
{
    if replies.len() == 0 {
        return Step::Run(Query::Connect);
    }
    if !matches!(replies[0], Reply::Done) {
        return Step::Abort(Abort::NoConnection);
    }
    if replies.len() == 1 {
        return Step::Run(Query::FindUserByEmail(email.clone()));
    }
    let user = match reply_user(&replies[1]) {
        Some(u) => u,
        None => {
            return Step::Finish(Err(Error::UserNotFound));
        },
    };
    if replies.len() == 2 {
        return Step::Run(Query::FindBoard(board_id));
    }
    let board = match reply_board(&replies[2]) {
        Some(b) => b,
        None => {
            return Step::Finish(Err(Error::BoardNotFound));
        },
    };
    if board.owner_id == user.id {
        return show_board(&board, ROLE_OWNER, replies, 3);
    }
    if replies.len() == 3 {
        return Step::Run(Query::FindPermission { user_id: user.id, board_id: board.id });
    }
    match reply_permission(&replies[3]) {
        None => Step::Finish(Err(Error::PermissionDenied)),
        Some(p) => show_board(&board, p.role, replies, 4),
    }
}

/// Listing one's boards: those shared with the user, then those they own.
pub open spec fn get_my_boards_next(email: String, rs: Seq<Reply>, s: Step<Vec<Board>>) -> bool {
    if rs.len() == 0 {
        s == Step::<Vec<Board>>::Run(Query::Connect)
    } else if !is_done(rs[0]) {
        s == Step::<Vec<Board>>::Finish(Err(Error::FailToGetPool))
    } else if rs.len() == 1 {
        s == Step::<Vec<Board>>::Run(Query::FindUserByEmail(email))
    } else {
        match user_of(rs[1]) {
            None => s == Step::<Vec<Board>>::Finish(Err(Error::UserNotFound)),
            Some(u) => if rs.len() == 2 {
                s == Step::<Vec<Board>>::Run(Query::LoadSharedBoards(u.id))
            } else {
                match boards_of(rs[2]) {
                    None => s == Step::<Vec<Board>>::Finish(Err(Error::UserNotFound)),
                    Some(shared) => if rs.len() == 3 {
                        s == Step::<Vec<Board>>::Run(Query::LoadOwnedBoards(u.id))
                    } else {
                        match boards_of(rs[3]) {
                            None => s == Step::<Vec<Board>>::Finish(Err(Error::UserNotFound)),
                            Some(owned) => s matches Step::Finish(Ok(v)) && v@ == shared + owned,
                        }
                    },
                }
            },
        }
    }
}

/// The next step of listing the boards of `email`.
pub fn get_my_boards(email: &String, replies: &Vec<Reply>) -> (s: Step<Vec<Board>>)
    ensures
        get_my_boards_next(*email, replies@, s),
{
    if replies.len() == 0 {
        return Step::Run(Query::Connect);
    }
    if !matches!(replies[0], Reply::Done) {
        return Step::Finish(Err(Error::FailToGetPool));
    }
    if replies.len() == 1 {
        return Step::Run(Query::FindUserByEmail(email.clone()));
    }
    let user = match reply_user(&replies[1]) {
        Some(u) => u,
        None => {
            return Step::Finish(Err(Error::UserNotFound));
        },
    };
    if replies.len() == 2 {
        return Step::Run(Query::LoadSharedBoards(user.id));
    }
    let mut shared = match reply_boards(&replies[2]) {
        Some(v) => v,
        None => {
            return Step::Finish(Err(Error::UserNotFound));
        },
    };
    if replies.len() == 3 {
        return Step::Run(Query::LoadOwnedBoards(user.id));
    }
    let mut owned = match reply_boards(&replies[3]) {
        Some(v) => v,
        None => {
            return Step::Finish(Err(Error::UserNotFound));
        },
    };
    shared.append(&mut owned);
    Step::Finish(Ok(shared))
}

/// Deleting a board: its owner may, and so may a user holding the Owner
/// role on it; its permissions go first, then the board.
pub open spec fn delete_board_next(email: String, board_id: i32, rs: Seq<Reply>) -> Step<ApiResult> {
    if rs.len() == 0 {
        Step::Run(Query::Connect)
    } else if !is_done(rs[0]) {
        Step::Finish(Err(Error::FailToGetPool))
    } else if rs.len() == 1 {
        Step::Run(Query::FindUserByEmail(email))
    } else {
        match user_of(rs[1]) {
            None => Step::Finish(Err(Error::UserNotFound)),
            Some(u) => if rs.len() == 2 {
                Step::Run(Query::FindBoard(board_id))
            } else {
                match board_of(rs[2]) {
                    None => Step::Finish(Err(Error::BoardNotFound)),
                    Some(b) => if b.owner_id == u.id {
                        delete_steps_next(board_id, rs, 3)
                    } else if rs.len() == 3 {
                        Step::Run(Query::FindPermission { user_id: u.id, board_id: b.id })
                    } else if grants_owner_role(rs[3]) {
                        delete_steps_next(board_id, rs, 4)
                    } else {
                        Step::Finish(Err(Error::PermissionDenied))
                    },
                }
            },
        }
    }
}

/// Deleting the permissions of a board and then the board, the first of
/// these steps answered by the `k`-th reply.
pub open spec fn delete_steps_next(board_id: i32, rs: Seq<Reply>, k: int) -> Step<ApiResult> {
    if rs.len() == k {
        Step::Run(Query::DeletePermissionsOfBoard(board_id))
    } else if !is_done(rs[k]) {
        Step::Finish(Err(Error::FailDeleteDB))
    } else if rs.len() == k + 1 {
        Step::Run(Query::DeleteBoard(board_id))
    } else if !is_done(rs[k + 1]) {
        Step::Finish(Err(Error::FailDeleteDB))
    } else {
        Step::Finish(Ok(ApiResult { success: true }))
    }
}

fn delete_steps(board_id: i32, replies: &Vec<Reply>, k: usize) -> (s: Step<ApiResult>)
    requires
        k <= replies@.len(),
    ensures
        s == delete_steps_next(board_id, replies@, k as int),
{
    if replies.len() == k {
        return Step::Run(Query::DeletePermissionsOfBoard(board_id));
    }
    if !matches!(replies[k], Reply::Done) {
        return Step::Finish(Err(Error::FailDeleteDB));
    }
    if replies.len() == k + 1 {
        return Step::Run(Query::DeleteBoard(board_id));
    }
    if !matches!(replies[k + 1], Reply::Done) {
        return Step::Finish(Err(Error::FailDeleteDB));
    }
    Step::Finish(Ok(ApiResult { success: true }))
}

/// The next step of deleting board `board_id` on behalf of `email`.
pub fn delete_board(email: &String, board_id: i32, replies: &Vec<Reply>) -> (s: Step<ApiResult>)
    ensures
        s == delete_board_next(*email, board_id, replies@),
{
    if replies.len() == 0 {
        return Step::Run(Query::Connect);
    }
    if !matches!(replies[0], Reply::Done) {
        return Step::Finish(Err(Error::FailToGetPool));
    }
    if replies.len() == 1 {
        return Step::Run(Query::FindUserByEmail(email.clone()));
    }
    let user = match reply_user(&replies[1]) {
        Some(u) => u,
        None => {
            return Step::Finish(Err(Error::UserNotFound));
        },
    };
    if replies.len() == 2 {
        return Step::Run(Query::FindBoard(board_id));
    }
    let board = match reply_board(&replies[2]) {
        Some(b) => b,
        None => {
            return Step::Finish(Err(Error::BoardNotFound));
        },
    };
    if board.owner_id == user.id {
        return delete_steps(board_id, replies, 3);
    }
    if replies.len() == 3 {
        return Step::Run(Query::FindPermission { user_id: user.id, board_id: board.id });
    }
    if reply_grants_owner_role(&replies[3]) {
        delete_steps(board_id, replies, 4)
    } else {
        Step::Finish(Err(Error::PermissionDenied))
    }
}

} // verus!
