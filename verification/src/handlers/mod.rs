//! The request handlers of the service, as state machines.
//!
//! A handler alternates work that only the application can do (talk to the
//! database, touch files, read the clock, send e-mail) with decisions. Each
//! handler here is a function from the request and the replies received so
//! far to the next [`Step`]: a [`Query`] to perform, the final answer, or an
//! abort where the service gives up on the request. The application runs
//! the loop: it performs each query, appends the [`Reply`], and asks again.
//!
//! A reply of another kind than the query asks for counts as a failed query.
pub mod auth;
pub mod board;
pub mod permission;

use vstd::prelude::*;
use crate::dto::UserPermission;
use crate::error::Error;
use crate::model::{Board, Invitation, NewBoard, NewInvitation, NewPermission, NewUser, Permission, User, duplicate_boards};

verus! {

/// Work a handler asks the application to do.
#[derive(Debug, Clone, PartialEq, Eq)]
pub enum Query {
    /// Take a connection from the database pool.
    Connect,
    /// The user with this e-mail address.
    FindUserByEmail(String),
    /// The board with this id.
    FindBoard(i32),
    /// The permission of a user on a board.
    FindPermission { user_id: i32, board_id: i32 },
    /// The invitation with this code.
    FindInvitationByCode(String),
    /// The boards on which the user holds a permission.
    LoadSharedBoards(i32),
    /// The boards the user owns.
    LoadOwnedBoards(i32),
    /// The members of a board and their roles.
    LoadBoardMembers(i32),
    InsertUser(NewUser),
    /// Insert a board; the reply is the stored row.
    InsertBoard(NewBoard),
    /// Insert an invitation; the reply is the stored row.
    InsertInvitation(NewInvitation),
    InsertPermission(NewPermission),
    UpdatePermissionRole { board_id: i32, user_id: i32, role: i32 },
    /// Delete every permission on a board.
    DeletePermissionsOfBoard(i32),
    DeleteBoard(i32),
    DeletePermission { user_id: i32, board_id: i32 },
    DeleteInvitation(String),
    /// Create a file holding `content` (replacing one that exists).
    CreateFile { path: String, content: String },
    /// The text of a file.
    ReadFile(String),
    /// A fresh random UUID, as text.
    NewUuid,
    /// A fresh invitation code, as text.
    NewInvitationCode,
    /// The local wall-clock time, in microseconds (see `NewInvitation::expire`).
    LocalTime,
    /// The UTC time, in microseconds.
    UtcTime,
    /// An access token for this e-mail address, as text.
    IssueToken(String),
    /// Send an HTML e-mail.
    SendEmail { to: String, subject: String, html: String },
}

/// What the application reports back for a query.
#[derive(Debug, Clone, PartialEq, Eq)]
pub enum Reply {
    /// The work was done.
    Done,
    /// The work failed, or the row asked for does not exist.
    Failed,
    User(User),
    Board(Board),
    Permission(Permission),
    Invitation(Invitation),
    Boards(Vec<Board>),
    Members(Vec<UserPermission>),
    Text(String),
    Time(i64),
}

/// Why the service gives up on a request without answering it.
#[derive(Debug, Clone, Copy, PartialEq, Eq, Structural)]
pub enum Abort {
    /// No database connection could be had where the handler insists on one.
    NoConnection,
    /// A board's drawing file could not be read.
    UnreadableFile,
    /// A board's drawing file does not hold JSON.
    MalformedBoardFile,
    /// The invitation e-mail template could not be read.
    NoEmailTemplate,
    /// The invitation e-mail could not be sent.
    EmailNotSent,
    /// The expiry of an invitation lies beyond the representable dates.
    TimeOverflow,
    /// A query that cannot fail got a reply of another kind.
    UnexpectedReply,
}

/// The next step of a handler.
#[derive(Debug, PartialEq, Eq)]
pub enum Step<T> {
    Run(Query),
    Finish(Result<T, Error>),
    Abort(Abort),
}

pub open spec fn is_done(r: Reply) -> bool {
    r is Done
}

pub open spec fn user_of(r: Reply) -> Option<User> {
    match r {
        Reply::User(u) => Some(u),
        _ => None,
    }
}

pub open spec fn board_of(r: Reply) -> Option<Board> {
    match r {
        Reply::Board(b) => Some(b),
        _ => None,
    }
}

pub open spec fn permission_of(r: Reply) -> Option<Permission> {
    match r {
        Reply::Permission(p) => Some(p),
        _ => None,
    }
}

pub open spec fn invitation_of(r: Reply) -> Option<Invitation> {
    match r {
        Reply::Invitation(i) => Some(i),
        _ => None,
    }
}

pub open spec fn boards_of(r: Reply) -> Option<Seq<Board>> {
    match r {
        Reply::Boards(bs) => Some(bs@),
        _ => None,
    }
}

pub open spec fn members_of(r: Reply) -> Option<Seq<UserPermission>> {
    match r {
        Reply::Members(ms) => Some(ms@),
        _ => None,
    }
}

pub open spec fn text_of(r: Reply) -> Option<Seq<char>> {
    match r {
        Reply::Text(t) => Some(t@),
        _ => None,
    }
}

pub open spec fn time_of(r: Reply) -> Option<i64> {
    match r {
        Reply::Time(t) => Some(t),
        _ => None,
    }
}

pub(crate) fn reply_user(r: &Reply) -> (o: Option<User>)
    ensures
        o == user_of(*r),
{
    match r {
        Reply::User(u) => Some(u.duplicate()),
        _ => None,
    }
}

pub(crate) fn reply_board(r: &Reply) -> (o: Option<Board>)
    ensures
        o == board_of(*r),
{
    match r {
        Reply::Board(b) => Some(b.duplicate()),
        _ => None,
    }
}

pub(crate) fn reply_permission(r: &Reply) -> (o: Option<Permission>)
    ensures
        o == permission_of(*r),
{
    match r {
        Reply::Permission(p) => Some(*p),
        _ => None,
    }
}

pub(crate) fn reply_invitation(r: &Reply) -> (o: Option<Invitation>)
    ensures
        o == invitation_of(*r),
{
    match r {
        Reply::Invitation(i) => Some(i.duplicate()),
        _ => None,
    }
}

pub(crate) fn reply_boards(r: &Reply) -> (o: Option<Vec<Board>>)
    ensures
        o is Some <==> boards_of(*r) is Some,
        o matches Some(v) ==> boards_of(*r) == Some(v@),
{
    match r {
        Reply::Boards(bs) => Some(duplicate_boards(bs)),
        _ => None,
    }
}

pub(crate) fn reply_members(r: &Reply) -> (o: Option<Vec<UserPermission>>)
    ensures
        o is Some <==> members_of(*r) is Some,
        o matches Some(v) ==> members_of(*r) == Some(v@),
{
    match r {
        Reply::Members(ms) => Some(crate::dto::duplicate_members(ms)),
        _ => None,
    }
}

pub(crate) fn reply_text(r: &Reply) -> (o: Option<String>)
    ensures
        o is Some <==> text_of(*r) is Some,
        o matches Some(t) ==> text_of(*r) == Some(t@) && *r == Reply::Text(t),
{
    match r {
        Reply::Text(t) => Some(t.clone()),
        _ => None,
    }
}

/// The reply is a permission with the Owner role: its holder has the rights
/// of the board's owner (deleting the board, managing who may use it).
pub open spec fn grants_owner_role(r: Reply) -> bool {
    permission_of(r) matches Some(p) && p.role == crate::handlers::board::ROLE_OWNER
}

pub(crate) fn reply_grants_owner_role(r: &Reply) -> (b: bool)
    ensures
        b == grants_owner_role(*r),
{
    match r {
        Reply::Permission(p) => p.role == crate::handlers::board::ROLE_OWNER,
        _ => false,
    }
}

pub(crate) fn reply_time(r: &Reply) -> (o: Option<i64>)
    ensures
        o == time_of(*r),
{
    match r {
        Reply::Time(t) => Some(*t),
        _ => None,
    }
}

} // verus!

verus! {

/// Characters in an invitation code.
pub const INVITATION_CODE_LENGTH: usize = 8;

/// The queries the library answers itself: fresh UUIDs, invitation codes,
/// and the clocks. Every other query needs the application's I/O and gets
/// `None`.
pub fn answer_locally(q: &Query) -> (r: Option<Reply>)
    ensures
        r is Some <==> (q is NewUuid || q is NewInvitationCode || q is LocalTime || q is UtcTime),
        q is NewUuid ==> (r matches Some(Reply::Text(t)) && crate::random::is_hyphenated_v4(t@)),
        q is NewInvitationCode ==> (r matches Some(Reply::Text(t)) && t@.len() == INVITATION_CODE_LENGTH
            && forall|i: int| 0 <= i < t@.len() ==> crate::random::is_code_char(#[trigger] t@[i])),
        (q is LocalTime || q is UtcTime) ==> (r matches Some(Reply::Time(_))),
{
    match q {
        Query::NewUuid => Some(Reply::Text(crate::random::random_uuid())),
        Query::NewInvitationCode => Some(Reply::Text(crate::random::generate_random_code(INVITATION_CODE_LENGTH))),
        Query::LocalTime => Some(Reply::Time(crate::clock::local_now_micros())),
        Query::UtcTime => Some(Reply::Time(crate::clock::utc_now_micros())),
        _ => None,
    }
}

} // verus!
