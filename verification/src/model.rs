//! Rows of the service's tables: users, boards, permissions, invitations.
use vstd::prelude::*;

verus! {

/// A user to be registered.
#[derive(Debug, Clone, PartialEq, Eq)]
pub struct NewUser {
    pub name: String,
    pub surname: String,
    pub email: String,
    pub password: String,
}

/// A registered user; `password` holds the stored form of the password.
#[derive(Debug, Clone, PartialEq, Eq)]
pub struct User {
    pub id: i32,
    pub name: String,
    pub surname: String,
    pub email: String,
    pub password: String,
}

/// A board to be created.
#[derive(Debug, Clone, PartialEq, Eq)]
pub struct NewBoard {
    pub name: String,
    pub path: String,
    pub owner_id: i32,
}

/// A board; `path` names the file that holds its drawing.
#[derive(Debug, Clone, PartialEq, Eq)]
pub struct Board {
    pub id: i32,
    pub name: String,
    pub path: String,
    pub owner_id: i32,
}

/// A permission to be granted.
#[derive(Debug, Clone, Copy, PartialEq, Eq)]
pub struct NewPermission {
    pub board_id: i32,
    pub user_id: i32,
    pub role: i32,
}

/// The role a user other than the owner holds on a board
/// (0 viewer, 1 editor, 2 owner).
#[derive(Debug, Clone, Copy, PartialEq, Eq)]
pub struct Permission {
    pub board_id: i32,
    pub user_id: i32,
    pub role: i32,
}

/// An invitation to be stored. `expire` is a point in time in microseconds
/// since 1970-01-01 00:00:00 (the stored timestamp carries no time zone).
#[derive(Debug, Clone, PartialEq, Eq)]
pub struct NewInvitation {
    pub code: String,
    pub role: i32,
    pub expire: i64,
    pub board_id: i32,
    pub user_id: i32,
}

/// A stored invitation of user `user_id` to board `board_id` with `role`.
#[derive(Debug, Clone, PartialEq, Eq)]
pub struct Invitation {
    pub id: i32,
    pub code: String,
    pub role: i32,
    pub expire: i64,
    pub user_id: i32,
    pub board_id: i32,
}

impl User {
    /// A copy of this row.
    pub fn duplicate(&self) -> (r: User)
        ensures
            r == *self,
    {
        User {
            id: self.id,
            name: self.name.clone(),
            surname: self.surname.clone(),
            email: self.email.clone(),
            password: self.password.clone(),
        }
    }
}

impl Board {
    /// A copy of this row.
    pub fn duplicate(&self) -> (r: Board)
        ensures
            r == *self,
    {
        Board { id: self.id, name: self.name.clone(), path: self.path.clone(), owner_id: self.owner_id }
    }
}

impl Invitation {
    /// A copy of this row.
    pub fn duplicate(&self) -> (r: Invitation)
        ensures
            r == *self,
    {
        Invitation {
            id: self.id,
            code: self.code.clone(),
            role: self.role,
            expire: self.expire,
            user_id: self.user_id,
            board_id: self.board_id,
        }
    }
}

/// A copy of a list of boards.
pub fn duplicate_boards(boards: &Vec<Board>) -> (r: Vec<Board>)
    ensures
        r@ == boards@,
{
    let mut r: Vec<Board> = Vec::new();
    let mut i: usize = 0;
    while i < boards.len()
        invariant
            i <= boards@.len(),
            r@ == boards@.subrange(0, i as int),
        decreases boards@.len() - i,
    {
        r.push(boards[i].duplicate());
        i = i + 1;
        assert(r@ =~= boards@.subrange(0, i as int));
    }
    assert(boards@.subrange(0, boards@.len() as int) =~= boards@);
    r
}

} // verus!
