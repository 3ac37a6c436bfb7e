//! What requests carry in and responses carry out.
use vstd::prelude::*;

verus! {

/// Credentials sent to log in.
#[derive(Debug, Clone, PartialEq, Eq)]
pub struct LoginPayload {
    pub email: String,
    pub password: String,
}

/// The name of a board to create.
#[derive(Debug, Clone, PartialEq, Eq)]
pub struct BoardPayload {
    pub name: String,
}

/// What a user may learn about themself.
#[derive(Debug, Clone, PartialEq, Eq)]
pub struct UserResponse {
    pub name: String,
    pub surname: String,
    pub email: String,
}

/// An invitation request, also used to change a granted role.
#[derive(Debug, Clone, PartialEq, Eq)]
pub struct InvitationPayload {
    pub user_email: String,
    pub board_id: i32,
    pub role: i32,
}

/// Whose permission on which board to withdraw.
#[derive(Debug, Clone, PartialEq, Eq)]
pub struct DeletePermissionParams {
    pub user_email: String,
    pub board_id: i32,
}

/// A member of a board and the role they hold.
#[derive(Debug, Clone, PartialEq, Eq)]
pub struct UserPermission {
    pub email: String,
    pub permission_type: i32,
}

/// A board as shown to one of its members: its drawing and the member's role.
#[derive(Debug, Clone, PartialEq, Eq)]
pub struct BoardResponse {
    pub id: i32,
    pub name: String,
    pub data: String,
    pub role: String,
}

/// The drawing file of a board: one JSON text per drawn element.
#[derive(Debug, Clone, PartialEq, Eq)]
pub struct UpdateBoardPayload {
    pub elements: Vec<String>,
}

/// What the service reads of a drawn element.
#[derive(Debug, Clone, PartialEq, Eq)]
pub struct BoardElement {
    pub id: String,
    pub is_deleted: bool,
}

/// The answer to a successful login.
#[derive(Debug, Clone, PartialEq, Eq)]
pub struct LoginResponse {
    pub token: String,
    pub email: String,
}

/// The answer of a request that only succeeds or fails.
#[derive(Debug, Clone, Copy, PartialEq, Eq)]
pub struct ApiResult {
    pub success: bool,
}

} // verus!

verus! {

impl UserPermission {
    /// A copy of this row.
    pub fn duplicate(&self) -> (r: UserPermission)
        ensures
            r == *self,
    {
        UserPermission { email: self.email.clone(), permission_type: self.permission_type }
    }
}

/// A copy of a list of members.
pub fn duplicate_members(ms: &Vec<UserPermission>) -> (r: Vec<UserPermission>)
    ensures
        r@ == ms@,
{
    let mut r: Vec<UserPermission> = Vec::new();
    let mut i: usize = 0;
    while i < ms.len()
        invariant
            i <= ms@.len(),
            r@ == ms@.subrange(0, i as int),
        decreases ms@.len() - i,
    {
        r.push(ms[i].duplicate());
        i = i + 1;
        assert(r@ =~= ms@.subrange(0, i as int));
    }
    assert(ms@.subrange(0, ms@.len() as int) =~= ms@);
    r
}

} // verus!
