//! The rules of the browser client: how roles are named and chosen, when a
//! page sends the user elsewhere, how answers of the service are read, the
//! session store, notifications, and the checks of its forms.
use vstd::prelude::*;
use vstd::string::{StrSliceExecFns, StringExecFns};

verus! {

/// A board as the client lists it.
#[derive(Debug, Clone, PartialEq, Eq)]
pub struct BoardResponse {
    pub id: i32,
    pub name: String,
    pub path: String,
    pub owner_id: i32,
}

/// A board as a board card shows it.
#[derive(Debug, Clone, PartialEq, Eq)]
pub struct BoardCardResponse {
    pub id: i32,
    pub name: String,
    pub owner: String,
    pub role: String,
}

/// A board opened for drawing, with the user's role on it.
#[derive(Debug, Clone, PartialEq, Eq)]
pub struct SingleBoardResponse {
    pub id: i32,
    pub name: String,
    pub data: String,
    pub role: String,
}

/// A member of a board as the share dialog lists it.
#[derive(Debug, Clone, PartialEq, Eq)]
pub struct PermissionPayload {
    pub email: String,
    pub permission_type: i32,
}

/// What the client sends to withdraw a member's permission.
#[derive(Debug, Clone, PartialEq, Eq)]
pub struct DeletePermissionPayload {
    pub board_id: i32,
    pub user_email: String,
    pub user_role: i32,
}

/// The answer to a login: the token and the address it was issued to.
#[derive(Debug, Clone, PartialEq, Eq)]
pub struct AuthResponse {
    pub token: String,
    pub email: String,
}

/// What the client remembers across pages: who is logged in, with which
/// token (both empty when nobody is).
#[derive(Debug, Clone, PartialEq, Eq)]
pub struct Store {
    pub username: String,
    pub token: String,
}

impl Store {
    /// Nobody logged in.
    pub fn new() -> (s: Store)
        ensures
            s.username@.len() == 0,
            s.token@.len() == 0,
    {
        Store { username: String::new(), token: String::new() }
    }
}

impl Default for Store {
    /// Nobody logged in.
    fn default() -> (s: Store)
        ensures
            s.username@.len() == 0,
            s.token@.len() == 0,
    {
        Store::new()
    }
}

/// Remembers the user a login answered for.
pub fn login_reducer(auth_response: AuthResponse, store: &mut Store)
    ensures
        final(store).username == auth_response.email,
        final(store).token == auth_response.token,
{
    store.username = auth_response.email;
    store.token = auth_response.token;
}

/// Forgets the logged-in user.
pub fn logout(store: &mut Store)
    ensures
        final(store).username@.len() == 0,
        final(store).token@.len() == 0,
{
    store.username = String::new();
    store.token = String::new();
}

/// The code of a role chosen in the share dialog: "Viewer" 0, "Editor" 1,
/// "Owner" 2, anything else -1.
pub open spec fn spec_role_code(role: Seq<char>) -> i32 {
    if role == "Viewer"@ {
        0
    } else if role == "Editor"@ {
        1
    } else if role == "Owner"@ {
        2
    } else {
        -1i32
    }
}

/// The code of a role name.
pub fn role_code(role: &str) -> (c: i32)
    ensures
        c == spec_role_code(role@),
{
    let r = role.to_owned();
    if r == String::from_str("Viewer") {
        0
    } else if r == String::from_str("Editor") {
        1
    } else if r == String::from_str("Owner") {
        2
    } else {
        -1i32
    }
}

/// Whether a board card offers sharing and deleting: only to the owner.
pub fn shows_owner_actions(role: &str) -> (b: bool)
    ensures
        b == (role@ == "Owner"@),
{
    role.to_owned() == String::from_str("Owner")
}

/// The pages of the client.
#[derive(Debug, Clone, PartialEq, Eq)]
pub enum Route {
    Home,
    Login,
    Register,
    Board { id: i32 },
    AcceptIntivation { code: String },
    NotFound,
}

/// Where a page sends the user once the service has said whether their
/// token is good (status 200): pages for users send others to the login
/// page; the login and registration pages send users home; the unknown page
/// sends everybody to one of the two.
pub open spec fn spec_redirect(page: Route, status: i32) -> Option<Route> {
    match page {
        Route::Home | Route::Board { .. } => if status != 200 {
            Some(Route::Login)
        } else {
            None
        },
        Route::Login | Route::Register => if status == 200 {
            Some(Route::Home)
        } else {
            None
        },
        Route::NotFound => if status == 200 {
            Some(Route::Home)
        } else {
            Some(Route::Login)
        },
        Route::AcceptIntivation { .. } => None,
    }
}

/// Where `page` sends the user when asking who they are got `status`.
pub fn redirect_after_whoami(page: &Route, status: i32) -> (r: Option<Route>)
    ensures
        r == spec_redirect(*page, status),
{
    match page {
        Route::Home | Route::Board { .. } => if status != 200 {
            Some(Route::Login)
        } else {
            None
        },
        Route::Login | Route::Register => if status == 200 {
            Some(Route::Home)
        } else {
            None
        },
        Route::NotFound => if status == 200 {
            Some(Route::Home)
        } else {
            Some(Route::Login)
        },
        Route::AcceptIntivation { .. } => None,
    }
}

/// Whether an HTTP status is a success (2xx).
pub open spec fn is_success(status: u16) -> bool {
    200 <= status <= 299
}

/// What a login shows for an answer with `status`: nothing to show (read
/// the answer) on success, else the message.
pub open spec fn spec_login_failure(status: u16) -> Option<Seq<char>> {
    if status == 404 {
        Some("Invalid credentials"@)
    } else if is_success(status) {
        None
    } else {
        Some("Something went wrong"@)
    }
}

/// What a registration shows for an answer with `status`.
pub open spec fn spec_register_failure(status: u16) -> Option<Seq<char>> {
    if status == 404 {
        Some("Something went wrong"@)
    } else if status == 400 {
        Some("Email already exists"@)
    } else if is_success(status) {
        None
    } else {
        Some("Something went wrong"@)
    }
}

/// The message of a failed login for `status`, or `None` when the answer
/// is to be read.
pub fn login_failure(status: u16) -> (r: Option<String>)
    ensures
        r is Some <==> spec_login_failure(status) is Some,
        r matches Some(m) ==> spec_login_failure(status) == Some(m@),
{
    if status == 404 {
        Some(String::from_str("Invalid credentials"))
    } else if 200 <= status && status <= 299 {
        None
    } else {
        Some(String::from_str("Something went wrong"))
    }
}

/// The message of a failed registration for `status`, or `None` when the
/// answer is to be read.
pub fn register_failure(status: u16) -> (r: Option<String>)
    ensures
        r is Some <==> spec_register_failure(status) is Some,
        r matches Some(m) ==> spec_register_failure(status) == Some(m@),
{
    if status == 404 {
        Some(String::from_str("Something went wrong"))
    } else if status == 400 {
        Some(String::from_str("Email already exists"))
    } else if 200 <= status && status <= 299 {
        None
    } else {
        Some(String::from_str("Something went wrong"))
    }
}

/// The message when an answer cannot be read, or a login cannot be sent.
pub fn something_went_wrong() -> (r: String)
    ensures
        r@ == "Something went wrong"@,
{
    String::from_str("Something went wrong")
}

/// The message when a registration cannot be sent.
pub fn network_error() -> (r: String)
    ensures
        r@ == "Network error occurred"@,
{
    String::from_str("Network error occurred")
}

/// A notification shown in a corner of the page.
#[derive(Debug, Clone, PartialEq, Eq)]
pub struct Toast {
    pub title: String,
    pub message: String,
}

/// The notification with `title` and `message`.
pub fn toast_notification(title: String, message: String) -> (t: Toast)
    ensures
        t.title == title,
        t.message == message,
{
    Toast { title, message }
}

/// The notification that board `name` was created.
pub fn board_created_toast(name: &str) -> (t: Toast)
    ensures
        t.title@ == "Info"@,
        t.message@ == "Created board "@ + name@,
{
    let mut message = String::from_str("Created board ");
    message.append(name);
    toast_notification(String::from_str("Info"), message)
}

} // verus!
