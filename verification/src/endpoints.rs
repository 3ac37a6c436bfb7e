//! The requests the browser client sends: where each goes, the header that
//! carries the token, and how its answer's status is read.
use vstd::prelude::*;
use vstd::string::StringExecFns;
use crate::text::push_char;

verus! {

/// The decimal digits of `n`, most significant first, without leading zeros.
pub open spec fn decimal_digits(n: nat) -> Seq<char>
    decreases n,
{
    if n < 10 {
        seq![(n + 48) as char]
    } else {
        decimal_digits(n / 10).push(((n % 10) + 48) as char)
    }
}

/// `n` written in decimal, as `format!("{}", n)` writes it.
pub open spec fn decimal(n: int) -> Seq<char> {
    if n < 0 {
        seq!['-'] + decimal_digits((-n) as nat)
    } else {
        decimal_digits(n as nat)
    }
}

fn push_digits(out: &mut String, n: u32)
    ensures
        final(out)@ == old(out)@ + decimal_digits(n as nat),
    decreases n,
{
    if n >= 10 {
        push_digits(out, n / 10);
    }
    let d = (n % 10) as u8;
    push_char(out, (d + 48) as char);
    proof {
        if n < 10 {
            assert(n % 10 == n);
        }
    }
    assert(out@ =~= old(out)@ + decimal_digits(n as nat)) by {
        if n >= 10 {
            assert(decimal_digits(n as nat) == decimal_digits((n / 10) as nat).push(((n % 10) + 48) as char));
        }
    };
}

/// `n` in decimal.
pub fn decimal_string(n: i32) -> (r: String)
    ensures
        r@ == decimal(n as int),
{
    let mut r = String::new();
    if n < 0 {
        push_char(&mut r, '-');
        let m: i64 = -(n as i64);
        push_digits(&mut r, m as u32);
    } else {
        push_digits(&mut r, n as u32);
    }
    r
}


/// The decimal digits of `n` are digits, at least one, and read back as `n`.
pub proof fn lemma_decimal_digits(n: nat)
    ensures
        decimal_digits(n).len() > 0,
        crate::text::all_digits(decimal_digits(n)),
        crate::text::digits_value(decimal_digits(n)) == n,
    decreases n,
{
    let ds = decimal_digits(n);
    if n >= 10 {
        lemma_decimal_digits(n / 10);
        let c = ((n % 10) + 48) as char;
        assert(ds.drop_last() =~= decimal_digits(n / 10));
        assert(ds.last() == c);
        assert(c as int == (n % 10) + 48);
        assert(10 * (n / 10) + n % 10 == n) by (nonlinear_arith);
        assert(crate::text::digits_value(ds) == 10 * crate::text::digits_value(ds.drop_last()) + (ds.last() as int - 48));
        assert(forall|i: int| 0 <= i < ds.len() ==> crate::text::is_digit(#[trigger] ds[i])) by {
            assert forall|i: int| 0 <= i < ds.len() implies crate::text::is_digit(#[trigger] ds[i]) by {
                if i < ds.len() - 1 {
                    assert(ds[i] == decimal_digits(n / 10)[i]);
                }
            }
        }
    } else {
        assert(ds.drop_last() =~= Seq::<char>::empty());
        assert(ds.last() as int == n + 48);
        assert(crate::text::digits_value(ds.drop_last()) == 0);
    }
}

} // verus!

verus! {

/// Where the service's API is reached.
pub open spec fn api_base() -> Seq<char> {
    "http://localhost:3000/api"@
}

fn api(path: &str) -> (r: String)
    ensures
        r@ == api_base() + path@,
{
    let mut r = String::from_str("http://localhost:3000/api");
    r.append(path);
    r
}

/// The header that carries `token`: `Bearer <token>`.
pub fn bearer_header(token: &str) -> (r: String)
    ensures
        r@ == "Bearer "@ + token@,
{
    let mut r = String::from_str("Bearer ");
    r.append(token);
    r
}

/// Where credentials are sent to log in.
pub fn login_url() -> (r: String)
    ensures
        r@ == api_base() + "/login"@,
{
    api("/login")
}

/// Where a new user is sent to register.
pub fn register_url() -> (r: String)
    ensures
        r@ == api_base() + "/register"@,
{
    api("/register")
}

/// Where the client asks whose token it holds.
pub fn whoami_url() -> (r: String)
    ensures
        r@ == api_base() + "/whoami"@,
{
    api("/whoami")
}

/// Where boards are created and listed.
pub fn boards_url() -> (r: String)
    ensures
        r@ == api_base() + "/board"@,
{
    api("/board")
}

/// Where board `id` is fetched.
pub fn board_url(id: i32) -> (r: String)
    ensures
        r@ == api_base() + "/board/"@ + decimal(id as int),
{
    let mut r = api("/board/");
    let d = decimal_string(id);
    r.append(d.as_str());
    r
}

/// Where invitations are sent.
pub fn invite_url() -> (r: String)
    ensures
        r@ == api_base() + "/invite"@,
{
    api("/invite")
}

/// Where the members of board `board_id` are listed.
pub fn permissions_url(board_id: i32) -> (r: String)
    ensures
        r@ == api_base() + "/permission/"@ + decimal(board_id as int),
{
    let mut r = api("/permission/");
    let d = decimal_string(board_id);
    r.append(d.as_str());
    r
}

/// Where the permission of `user_email` on `board_id` is withdrawn (the
/// address goes into the query as it is).
pub fn delete_permission_url(user_email: &str, board_id: i32) -> (r: String)
    ensures
        r@ == api_base() + "/permission?user_email="@ + user_email@ + "&board_id="@ + decimal(board_id as int),
{
    let mut r = api("/permission?user_email=");
    r.append(user_email);
    r.append("&board_id=");
    let d = decimal_string(board_id);
    r.append(d.as_str());
    r
}

/// Where the invitation with `code` is accepted.
pub fn accept_invitation_url(code: &str) -> (r: String)
    ensures
        r@ == api_base() + "/invite/accept/"@ + code@,
{
    let mut r = api("/invite/accept/");
    r.append(code);
    r
}

/// Whether an invitation was sent, or accepted: the answer's status is 200.
pub fn request_succeeded(status: u16) -> (b: bool)
    ensures
        b == (status == 200),
{
    status == 200
}

} // verus!
