//! Invitations: when they expire and the e-mail that carries them.
use vstd::prelude::*;
use vstd::string::StringExecFns;
use crate::handlers::board::{role_label, role_name};
use crate::text::{replace_all, replaced};

verus! {

/// How long an invitation stays valid: two days, in microseconds.
pub const INVITATION_LIFETIME_MICROS: i64 = 172_800_000_000;

/// Where the template of invitation e-mails is read from.
pub fn email_template_path() -> (r: String)
    ensures
        r@ == "./src/email_template.html"@,
{
    String::from_str("./src/email_template.html")
}

/// The subject of invitation e-mails.
pub fn invitation_subject() -> (r: String)
    ensures
        r@ == "Board Invitation"@,
{
    String::from_str("Board Invitation")
}

/// The link that accepts the invitation with `code`.
pub open spec fn invitation_link(code: Seq<char>) -> Seq<char> {
    "http://127.0.0.1:8080/invitation/"@ + code
}

/// The invitation e-mail: the template with the board's name, the issuer's
/// address, the offered role and the acceptance link filled in, in that
/// order.
pub open spec fn invitation_email(
    template: Seq<char>,
    board_name: Seq<char>,
    issuer: Seq<char>,
    role: i32,
    code: Seq<char>,
) -> Seq<char> {
    replaced(
        replaced(
            replaced(replaced(template, "{{board_name}}"@, board_name), "{{issuer_name}}"@, issuer),
            "{{board_role}}"@,
            role_name(role),
        ),
        "{{invitation_link}}"@,
        invitation_link(code),
    )
}

/// The acceptance link for `code`.
pub fn invitation_url(code: &str) -> (r: String)
    ensures
        r@ == invitation_link(code@),
{
    let mut r = String::from_str("http://127.0.0.1:8080/invitation/");
    r.append(code);
    r
}

/// Fills in the invitation e-mail template.
pub fn render_invitation_email(template: &str, board_name: &str, issuer: &str, role: i32, code: &str) -> (r: String)
    ensures
        r@ == invitation_email(template@, board_name@, issuer@, role, code@),
{
    proof {
        reveal_strlit("{{board_name}}");
        reveal_strlit("{{issuer_name}}");
        reveal_strlit("{{board_role}}");
        reveal_strlit("{{invitation_link}}");
    }
    let step1 = replace_all(template, "{{board_name}}", board_name);
    let step2 = replace_all(step1.as_str(), "{{issuer_name}}", issuer);
    let role_text = role_label(role);
    let step3 = replace_all(step2.as_str(), "{{board_role}}", role_text.as_str());
    let link = invitation_url(code);
    replace_all(step3.as_str(), "{{invitation_link}}", link.as_str())
}

/// When an invitation issued at `now` expires, or `None` where that point
/// lies beyond the representable times.
pub fn invitation_expiry(now: i64) -> (r: Option<i64>)
    ensures
        r is Some <==> now <= i64::MAX - INVITATION_LIFETIME_MICROS,
        r matches Some(t) ==> t == now + INVITATION_LIFETIME_MICROS,
{
    if now <= i64::MAX - INVITATION_LIFETIME_MICROS {
        Some(now + INVITATION_LIFETIME_MICROS)
    } else {
        None
    }
}

} // verus!
