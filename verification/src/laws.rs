//! Properties of the service that span its functions, proved from their
//! contracts.
use vstd::prelude::*;
use crate::client::spec_role_code;
use crate::dto::{ApiResult, BoardPayload, DeletePermissionParams, InvitationPayload, LoginPayload};
use crate::error::{Error, spec_client_status_and_error};
use crate::handlers::{Query, Reply, Step, board_of, grants_owner_role, invitation_of, permission_of, time_of, user_of};
use crate::handlers::auth::{login_next, register_next};
use crate::handlers::board::{ROLE_EDITOR, ROLE_OWNER, ROLE_VIEWER, create_board_next, delete_board_next, get_board_next, role_name};
use crate::board_file::empty_drawing_text;
use crate::json::json_compact;
use crate::handlers::permission::{
    accept_invitation_next, change_permission_next, create_invitation_next, delete_permission_next,
    get_permission_next,
};
use crate::keyed::pairs_to_map;
use crate::model::{Board, Invitation, NewUser, Permission, User};
use crate::password::password_hash;
use crate::text::{is_prefix, occurs_at, replaced};
use crate::ws::{admission_next, may_edit, Admission, chat_line_spec, element_pairs, joined, merged_state, DrawnElement, RoomState};

verus! {

/// Queries that change stored data or reach other people.
pub open spec fn changes_data(q: Query) -> bool {
    match q {
        Query::InsertUser(_) | Query::InsertBoard(_) | Query::InsertInvitation(_) | Query::InsertPermission(_)
        | Query::UpdatePermissionRole { .. } | Query::DeletePermissionsOfBoard(_) | Query::DeleteBoard(_)
        | Query::DeletePermission { .. } | Query::DeleteInvitation(_) | Query::CreateFile { .. }
        | Query::SendEmail { .. } => true,
        _ => false,
    }
}

/// The requester (`k_user`-th reply) owns the board (`k_board`-th reply).
pub open spec fn owner_confirmed(rs: Seq<Reply>, k_user: int, k_board: int) -> bool {
    &&& k_user < rs.len()
    &&& k_board < rs.len()
    &&& user_of(rs[k_user]) is Some
    &&& board_of(rs[k_board]) is Some
    &&& board_of(rs[k_board])->0.owner_id == user_of(rs[k_user])->0.id
}

/// The requester (`k_user`-th reply) may manage the board (`k_board`-th
/// reply): they own it, or the reply after the board grants them the Owner
/// role on it.
pub open spec fn manager_confirmed(rs: Seq<Reply>, k_user: int, k_board: int) -> bool {
    ||| owner_confirmed(rs, k_user, k_board)
    ||| {
        &&& k_board + 1 < rs.len()
        &&& user_of(rs[k_user]) is Some
        &&& board_of(rs[k_board]) is Some
        &&& grants_owner_role(rs[k_board + 1])
    }
}

/// The query that looked up the requester's permission on the board.
pub open spec fn permission_lookup(rs: Seq<Reply>, k_user: int, k_board: int) -> Query {
    Query::FindPermission { user_id: user_of(rs[k_user])->0.id, board_id: board_of(rs[k_board])->0.id }
}

/// Only those who may manage a board delete it: deleting anything happens
/// only once the requester is seen to own the board, or to hold the Owner
/// role on it, as found by looking up their own permission on that board.
pub proof fn law_only_managers_delete_board(email: String, board_id: i32, rs: Seq<Reply>)
    ensures
        (delete_board_next(email, board_id, rs) matches Step::Run(q) && changes_data(q)) ==> {
            &&& manager_confirmed(rs, 1, 2)
            &&& !owner_confirmed(rs, 1, 2) ==> delete_board_next(email, board_id, rs.subrange(0, 3))
                == Step::<ApiResult>::Run(permission_lookup(rs, 1, 2))
        },
{
}

/// A requester who neither owns the board nor holds the Owner role on it is
/// refused its deletion.
pub proof fn law_non_manager_cannot_delete_board(email: String, board_id: i32, rs: Seq<Reply>, u: User, b: Board)
    requires
        rs.len() >= 4,
        rs[0] is Done,
        rs[1] == Reply::User(u),
        rs[2] == Reply::Board(b),
        b.owner_id != u.id,
        !grants_owner_role(rs[3]),
    ensures
        delete_board_next(email, board_id, rs) == Step::<ApiResult>::Finish(Err(Error::PermissionDenied)),
{
}

/// A user holding the Owner role on a board may delete it as its creator
/// may: after their permission is found, the board's permissions are
/// deleted.
pub proof fn law_owner_role_deletes_board(email: String, board_id: i32, u: User, b: Board, p: Permission)
    requires
        b.owner_id != u.id,
        p.role == ROLE_OWNER,
    ensures
        delete_board_next(email, board_id, seq![Reply::Done, Reply::User(u), Reply::Board(b), Reply::Permission(p)])
            == Step::<ApiResult>::Run(Query::DeletePermissionsOfBoard(board_id)),
{
}

/// Only those who may manage a board invite users to it: an invitation is
/// stored or mailed only once the requester is seen to own the board, or
/// to hold the Owner role on it.
pub proof fn law_only_managers_invite(email: String, payload: InvitationPayload, rs: Seq<Reply>, s: Step<Invitation>)
    requires
        create_invitation_next(email, payload, rs, s),
    ensures
        (s matches Step::Run(q) && changes_data(q)) ==> manager_confirmed(rs, 1, 3),
{
}

/// Only those who may manage a board change the roles on it.
pub proof fn law_only_managers_change_roles(email: String, payload: InvitationPayload, rs: Seq<Reply>)
    ensures
        (change_permission_next(email, payload, rs) matches Step::Run(q) && changes_data(q)) ==> {
            &&& manager_confirmed(rs, 1, 3)
            &&& !owner_confirmed(rs, 1, 3) ==> change_permission_next(email, payload, rs.subrange(0, 4))
                == Step::<ApiResult>::Run(permission_lookup(rs, 1, 3))
        },
{
}

/// Only those who may manage a board withdraw permissions on it.
pub proof fn law_only_managers_withdraw(email: String, params: DeletePermissionParams, rs: Seq<Reply>)
    ensures
        (delete_permission_next(email, params, rs) matches Step::Run(q) && changes_data(q)) ==> {
            &&& manager_confirmed(rs, 1, 3)
            &&& !owner_confirmed(rs, 1, 3) ==> delete_permission_next(email, params, rs.subrange(0, 4))
                == Step::<ApiResult>::Run(permission_lookup(rs, 1, 3))
        },
{
}

/// A board is shown only to its owner or to a user holding a permission on
/// it: its file is read only then.
pub proof fn law_board_shown_only_to_members(email: String, board_id: i32, rs: Seq<Reply>, s: Step<crate::dto::BoardResponse>)
    requires
        get_board_next(email, board_id, rs, s),
        s matches Step::Run(Query::ReadFile(_)),
    ensures
        owner_confirmed(rs, 1, 2) || (rs.len() > 3 && permission_of(rs[3]) is Some),
{
}

/// The owner of a board sees it as "Owner"; a member sees it with the role
/// their permission grants.
pub proof fn law_board_role(email: String, board_id: i32, rs: Seq<Reply>, s: Step<crate::dto::BoardResponse>)
    requires
        get_board_next(email, board_id, rs, s),
        s matches Step::Finish(Ok(_)),
    ensures
        owner_confirmed(rs, 1, 2) ==> s->Finish_0->Ok_0.role@ == "Owner"@,
        !owner_confirmed(rs, 1, 2) ==> (rs.len() > 3 && permission_of(rs[3]) is Some
            && s->Finish_0->Ok_0.role@ == role_name(permission_of(rs[3])->0.role)),
{
}

/// A board's members are listed only to its owner or to a member.
pub proof fn law_members_listed_only_to_members(email: String, board_id: i32, rs: Seq<Reply>, s: Step<Vec<crate::dto::UserPermission>>)
    requires
        get_permission_next(email, board_id, rs, s),
        s matches Step::Run(Query::LoadBoardMembers(_)),
    ensures
        owner_confirmed(rs, 1, 2) || (rs.len() > 3 && permission_of(rs[3]) is Some),
{
}

/// An invitation grants a role only to the user it was made for, under its
/// own code, before it expires, and grants exactly the board and role it
/// offers.
pub proof fn law_invitation_grants(email: String, code: String, rs: Seq<Reply>)
    ensures
        accept_invitation_next(email, code, rs) matches Step::Run(Query::InsertPermission(np)) ==> {
            &&& rs.len() == 4
            &&& user_of(rs[1]) is Some
            &&& invitation_of(rs[2]) is Some
            &&& time_of(rs[3]) is Some
            &&& invitation_of(rs[2])->0.user_id == user_of(rs[1])->0.id
            &&& invitation_of(rs[2])->0.code@ == code@
            &&& time_of(rs[3])->0 <= invitation_of(rs[2])->0.expire
            &&& np.user_id == user_of(rs[1])->0.id
            &&& np.board_id == invitation_of(rs[2])->0.board_id
            &&& np.role == invitation_of(rs[2])->0.role
        },
{
}

/// An expired invitation is refused.
pub proof fn law_expired_invitation_refused(email: String, code: String, rs: Seq<Reply>, u: User, inv: Invitation, now: i64)
    requires
        rs.len() >= 4,
        rs[0] is Done,
        rs[1] == Reply::User(u),
        rs[2] == Reply::Invitation(inv),
        rs[3] == Reply::Time(now),
        inv.user_id == u.id,
        inv.code@ == code@,
        inv.expire < now,
    ensures
        accept_invitation_next(email, code, rs) == Step::<ApiResult>::Finish(Err(Error::InvitationExpired)),
{
}

/// A registered user can log in with the password they registered with:
/// the row stored for them passes the password check of a login with the
/// same address and password.
pub proof fn law_register_then_login(user: NewUser, rs: Seq<Reply>, s: Step<ApiResult>, stored: NewUser, id: i32, token: String)
    requires
        register_next(user, rs, s),
        s == Step::<ApiResult>::Run(Query::InsertUser(stored)),
        crate::validation::valid_email(user.email@),
    ensures
        ({
            let row = User { id, name: stored.name, surname: stored.surname, email: stored.email, password: stored.password };
            let payload = LoginPayload { email: user.email, password: user.password };
            &&& login_next(payload, seq![Reply::Done, Reply::User(row)])
                == Step::<crate::dto::LoginResponse>::Run(Query::IssueToken(user.email))
            &&& login_next(payload, seq![Reply::Done, Reply::User(row), Reply::Text(token)])
                == Step::<crate::dto::LoginResponse>::Finish(Ok(crate::dto::LoginResponse { token, email: user.email }))
        }),
{
}

/// A login with another password than the stored one is refused as if the
/// user did not exist.
pub proof fn law_wrong_password_refused(payload: LoginPayload, u: User, rs: Seq<Reply>)
    requires
        crate::validation::spec_login_payload_valid(payload),
        rs.len() >= 2,
        rs[0] is Done,
        rs[1] == Reply::User(u),
        u.password@ != password_hash(payload.password@),
    ensures
        login_next(payload, rs) == Step::<crate::dto::LoginResponse>::Finish(Err(Error::UserNotFound)),
{
}

/// Every error is answered with a client error status (400, 401, 403, 404)
/// or with 500, and a refused permission with 403.
pub proof fn law_error_statuses(e: Error)
    ensures
        ({
            let s = spec_client_status_and_error(e).0;
            s == 400 || s == 401 || s == 403 || s == 404 || s == 500
        }),
        e == Error::PermissionDenied ==> spec_client_status_and_error(e).0 == 403,
        spec_client_status_and_error(e).0 == 500 <==> (e == Error::FailToGetPool || e == Error::FailInsertDB
            || e == Error::FailDeleteDB || e == Error::FailUpdateDB || e == Error::FailCreatingFile),
{
}

/// The role names the service shows and the role codes the client sends
/// agree: each of the three roles goes back to its code.
pub proof fn law_role_names_and_codes(role: i32)
    requires
        role == ROLE_VIEWER || role == ROLE_EDITOR || role == ROLE_OWNER,
    ensures
        spec_role_code(role_name(role)) == role,
{
    reveal_strlit("Viewer");
    reveal_strlit("Editor");
    reveal_strlit("Owner");
    assert("Editor"@[0] != "Viewer"@[0]);
    assert("Owner"@[0] != "Viewer"@[0]);
    assert("Owner"@[0] != "Editor"@[0]);
}

/// A user's own lines are never sent back to them.
pub proof fn law_own_lines_not_echoed(email: Seq<char>, text: Seq<char>)
    ensures
        is_prefix(email, chat_line_spec(email, text)),
        is_prefix(email, email + " joined the chat!"@),
        is_prefix(email, email + " left the chat!"@),
{
    assert(chat_line_spec(email, text).subrange(0, email.len() as int) =~= email);
    assert((email + " joined the chat!"@).subrange(0, email.len() as int) =~= email);
    assert((email + " left the chat!"@).subrange(0, email.len() as int) =~= email);
}

/// Leaving a room undoes joining it, for a user who was not in it.
pub proof fn law_leave_undoes_join(rooms: Map<Seq<char>, RoomState>, board: Seq<char>, email: Seq<char>)
    requires
        rooms.dom().contains(board),
        !rooms[board].users.contains(email),
    ensures
        joined(rooms, board, email).users.remove(email) == rooms[board].users,
        joined(rooms, board, email).buffer == rooms[board].buffer,
{
    assert(joined(rooms, board, email).users.remove(email) =~= rooms[board].users);
}

proof fn lemma_saved_kept(saved: Seq<DrawnElement>, drawn: Seq<DrawnElement>, id: Seq<char>)
    requires
        forall|i: int| 0 <= i < drawn.len() ==> drawn[i].id@ != id,
    ensures
        merged_state(saved, drawn).dom().contains(id) == pairs_to_map(element_pairs(saved)).dom().contains(id),
        merged_state(saved, drawn)[id] == pairs_to_map(element_pairs(saved))[id],
    decreases drawn.len(),
{
    if drawn.len() == 0 {
        assert(saved + drawn =~= saved);
    } else {
        assert((saved + drawn).drop_last() =~= saved + drawn.drop_last());
        assert(element_pairs(saved + drawn).drop_last() =~= element_pairs((saved + drawn).drop_last()));
        lemma_saved_kept(saved, drawn.drop_last(), id);
        assert(drawn[drawn.len() - 1].id@ != id);
    }
}

/// When a room closes, an element drawn during the session has the text it
/// was last drawn with, and an element not drawn keeps its saved text.
pub proof fn law_session_overrides_saved(saved: Seq<DrawnElement>, drawn: Seq<DrawnElement>, e: DrawnElement, id: Seq<char>)
    requires
        forall|i: int| 0 <= i < drawn.len() ==> drawn[i].id@ != id,
    ensures
        merged_state(saved, drawn.push(e))[e.id@] == (e.text@, e.is_deleted),
        merged_state(saved, drawn)[id] == pairs_to_map(element_pairs(saved))[id],
{
    assert((saved + drawn.push(e)).drop_last() =~= saved + drawn);
    assert(element_pairs(saved + drawn.push(e)).drop_last() =~= element_pairs(saved + drawn));
    lemma_saved_kept(saved, drawn, id);
}

/// Filling in a template changes nothing where the placeholder does not
/// occur.
pub proof fn law_replace_without_occurrence(t: Seq<char>, p: Seq<char>, r: Seq<char>)
    requires
        p.len() > 0,
        forall|k: int| !occurs_at(t, p, k),
    ensures
        replaced(t, p, r) == t,
    decreases t.len(),
{
    if t.len() >= p.len() {
        assert(!occurs_at(t, p, 0));
        let rest = t.subrange(1, t.len() as int);
        assert forall|k: int| !occurs_at(rest, p, k) by {
            if occurs_at(rest, p, k) {
                assert(t.subrange(k + 1, k + 1 + p.len()) =~= rest.subrange(k, k + p.len()));
                assert(occurs_at(t, p, k + 1));
            }
        }
        law_replace_without_occurrence(rest, p, r);
        assert(t =~= seq![t[0]] + rest);
    }
}


/// An invitation link is used once: an acceptance succeeds only after the
/// role it offers was granted and the invitation, under its own code, was
/// deleted.
pub proof fn law_invitation_single_use(email: String, code: String, rs: Seq<Reply>)
    requires
        accept_invitation_next(email, code, rs) matches Step::Finish(Ok(_)),
    ensures
        rs.len() >= 6,
        accept_invitation_next(email, code, rs.subrange(0, 4)) matches Step::Run(Query::InsertPermission(_)),
        rs[4] is Done,
        accept_invitation_next(email, code, rs.subrange(0, 5)) matches Step::Run(Query::DeleteInvitation(c)) && c@ == code@,
{
}

/// The permissions of the board were deleted by the `k`-th reply, and
/// then the board by the next.
pub open spec fn deleted_in_order(email: String, board_id: i32, rs: Seq<Reply>, k: int) -> bool {
    &&& rs.len() >= k + 2
    &&& delete_board_next(email, board_id, rs.subrange(0, k)) == Step::<ApiResult>::Run(Query::DeletePermissionsOfBoard(board_id))
    &&& rs[k] is Done
    &&& delete_board_next(email, board_id, rs.subrange(0, k + 1)) == Step::<ApiResult>::Run(Query::DeleteBoard(board_id))
    &&& rs[k + 1] is Done
}

/// Deleting a board takes away everyone's access: it succeeds only after
/// every permission on the board was deleted, and then the board itself.
pub proof fn law_delete_board_revokes_access(email: String, board_id: i32, rs: Seq<Reply>)
    requires
        delete_board_next(email, board_id, rs) matches Step::Finish(Ok(_)),
    ensures
        deleted_in_order(email, board_id, rs, 3) || deleted_in_order(email, board_id, rs, 4),
{
}

/// The drawing read back from a broadcast line is the message its sender
/// sent, for a sender whose name holds no ": ": the line splits at the end
/// of the name and nowhere before.
pub proof fn law_drawing_part_of_chat_line(name: Seq<char>, text: Seq<char>, name2: Seq<char>, d: Seq<char>)
    requires
        forall|k: int| !occurs_at(name, ": "@, k),
        chat_line_spec(name2, d) == chat_line_spec(name, text),
        forall|k: int| 0 <= k < name2.len() ==> !occurs_at(chat_line_spec(name, text), ": "@, k),
    ensures
        occurs_at(chat_line_spec(name, text), ": "@, name.len() as int),
        name2 == name,
        d == text,
{
    reveal_strlit(": ");
    let line = chat_line_spec(name, text);
    let sep = ": "@;
    assert(line.subrange(name.len() as int, (name.len() + 2) as int) =~= sep);
    assert(line.subrange(name2.len() as int, (name2.len() + 2) as int) =~= sep) by {
        assert(chat_line_spec(name2, d).subrange(name2.len() as int, (name2.len() + 2) as int) =~= sep);
    }
    if name2.len() < name.len() {
        if name2.len() + 1 < name.len() {
            assert(name.subrange(name2.len() as int, (name2.len() + 2) as int) =~= line.subrange(name2.len() as int, (name2.len() + 2) as int));
            assert(occurs_at(name, sep, name2.len() as int));
        } else {
            assert(line[name.len() as int] == ':');
            assert(line.subrange(name2.len() as int, (name2.len() + 2) as int)[1] == ' ');
        }
    } else if name2.len() > name.len() {
        assert(occurs_at(line, sep, name.len() as int));
    }
    assert(name2 =~= line.subrange(0, name.len() as int));
    assert(name =~= line.subrange(0, name.len() as int));
    assert(d =~= line.subrange((name.len() + 2) as int, line.len() as int));
    assert(text =~= line.subrange((name.len() + 2) as int, line.len() as int));
}


/// A number written in decimal reads back as the same number: the ids the
/// client puts in addresses are the ids the service parses.
pub proof fn law_decimal_round_trip(n: i32)
    ensures
        crate::text::spec_parse_i32(crate::endpoints::decimal(n as int)) == Some(n),
{
    let m: nat = if n < 0 { (-n) as nat } else { n as nat };
    crate::endpoints::lemma_decimal_digits(m);
    let digits = crate::endpoints::decimal_digits(m);
    let s = crate::endpoints::decimal(n as int);
    assert(crate::text::is_digit(digits[0]));
    if n < 0 {
        assert(s[0] == '-');
        assert(s.subrange(1, s.len() as int) =~= digits);
    } else {
        assert(s == digits);
    }
}


/// A member whose permission is the Viewer role enters a board's room as a
/// Viewer and may not change its drawing; an Editor may, and so may the
/// board's owner.
pub proof fn law_viewer_enters_read_only(email: String, board_text: Seq<char>, u: User, b: Board, p: Permission, id: i32)
    requires
        crate::text::spec_parse_i32(board_text) == Some(id),
        b.owner_id != u.id,
    ensures
        p.role == ROLE_VIEWER ==> admission_next(
            email,
            board_text,
            seq![Reply::Done, Reply::User(u), Reply::Board(b), Reply::Permission(p)],
        ) == Step::<Admission>::Finish(Ok(Admission::Admitted(id, ROLE_VIEWER))),
        !may_edit(ROLE_VIEWER),
        may_edit(ROLE_EDITOR),
        admission_next(email, board_text, seq![Reply::Done, Reply::User(u), Reply::Board(Board { owner_id: u.id, ..b })])
            == Step::<Admission>::Finish(Ok(Admission::Admitted(id, ROLE_OWNER))),
        may_edit(ROLE_OWNER),
{
}


/// A role chosen by name in the share form reads back under the same name
/// once granted: each of the three names goes to a code that is shown as
/// that name.
pub proof fn law_role_names_round_trip(name: Seq<char>)
    requires
        name == "Viewer"@ || name == "Editor"@ || name == "Owner"@,
    ensures
        role_name(spec_role_code(name)) == name,
{
    reveal_strlit("Viewer");
    reveal_strlit("Editor");
    reveal_strlit("Owner");
    assert("Editor"@[0] != "Viewer"@[0]);
    assert("Owner"@[0] != "Viewer"@[0]);
    assert("Owner"@[0] != "Editor"@[0]);
}

/// An invitation that is no longer stored (it was accepted before, and so
/// deleted) is refused, and nothing is granted.
pub proof fn law_used_invitation_refused(email: String, code: String, u: User, rs: Seq<Reply>)
    requires
        rs.len() >= 3,
        rs[0] is Done,
        rs[1] == Reply::User(u),
        invitation_of(rs[2]) is None,
    ensures
        accept_invitation_next(email, code, rs) == Step::<ApiResult>::Finish(Err(Error::InvitationNotFound)),
{
}

/// Accepting an invitation made by `create_invitation` grants the invited
/// user the board and the role the invitation was made for, when the row
/// stored is the row that was inserted and the invitation has not expired.
pub proof fn law_invite_then_accept(
    email: String,
    payload: InvitationPayload,
    rs: Seq<Reply>,
    inv: Invitation,
    j: int,
    ni: crate::model::NewInvitation,
    now: i64,
)
    requires
        create_invitation_next(email, payload, rs, Step::<Invitation>::Finish(Ok(inv))),
        0 <= j < rs.len(),
        create_invitation_next(email, payload, rs.subrange(0, j), Step::<Invitation>::Run(Query::InsertInvitation(ni))),
        rs[j] == Reply::Invitation(inv),
        inv.code == ni.code,
        inv.role == ni.role,
        inv.board_id == ni.board_id,
        inv.user_id == ni.user_id,
        now <= inv.expire,
    ensures
        user_of(rs[2]) is Some,
        ({
            let invited = user_of(rs[2])->0;
            accept_invitation_next(
                invited.email,
                inv.code,
                seq![Reply::Done, Reply::User(invited), Reply::Invitation(inv), Reply::Time(now)],
            ) == Step::<ApiResult>::Run(
                Query::InsertPermission(
                    crate::model::NewPermission { board_id: payload.board_id, user_id: invited.id, role: payload.role },
                ),
            )
        }),
{
}


/// A room's drawing after the elements `ds` (id and text) were recorded in
/// turn, each as `Rooms::record_drawing` records one.
pub open spec fn buffer_after(m: Map<Seq<char>, Seq<char>>, ds: Seq<(Seq<char>, Seq<char>)>) -> Map<Seq<char>, Seq<char>>
    decreases ds.len(),
{
    if ds.len() == 0 {
        m
    } else {
        buffer_after(m, ds.drop_last()).insert(ds.last().0, ds.last().1)
    }
}

/// Over a session, a room keeps for each element the text it was last
/// broadcast with, and keeps an element not broadcast as it was.
pub proof fn law_room_keeps_latest_element(m: Map<Seq<char>, Seq<char>>, ds: Seq<(Seq<char>, Seq<char>)>, k: Seq<char>)
    ensures
        (exists|i: int| 0 <= i < ds.len() && ds[i].0 == k) ==> {
            let i = choose|i: int| 0 <= i < ds.len() && ds[i].0 == k && forall|j: int| i < j < ds.len() ==> ds[j].0 != k;
            &&& 0 <= i < ds.len()
            &&& ds[i].0 == k
            &&& forall|j: int| i < j < ds.len() ==> ds[j].0 != k
            &&& buffer_after(m, ds).dom().contains(k)
            &&& buffer_after(m, ds)[k] == ds[i].1
        },
        (forall|i: int| 0 <= i < ds.len() ==> ds[i].0 != k) ==> {
            &&& buffer_after(m, ds).dom().contains(k) == m.dom().contains(k)
            &&& buffer_after(m, ds)[k] == m[k]
        },
    decreases ds.len(),
{
    if ds.len() > 0 {
        let init = ds.drop_last();
        law_room_keeps_latest_element(m, init, k);
        if ds.last().0 == k {
            let last = ds.len() - 1;
            assert(ds[last].0 == k);
            assert(exists|i: int| 0 <= i < ds.len() && ds[i].0 == k && forall|j: int| i < j < ds.len() ==> ds[j].0 != k);
            let i = choose|i: int| 0 <= i < ds.len() && ds[i].0 == k && forall|j: int| i < j < ds.len() ==> ds[j].0 != k;
            if i != last {
                assert(ds[last].0 != k);
            }
        } else {
            if exists|i: int| 0 <= i < ds.len() && ds[i].0 == k {
                let w = choose|i: int| 0 <= i < ds.len() && ds[i].0 == k;
                assert(w < ds.len() - 1);
                assert(init[w].0 == k);
                let i0 = choose|i: int| 0 <= i < init.len() && init[i].0 == k && forall|j: int| i < j < init.len() ==> init[j].0 != k;
                assert(exists|i: int| 0 <= i < init.len() && init[i].0 == k);
                assert(init[i0].0 == k);
                assert forall|j: int| i0 < j < ds.len() implies ds[j].0 != k by {
                    if j < init.len() {
                        assert(init[j] == ds[j]);
                    }
                }
                let i = choose|i: int| 0 <= i < ds.len() && ds[i].0 == k && forall|j: int| i < j < ds.len() ==> ds[j].0 != k;
                if i != i0 {
                    if i < i0 {
                        assert(ds[i0].0 != k);
                    } else {
                        assert(ds[i].0 != k);
                    }
                }
            } else {
                assert forall|i: int| 0 <= i < init.len() implies init[i].0 != k by {
                    assert(ds[i].0 != k);
                }
            }
        }
    }
}


/// A board its creator has just made opens for them: showing it reads the
/// file the creation wrote, and shows the board, with its name, to its
/// creator as an empty drawing with the role "Owner". (The board's row is
/// taken to be stored as it was inserted: owned by its creator, named as
/// asked, naming the file written.)
pub proof fn law_created_board_opens(
    email: String,
    payload: BoardPayload,
    rs: Seq<Reply>,
    b: Board,
    path: String,
    content: String,
    s1: Step<crate::dto::BoardResponse>,
    s2: Step<crate::dto::BoardResponse>,
)
    requires
        create_board_next(email, payload, rs, Step::<Board>::Finish(Ok(b))),
        create_board_next(email, payload, rs.subrange(0, 3), Step::<Board>::Run(Query::CreateFile { path, content })),
        user_of(rs[1]) matches Some(u) && b.owner_id == u.id,
        b.name == payload.name,
        b.path == path,
        get_board_next(email, b.id, seq![Reply::Done, rs[1], Reply::Board(b)], s1),
        get_board_next(email, b.id, seq![Reply::Done, rs[1], Reply::Board(b), Reply::Text(content)], s2),
    ensures
        s1 == Step::<crate::dto::BoardResponse>::Run(Query::ReadFile(path)),
        s2 matches Step::Finish(Ok(r)) && {
            &&& r.id == b.id
            &&& r.name == payload.name
            &&& r.role@ == "Owner"@
            &&& r.data@ == empty_drawing_text()
        },
{
    assert(rs.subrange(0, 3)[1] == rs[1]);
}


/// Each call of `Rooms::record_drawing` (which sets the room's buffer to
/// its old value with the element inserted) is one more step of
/// `buffer_after`: a room whose buffer was `buffer_after(m, ds)` before the
/// call holds `buffer_after(m, ds.push((id, text)))` after it.
pub proof fn law_record_drawing_extends_session(m: Map<Seq<char>, Seq<char>>, ds: Seq<(Seq<char>, Seq<char>)>, id: Seq<char>, text: Seq<char>)
    ensures
        buffer_after(m, ds.push((id, text))) == buffer_after(m, ds).insert(id, text),
{
    assert(ds.push((id, text)).drop_last() =~= ds);
}


/// A saved drawing is shown as it is: whatever the board's file holds,
/// other than the document a new board starts with, its owner sees it as
/// the compact form of that JSON text (and the request is abandoned when
/// the file is not JSON).
pub proof fn law_owner_sees_saved_drawing(
    email: String,
    board_id: i32,
    u: User,
    b: Board,
    file: String,
    s: Step<crate::dto::BoardResponse>,
)
    requires
        b.owner_id == u.id,
        file@ != crate::board_file::initial_document_text(),
        get_board_next(email, board_id, seq![Reply::Done, Reply::User(u), Reply::Board(b), Reply::Text(file)], s),
    ensures
        json_compact(file@) matches Some(d) ==> (s matches Step::Finish(Ok(r)) && r.data@ == d && r.id == b.id
            && r.name == b.name && r.role@ == "Owner"@),
        json_compact(file@) is None ==> s == Step::<crate::dto::BoardResponse>::Abort(crate::handlers::Abort::MalformedBoardFile),
{
}

/// The same for a member: whatever the file holds, other than a new
/// board's document, they see its compact form with the role their
/// permission grants.
pub proof fn law_member_sees_saved_drawing(
    email: String,
    board_id: i32,
    u: User,
    b: Board,
    p: Permission,
    file: String,
    s: Step<crate::dto::BoardResponse>,
)
    requires
        b.owner_id != u.id,
        file@ != crate::board_file::initial_document_text(),
        get_board_next(
            email,
            board_id,
            seq![Reply::Done, Reply::User(u), Reply::Board(b), Reply::Permission(p), Reply::Text(file)],
            s,
        ),
    ensures
        json_compact(file@) matches Some(d) ==> (s matches Step::Finish(Ok(r)) && r.data@ == d && r.id == b.id
            && r.name == b.name && r.role@ == role_name(p.role)),
        json_compact(file@) is None ==> s == Step::<crate::dto::BoardResponse>::Abort(crate::handlers::Abort::MalformedBoardFile),
{
}

/// A room's saved drawing with at least one element is not the document a
/// new board starts with, so it is shown as the compact form of what was
/// saved, never as a new board.
pub proof fn law_drawn_board_is_not_new(es: Seq<Seq<char>>)
    requires
        es.len() > 0,
    ensures
        crate::board_file::board_document_text(es) != crate::board_file::initial_document_text(),
{
    reveal_strlit("{\n  \"appState\": {\n    \"viewBackgroundColor\": \"#ffffff\"\n  },\n  \"elements\": ");
    reveal_strlit("[]\n}");
    reveal_strlit("[\n");
    let h = crate::board_file::document_head();
    let a = crate::board_file::board_document_text(es);
    let i = crate::board_file::initial_document_text();
    assert(i == h + "[]\n}"@);
    assert(i[(h.len() + 1) as int] == ']');
    assert(a[(h.len() + 1) as int] == '\n');
}

/// A board's members are listed exactly as stored: every member the
/// database returns for the board, with their role, none dropped or
/// altered, whether the requester owns the board or is a member.
pub proof fn law_members_listed_as_stored(
    email: String,
    board_id: i32,
    u: User,
    b: Board,
    p: Permission,
    ms: Vec<crate::dto::UserPermission>,
    s1: Step<Vec<crate::dto::UserPermission>>,
    s2: Step<Vec<crate::dto::UserPermission>>,
)
    requires
        get_permission_next(email, board_id, seq![Reply::Done, Reply::User(u), Reply::Board(Board { owner_id: u.id, ..b }), Reply::Members(ms)], s1),
        b.owner_id != u.id,
        get_permission_next(email, board_id, seq![Reply::Done, Reply::User(u), Reply::Board(b), Reply::Permission(p), Reply::Members(ms)], s2),
    ensures
        s1 matches Step::Finish(Ok(v)) && v@ == ms@,
        s2 matches Step::Finish(Ok(v)) && v@ == ms@,
{
}

/// A member enters a board's room with exactly the role their permission
/// grants, whatever it is: a member holding the Owner role enters as an
/// owner and may draw, an Editor may draw, a Viewer may not.
pub proof fn law_member_enters_with_granted_role(email: String, board_text: Seq<char>, u: User, b: Board, p: Permission, id: i32)
    requires
        crate::text::spec_parse_i32(board_text) == Some(id),
        b.owner_id != u.id,
    ensures
        admission_next(email, board_text, seq![Reply::Done, Reply::User(u), Reply::Board(b), Reply::Permission(p)])
            == Step::<Admission>::Finish(Ok(Admission::Admitted(id, p.role))),
        may_edit(p.role) <==> (p.role == ROLE_EDITOR || p.role == ROLE_OWNER),
{
}

} // verus!
