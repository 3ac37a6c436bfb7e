use collaboard::handlers::{Query, Reply, Step};
use collaboard::model::{Board, Permission, User};
use collaboard::ws::{
    admission, chat_line, outgoing_line, drawing_part, joined_notice, left_notice, merge_board_state, replay_line, should_forward,
    Admission, DrawnElement, Refusal, Rooms,
};

fn s(x: &str) -> String {
    x.to_string()
}

#[test]
fn joining_and_leaving_a_room() {
    let mut rooms: Rooms<u32> = Rooms::new();
    let b = s("7");
    assert!(rooms.channel(&b).is_none());
    assert!(rooms.join(&b, &s("ana@example.com"), 1));
    assert_eq!(rooms.channel(&b), Some(&1));
    // a second user gets the channel of the open room, not a fresh one
    assert!(rooms.join(&b, &s("bo@example.com"), 2));
    assert_eq!(rooms.channel(&b), Some(&1));
    // joining twice changes nothing
    assert!(rooms.join(&b, &s("bo@example.com"), 3));
    assert!(!rooms.leave(&b, &s("ana@example.com")));
    assert!(rooms.leave(&b, &s("bo@example.com")));
    // leaving again keeps the room empty
    assert!(rooms.leave(&b, &s("bo@example.com")));
    rooms.close(&b);
    assert!(rooms.channel(&b).is_none());
}

#[test]
fn an_empty_address_may_not_start_a_session() {
    let mut rooms: Rooms<u32> = Rooms::new();
    assert!(!rooms.join(&s("7"), &s(""), 1));
    assert_eq!(rooms.channel(&s("7")), Some(&1));
}

#[test]
fn rooms_are_kept_apart() {
    let mut rooms: Rooms<u32> = Rooms::new();
    rooms.join(&s("1"), &s("ana@example.com"), 10);
    rooms.join(&s("2"), &s("ana@example.com"), 20);
    rooms.record_drawing(&s("1"), s("e1"), s("{\"id\":\"e1\"}"));
    assert_eq!(rooms.buffered_elements(&s("2")), Vec::<String>::new());
    assert_eq!(rooms.buffered_elements(&s("1")), vec![s("{\"id\":\"e1\"}")]);
    rooms.close(&s("1"));
    assert_eq!(rooms.channel(&s("2")), Some(&20));
    assert_eq!(rooms.buffered_elements(&s("1")), Vec::<String>::new());
}

#[test]
fn latest_drawing_of_each_element_is_kept() {
    let mut rooms: Rooms<u32> = Rooms::new();
    let b = s("3");
    rooms.record_drawing(&b, s("e1"), s("lost"));
    assert_eq!(rooms.buffered_elements(&b), Vec::<String>::new());
    rooms.join(&b, &s("ana@example.com"), 0);
    rooms.record_drawing(&b, s("e1"), s("v1"));
    rooms.record_drawing(&b, s("e2"), s("w1"));
    rooms.record_drawing(&b, s("e1"), s("v2"));
    let mut got = rooms.buffered_elements(&b);
    got.sort();
    assert_eq!(got, vec![s("v2"), s("w1")]);
    // the drawing survives users leaving while the room stays open
    rooms.join(&b, &s("bo@example.com"), 0);
    rooms.leave(&b, &s("ana@example.com"));
    let mut got = rooms.buffered_elements(&b);
    got.sort();
    assert_eq!(got, vec![s("v2"), s("w1")]);
}

#[test]
fn session_lines() {
    assert_eq!(chat_line("ana@example.com", "{\"id\":1}"), "ana@example.com: {\"id\":1}");
    assert_eq!(joined_notice("ana@example.com"), "ana@example.com joined the chat!");
    assert_eq!(left_notice("ana@example.com"), "ana@example.com left the chat!");
    assert_eq!(replay_line("{\"id\":1}"), "system:{\"id\":1}");
    assert!(!should_forward("ana@example.com: hi", "ana@example.com"));
    assert!(!should_forward("ana@example.com joined the chat!", "ana@example.com"));
    assert!(should_forward("bo@example.com: hi", "ana@example.com"));
    assert!(should_forward("system:x", "ana@example.com"));
}

#[test]
fn drawings_read_back_from_lines() {
    assert_eq!(drawing_part(&chat_line("ana@example.com", "{\"id\":\"e1\"}")), Some(s("{\"id\":\"e1\"}")));
    assert_eq!(drawing_part("a: b: c"), Some(s("b: c")));
    assert_eq!(drawing_part("ana@example.com joined the chat!"), None);
    assert_eq!(drawing_part(""), None);
}

#[test]
fn refusal_messages() {
    assert_eq!(Refusal::NoDatabase.message(), "Failed to get database connection!");
    assert_eq!(Refusal::InvalidBoardId.message(), "Invalid board ID format!");
    assert_eq!(Refusal::NoSuchUser.message(), "User does not exist!");
    assert_eq!(Refusal::NoSuchBoard.message(), "Board does not exist");
}

fn user(id: i32) -> User {
    User { id, name: s("N"), surname: s("S"), email: s("ana@example.com"), password: s("h") }
}

fn board(id: i32, owner_id: i32) -> Board {
    Board { id, name: s("Plans"), path: s("./boards/u.json"), owner_id }
}

#[test]
fn admission_steps() {
    let email = s("ana@example.com");
    assert_eq!(admission(&email, &s("11"), &vec![]), Step::Run(Query::Connect));
    assert_eq!(
        admission(&email, &s("11"), &vec![Reply::Failed]),
        Step::Finish(Ok(Admission::Refused(Refusal::NoDatabase)))
    );
    assert_eq!(
        admission(&email, &s("eleven"), &vec![Reply::Done]),
        Step::Finish(Ok(Admission::Refused(Refusal::InvalidBoardId)))
    );
    assert_eq!(admission(&email, &s("11"), &vec![Reply::Done]), Step::Run(Query::FindUserByEmail(email.clone())));
    assert_eq!(
        admission(&email, &s("11"), &vec![Reply::Done, Reply::Failed]),
        Step::Finish(Ok(Admission::Refused(Refusal::NoSuchUser)))
    );
    let rs = vec![Reply::Done, Reply::User(user(4))];
    assert_eq!(admission(&email, &s("11"), &rs), Step::Run(Query::FindBoard(11)));
    let mut missing = rs.clone();
    missing.push(Reply::Failed);
    assert_eq!(admission(&email, &s("11"), &missing), Step::Finish(Ok(Admission::Refused(Refusal::NoSuchBoard))));
    let mut own = rs.clone();
    own.push(Reply::Board(board(11, 4)));
    assert_eq!(admission(&email, &s("11"), &own), Step::Finish(Ok(Admission::Admitted(11, 2))));
    let mut other = rs.clone();
    other.push(Reply::Board(board(11, 9)));
    assert_eq!(admission(&email, &s("11"), &other), Step::Run(Query::FindPermission { user_id: 4, board_id: 11 }));
    let mut denied = other.clone();
    denied.push(Reply::Failed);
    assert_eq!(admission(&email, &s("11"), &denied), Step::Finish(Ok(Admission::Refused(Refusal::NoSuchBoard))));
    let mut viewer = other.clone();
    viewer.push(Reply::Permission(Permission { board_id: 11, user_id: 4, role: 0 }));
    assert_eq!(admission(&email, &s("11"), &viewer), Step::Finish(Ok(Admission::Admitted(11, 0))));
    let mut editor = other;
    editor.push(Reply::Permission(Permission { board_id: 11, user_id: 4, role: 1 }));
    assert_eq!(admission(&email, &s("11"), &editor), Step::Finish(Ok(Admission::Admitted(11, 1))));
}

fn el(id: &str, text: &str, is_deleted: bool) -> DrawnElement {
    DrawnElement { id: s(id), text: s(text), is_deleted }
}

#[test]
fn board_state_when_the_room_closes() {
    let saved = vec![el("a", "a0", false), el("b", "b0", false), el("c", "c0", false)];
    let drawn = vec![el("b", "b1", false), el("c", "c1", true), el("d", "d1", false), el("b", "b2", false)];
    let mut merged = merge_board_state(&saved, &drawn);
    merged.sort();
    assert_eq!(merged, vec![s("a0"), s("b2"), s("d1")]);
    assert_eq!(merge_board_state(&vec![], &vec![]), Vec::<String>::new());
    assert_eq!(merge_board_state(&vec![el("x", "x0", true)], &vec![el("x", "x1", false)]), vec![s("x1")]);
}

#[test]
fn only_editors_and_owners_draw() {
    assert_eq!(outgoing_line("ana@example.com", 1, "{\"id\":1}"), Some(s("ana@example.com: {\"id\":1}")));
    assert_eq!(outgoing_line("ana@example.com", 2, "x"), Some(s("ana@example.com: x")));
    assert_eq!(outgoing_line("ana@example.com", 0, "{\"id\":1}"), None);
    assert_eq!(outgoing_line("ana@example.com", 7, "x"), None);
}
