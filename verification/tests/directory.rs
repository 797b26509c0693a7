use trace::listing::{session_name_of, Device, SessionInfo};
use trace::text::{find_char, precedes, same_text, split_once};
use trace::{get_rooms_info, list_rooms, list_sessions, session_list, RoomWithCachedInfo};

fn room(id: &str, name: Option<&str>, alias: Option<&str>) -> RoomWithCachedInfo {
    RoomWithCachedInfo {
        id: String::from(id),
        name: name.map(String::from),
        canonical_alias: alias.map(String::from),
        alt_aliases: Vec::new(),
    }
}

fn ids(rooms: &[RoomWithCachedInfo]) -> Vec<&str> {
    rooms.iter().map(|room| room.id.as_str()).collect()
}

#[test]
fn named_rooms_come_first_then_aliased_then_the_rest() {
    let listed = get_rooms_info(vec![
        room("!z:x.org", None, None),
        room("!y:x.org", None, Some("#beta:x.org")),
        room("!x:x.org", Some("Zoo"), None),
        room("!w:x.org", None, Some("#alpha:x.org")),
        room("!v:x.org", Some("Ant"), Some("#zebra:x.org")),
        room("!a:x.org", None, None),
    ]);
    assert_eq!(ids(&listed), vec!["!v:x.org", "!x:x.org", "!w:x.org", "!y:x.org", "!a:x.org", "!z:x.org"]);
}

#[test]
fn rooms_of_one_name_keep_their_order_of_arrival() {
    let listed = get_rooms_info(vec![
        room("!3:x.org", Some("Same"), None),
        room("!1:x.org", Some("Same"), Some("#a:x.org")),
        room("!0:x.org", Some("Other"), None),
        room("!2:x.org", Some("Same"), None),
    ]);
    assert_eq!(ids(&listed), vec!["!0:x.org", "!3:x.org", "!1:x.org", "!2:x.org"]);
}

#[test]
fn an_empty_directory_is_in_order() {
    assert_eq!(get_rooms_info(Vec::new()), Vec::new());
}

#[test]
fn names_are_ordered_by_code_point() {
    let listed = get_rooms_info(vec![
        room("!1:x.org", Some("b"), None),
        room("!2:x.org", Some("B"), None),
        room("!3:x.org", Some("\u{e9}"), None),
        room("!4:x.org", Some("ba"), None),
        room("!5:x.org", Some(""), None),
        room("!6:x.org", Some("\u{1f600}"), None),
        room("!7:x.org", Some("\u{ffff}"), None),
    ]);
    assert_eq!(ids(&listed), vec!["!5:x.org", "!2:x.org", "!1:x.org", "!4:x.org", "!3:x.org", "!7:x.org", "!6:x.org"]);
}

#[test]
fn text_order_agrees_with_the_order_of_strings() {
    let samples = ["", "a", "A", "ab", "b", "\u{e9}", "\u{ffff}", "\u{1f600}", "a\u{1f600}", "a\u{ffff}"];
    for left in samples {
        for right in samples {
            assert_eq!(precedes(left, right), left < right);
            assert_eq!(same_text(left, right), left == right);
        }
    }
}

#[test]
fn text_is_split_at_the_first_occurrence() {
    assert_eq!(split_once("a:b:c", ':'), Some(("a", "b:c")));
    assert_eq!(split_once(":", ':'), Some(("", "")));
    assert_eq!(split_once("\u{e9}\u{1f600}:\u{e9}", ':'), Some(("\u{e9}\u{1f600}", "\u{e9}")));
    assert_eq!(split_once("abc", ':'), None);
    assert_eq!(find_char("\u{e9}\u{1f600}:x", ':'), Some(2));
    assert_eq!(find_char("", ':'), None);
}

#[test]
fn rooms_are_listed_line_by_line() {
    let rooms = vec![
        room("!v:x.org", Some("Ant"), Some("#zebra:x.org")),
        room("!w:x.org", None, Some("#alpha:x.org")),
        room("!z:x.org", None, None),
    ];
    assert_eq!(
        list_rooms("@me:x.org", &rooms),
        vec![
            String::from("Rooms joined by @me:x.org:"),
            String::from("Ant | #zebra:x.org | !v:x.org"),
            String::from("[Unnamed] | #alpha:x.org | !w:x.org"),
            String::from("[Unnamed] | [No canonical alias] | !z:x.org"),
        ]
    );
}

fn info(user_id: &str, session_name: &str) -> SessionInfo {
    SessionInfo { user_id: String::from(user_id), session_name: String::from(session_name) }
}

#[test]
fn sessions_are_listed_by_account() {
    let listed = list_sessions(vec![info("@c:x.org", "1"), info("@a:x.org", "2"), info("@c:x.org", "3"), info("@b:x.org", "4")]);
    assert_eq!(listed, vec![info("@a:x.org", "2"), info("@b:x.org", "4"), info("@c:x.org", "1"), info("@c:x.org", "3")]);
}

#[test]
fn sessions_are_listed_line_by_line() {
    assert_eq!(
        session_list(&vec![info("@a:x.org", "Laptop"), info("@b:x.org", "[Unnamed]")]),
        vec![
            String::from("Currently-logged-in sessions:"),
            String::from("@a:x.org | Laptop"),
            String::from("@b:x.org | [Unnamed]"),
        ]
    );
    assert_eq!(session_list(&Vec::new()), vec![String::from("You have no sessions currently logged in.")]);
}

#[test]
fn a_session_is_named_after_its_device() {
    let devices = vec![
        Device { device_id: String::from("ONE"), display_name: Some(String::from("Laptop")) },
        Device { device_id: String::from("TWO"), display_name: None },
    ];
    assert_eq!(session_name_of(&devices, "ONE"), Some(String::from("Laptop")));
    assert_eq!(session_name_of(&devices, "TWO"), Some(String::from("[Unnamed]")));
    assert_eq!(session_name_of(&devices, "THREE"), None);
}
