use trace::session::{default_session_name, session_name_or_default};
use trace::{add_at_to_user_id_if_applicable, Session, SessionsFile};

fn session(user_id: &str, device_id: &str) -> Session {
    Session {
        user_id: String::from(user_id),
        device_id: String::from(device_id),
        access_token: String::from("token"),
        refresh_token: None,
    }
}

#[test]
fn at_is_added_where_it_is_missing() {
    assert_eq!(add_at_to_user_id_if_applicable("alice:example.org"), "@alice:example.org");
}

#[test]
fn at_is_kept_where_it_is_there() {
    assert_eq!(add_at_to_user_id_if_applicable("@alice:example.org"), "@alice:example.org");
}

#[test]
fn at_is_added_to_the_empty_identifier() {
    assert_eq!(add_at_to_user_id_if_applicable(""), "@");
}

#[test]
fn adding_at_twice_changes_nothing() {
    let once = add_at_to_user_id_if_applicable("bob:example.org");
    assert_eq!(add_at_to_user_id_if_applicable(&once), once);
}

#[test]
fn get_returns_the_stored_session() {
    let store = SessionsFile {
        sessions: vec![session("@a:x.org", "A"), session("@b:x.org", "B")],
    };
    assert_eq!(store.get("@b:x.org"), Ok(session("@b:x.org", "B")));
}

#[test]
fn get_returns_the_first_of_several() {
    let store = SessionsFile {
        sessions: vec![session("@a:x.org", "FIRST"), session("@a:x.org", "SECOND")],
    };
    assert_eq!(store.get("@a:x.org").unwrap().device_id, "FIRST");
}

#[test]
fn get_reports_a_missing_session() {
    let store = SessionsFile { sessions: vec![session("@a:x.org", "A")] };
    assert_eq!(
        store.get("@c:x.org"),
        Err(String::from(
            "Couldn't find currently-existing login session for user_id @c:x.org."
        ))
    );
}

#[test]
fn new_session_is_stored_last() {
    let mut store = SessionsFile { sessions: vec![session("@a:x.org", "A")] };
    assert_eq!(store.new_session(session("@b:x.org", "B")), Ok(()));
    assert_eq!(store.sessions, vec![session("@a:x.org", "A"), session("@b:x.org", "B")]);
}

#[test]
fn new_session_refuses_a_second_session_of_an_account() {
    let mut store = SessionsFile { sessions: vec![session("@a:x.org", "A")] };
    assert_eq!(
        store.new_session(session("@a:x.org", "OTHER")),
        Err(String::from(
            "Tried to create new session with user_id @a:x.org, but you already have a logged-in session with that user ID."
        ))
    );
    assert_eq!(store.sessions, vec![session("@a:x.org", "A")]);
}

#[test]
fn delete_session_removes_the_session() {
    let mut store = SessionsFile {
        sessions: vec![session("@a:x.org", "A"), session("@b:x.org", "B"), session("@c:x.org", "C")],
    };
    assert_eq!(store.delete_session("@b:x.org"), Ok(()));
    assert_eq!(store.sessions, vec![session("@a:x.org", "A"), session("@c:x.org", "C")]);
}

#[test]
fn delete_session_reports_a_missing_session() {
    let mut store = SessionsFile { sessions: vec![session("@a:x.org", "A")] };
    assert_eq!(
        store.delete_session("@b:x.org"),
        Err(String::from(
            "Couldn't find currently-existing login session for user_id @b:x.org."
        ))
    );
    assert_eq!(store.sessions.len(), 1);
}

#[test]
fn a_deleted_session_is_not_found_again() {
    let mut store = SessionsFile { sessions: vec![session("@a:x.org", "A")] };
    store.delete_session("@a:x.org").unwrap();
    assert!(store.get("@a:x.org").is_err());
}

#[test]
fn login_is_admitted_for_a_new_account() {
    let store = SessionsFile { sessions: vec![session("@a:x.org", "A")] };
    assert_eq!(store.check_new_login("b:x.org"), Ok(String::from("@b:x.org")));
}

#[test]
fn login_is_refused_for_a_logged_in_account() {
    let store = SessionsFile { sessions: vec![session("@a:x.org", "A")] };
    assert_eq!(
        store.check_new_login("a:x.org"),
        Err(String::from(
            "Tried to log into account @a:x.org, but you already have a session logged into this account."
        ))
    );
}

#[test]
fn default_session_name_holds_the_identifier() {
    assert_eq!(default_session_name("1234"), "Trace (Session UUID: 1234)");
}

#[test]
fn a_given_session_name_is_kept() {
    assert_eq!(session_name_or_default(Some(String::from("Laptop"))), "Laptop");
}

#[test]
fn a_missing_session_name_is_made_from_a_fresh_identifier() {
    let first = session_name_or_default(None);
    let second = session_name_or_default(None);
    assert!(first.starts_with("Trace (Session UUID: "));
    assert!(first.ends_with(")"));
    assert_eq!(first.len(), "Trace (Session UUID: )".len() + 36);
    assert_ne!(first, second);
}
