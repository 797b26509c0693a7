//! What the room and session listings say, line by line.

use vstd::prelude::*;
use vstd::string::*;

use crate::order::{is_in_order, is_stable_listing, stable_sort, Ranked};
use crate::rooms::{RoomView, RoomWithCachedInfo};
use crate::text::{
    lemma_text_order_irreflexive, lemma_text_order_total, lemma_text_order_transitive, precedes,
    same_text, text_precedes,
};

verus! {

/// A device of an account, as the server lists it.
#[derive(Clone, Debug, PartialEq, Eq)]
pub struct Device {
    pub device_id: String,
    pub display_name: Option<String>,
}

/// A logged-in session as it is listed: the account and the name of the
/// session's device.
#[derive(Clone, Debug, PartialEq, Eq)]
pub struct SessionInfo {
    pub user_id: String,
    pub session_name: String,
}

/// Whether `i` is the first device in `devices` with the identifier
/// `device_id`.
pub open spec fn is_first_device(devices: Seq<Device>, device_id: Seq<char>, i: int) -> bool {
    &&& 0 <= i < devices.len()
    &&& devices[i].device_id@ == device_id
    &&& forall|j: int| 0 <= j < i ==> (#[trigger] devices[j]).device_id@ != device_id
}

/// The name under which a device is listed: its display name, or a
/// placeholder where it has none.
pub open spec fn listed_device_name(device: Device) -> Seq<char> {
    match device.display_name {
        Some(name) => name@,
        None => "[Unnamed]"@,
    }
}

/// The name under which a session is listed: that of the first device with
/// the session's device identifier. `None` where the account has no such
/// device.
pub fn session_name_of(devices: &Vec<Device>, device_id: &str) -> (r: Option<String>)
    ensures
        match r {
            Some(name) => exists|i: int|
                #[trigger] is_first_device(devices@, device_id@, i) && name@ == listed_device_name(
                    devices@[i],
                ),
            None => forall|i: int|
                0 <= i < devices@.len() ==> (#[trigger] devices@[i]).device_id@ != device_id@,
        },
{
    let mut i: usize = 0;
    while i < devices.len()
        invariant
            i <= devices.len(),
            forall|j: int| 0 <= j < i ==> (#[trigger] devices@[j]).device_id@ != device_id@,
        decreases devices.len() - i,
    {
        if same_text(devices[i].device_id.as_str(), device_id) {
            assert(is_first_device(devices@, device_id@, i as int));
            return Some(
                match &devices[i].display_name {
                    Some(name) => name.clone(),
                    None => "[Unnamed]".to_owned(),
                },
            );
        }
        i += 1;
    }
    None
}

impl Ranked for SessionInfo {
    open spec fn ranks_before(&self, other: &Self) -> bool {
        text_precedes(self.user_id@, other.user_id@)
    }

    fn is_ranked_before(&self, other: &Self) -> (r: bool) {
        precedes(self.user_id.as_str(), other.user_id.as_str())
    }

    proof fn lemma_rank_asymmetric(a: &Self, b: &Self) {
        if a.ranks_before(b) && b.ranks_before(a) {
            lemma_text_order_transitive(a.user_id@, b.user_id@, a.user_id@);
            lemma_text_order_irreflexive(a.user_id@);
        }
    }

    proof fn lemma_rank_negatively_transitive(a: &Self, b: &Self, c: &Self) {
        lemma_text_order_total(a.user_id@, b.user_id@);
        lemma_text_order_total(b.user_id@, c.user_id@);
        if a.ranks_before(c) && a.user_id@ != b.user_id@ && b.user_id@ != c.user_id@ {
            lemma_text_order_transitive(c.user_id@, b.user_id@, a.user_id@);
            lemma_text_order_transitive(a.user_id@, c.user_id@, a.user_id@);
            lemma_text_order_irreflexive(a.user_id@);
        }
    }
}

/// Arranges the logged-in sessions for listing: by account, sessions of one
/// account in the order in which they came.
pub fn list_sessions(sessions_info: Vec<SessionInfo>) -> (r: Vec<SessionInfo>)
    ensures
        is_in_order(r@),
        exists|origin: Seq<int>| is_stable_listing(sessions_info@, r@, origin),
{
    stable_sort(sessions_info)
}

/// The line that lists a room: its name, its canonical alias and its
/// identifier, with a placeholder for what the room lacks.
pub open spec fn room_line(room: RoomView) -> Seq<char> {
    (match room.name {
        Some(name) => name,
        None => "[Unnamed]"@,
    }) + " | "@ + (match room.canonical_alias {
        Some(alias) => alias,
        None => "[No canonical alias]"@,
    }) + " | "@ + room.id
}

/// The line that lists a session.
pub open spec fn session_line(session: SessionInfo) -> Seq<char> {
    session.user_id@ + " | "@ + session.session_name@
}

/// Writes the line that lists a room.
pub fn room_listing_line(room: &RoomWithCachedInfo) -> (r: String)
    ensures
        r@ == room_line(room@),
{
    let mut line = match &room.name {
        Some(name) => name.clone(),
        None => "[Unnamed]".to_owned(),
    };
    line.append(" | ");
    match &room.canonical_alias {
        Some(alias) => line.append(alias.as_str()),
        None => line.append("[No canonical alias]"),
    }
    line.append(" | ");
    line.append(room.id.as_str());
    line
}

/// The listing of the rooms that `user_id` has joined: a heading, then one
/// line for each room of the directory, in its order.
pub fn list_rooms(user_id: &str, rooms_info: &Vec<RoomWithCachedInfo>) -> (r: Vec<String>)
    ensures
        r@.len() == rooms_info@.len() + 1,
        r@[0]@ == "Rooms joined by "@ + user_id@ + ":"@,
        forall|i: int| 0 <= i < rooms_info@.len() ==> (#[trigger] r@[i + 1])@ == room_line(rooms_info@[i]@),
{
    let mut heading = "Rooms joined by ".to_owned();
    heading.append(user_id);
    heading.append(":");
    let mut lines: Vec<String> = Vec::new();
    lines.push(heading);
    let mut i: usize = 0;
    while i < rooms_info.len()
        invariant
            i <= rooms_info@.len(),
            lines@.len() == i + 1,
            lines@[0]@ == "Rooms joined by "@ + user_id@ + ":"@,
            forall|j: int| 0 <= j < i ==> (#[trigger] lines@[j + 1])@ == room_line(rooms_info@[j]@),
        decreases rooms_info.len() - i,
    {
        lines.push(room_listing_line(&rooms_info[i]));
        i += 1;
    }
    lines
}

/// The listing of the logged-in sessions: a heading, then one line for each
/// session, in the order given; or a single line that says that there is
/// none.
pub fn session_list(sessions_info: &Vec<SessionInfo>) -> (r: Vec<String>)
    ensures
        sessions_info@.len() == 0 ==> r@.len() == 1 && r@[0]@
            == "You have no sessions currently logged in."@,
        sessions_info@.len() > 0 ==> {
            &&& r@.len() == sessions_info@.len() + 1
            &&& r@[0]@ == "Currently-logged-in sessions:"@
            &&& forall|i: int|
                0 <= i < sessions_info@.len() ==> (#[trigger] r@[i + 1])@ == session_line(
                    sessions_info@[i],
                )
        },
{
    let mut lines: Vec<String> = Vec::new();
    if sessions_info.len() == 0 {
        lines.push("You have no sessions currently logged in.".to_owned());
        return lines;
    }
    lines.push("Currently-logged-in sessions:".to_owned());
    let mut i: usize = 0;
    while i < sessions_info.len()
        invariant
            i <= sessions_info@.len(),
            lines@.len() == i + 1,
            lines@[0]@ == "Currently-logged-in sessions:"@,
            forall|j: int|
                0 <= j < i ==> (#[trigger] lines@[j + 1])@ == session_line(sessions_info@[j]),
        decreases sessions_info.len() - i,
    {
        let mut line = sessions_info[i].user_id.clone();
        line.append(" | ");
        line.append(sessions_info[i].session_name.as_str());
        lines.push(line);
        i += 1;
    }
    lines
}

} // verus!
