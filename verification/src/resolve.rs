//! The identifier resolver: from what a user typed to one room of the
//! directory.

use vstd::prelude::*;

use crate::rooms::{RoomView, RoomWithCachedInfo};
use crate::text::same_text;

verus! {

/// Why an identifier names no single room.
#[derive(Clone, Debug, PartialEq, Eq)]
pub enum RoomIndexRetrievalError {
    /// No identifier or alias is the one asked for, and several rooms carry
    /// it as their name: their identifiers, in directory order.
    MultipleRoomsWithSpecifiedName(Vec<String>),
    /// No room has the identifier, an alias or the name asked for.
    NoRoomsWithSpecifiedName,
}

/// The ways in which an identifier can name a room, in falling precedence.
pub enum MatchKind {
    /// The identifier is the room's id.
    Id,
    /// The identifier is the room's canonical alias.
    CanonicalAlias,
    /// The identifier is one of the room's other aliases.
    AltAlias,
    /// The identifier is the room's display name.
    Name,
}

/// Whether `identifier` names `room` in the way `kind`.
pub open spec fn names_room(kind: MatchKind, room: RoomView, identifier: Seq<char>) -> bool {
    match kind {
        MatchKind::Id => room.id == identifier,
        MatchKind::CanonicalAlias => room.canonical_alias == Some(identifier),
        MatchKind::AltAlias => room.alt_aliases.contains(identifier),
        MatchKind::Name => room.name == Some(identifier),
    }
}

/// Whether `identifier` names the room at `i` in the way `kind`.
pub open spec fn names_entry(
    kind: MatchKind,
    rooms: Seq<RoomWithCachedInfo>,
    identifier: Seq<char>,
    i: int,
) -> bool {
    0 <= i < rooms.len() && names_room(kind, rooms[i]@, identifier)
}

/// Whether `identifier` names some room of the directory in the way `kind`.
pub open spec fn names_some(
    kind: MatchKind,
    rooms: Seq<RoomWithCachedInfo>,
    identifier: Seq<char>,
) -> bool {
    exists|i: int| names_entry(kind, rooms, identifier, i)
}

/// Whether the room at `i` is the first that `identifier` names in the way
/// `kind`.
pub open spec fn is_first_named(
    kind: MatchKind,
    rooms: Seq<RoomWithCachedInfo>,
    identifier: Seq<char>,
    i: int,
) -> bool {
    &&& names_entry(kind, rooms, identifier, i)
    &&& forall|j: int| 0 <= j < i ==> !names_entry(kind, rooms, identifier, j)
}

/// Whether `identifier` is the id or an alias of some room.
pub open spec fn names_exactly(rooms: Seq<RoomWithCachedInfo>, identifier: Seq<char>) -> bool {
    ||| names_some(MatchKind::Id, rooms, identifier)
    ||| names_some(MatchKind::CanonicalAlias, rooms, identifier)
    ||| names_some(MatchKind::AltAlias, rooms, identifier)
}

/// The identifiers of the rooms whose display name is `name`, in directory
/// order.
pub open spec fn ids_with_name(rooms: Seq<RoomWithCachedInfo>, name: Seq<char>) -> Seq<Seq<char>>
    decreases rooms.len(),
{
    if rooms.len() == 0 {
        Seq::empty()
    } else if rooms.last()@.name == Some(name) {
        ids_with_name(rooms.drop_last(), name).push(rooms.last()@.id)
    } else {
        ids_with_name(rooms.drop_last(), name)
    }
}

/// The positions of the rooms whose display name is `name`, in rising order.
pub open spec fn indices_with_name(rooms: Seq<RoomWithCachedInfo>, name: Seq<char>) -> Seq<int>
    decreases rooms.len(),
{
    if rooms.len() == 0 {
        Seq::empty()
    } else if rooms.last()@.name == Some(name) {
        indices_with_name(rooms.drop_last(), name).push(rooms.len() - 1)
    } else {
        indices_with_name(rooms.drop_last(), name)
    }
}

/// The first room that `identifier` names in the way `kind`; meant for a
/// directory in which it names one.
pub open spec fn first_named_index(
    kind: MatchKind,
    rooms: Seq<RoomWithCachedInfo>,
    identifier: Seq<char>,
) -> int {
    choose|i: int| is_first_named(kind, rooms, identifier, i)
}

/// What matching an identifier against a directory comes to.
pub enum ResolutionOutcome {
    /// The identifier names the room at this position.
    Resolved(int),
    /// The identifier is the display name of several rooms: their
    /// identifiers, in directory order.
    AmbiguousByName(Seq<Seq<char>>),
    /// The identifier names no room.
    NotFound,
}

/// The outcome of resolving `identifier` against `rooms`: an id comes before
/// a canonical alias, that before another alias, and that before a name;
/// among rooms named in the same way the first one counts, and a name counts
/// only where a single room carries it.
pub open spec fn resolve(rooms: Seq<RoomWithCachedInfo>, identifier: Seq<char>) -> ResolutionOutcome {
    if names_some(MatchKind::Id, rooms, identifier) {
        ResolutionOutcome::Resolved(first_named_index(MatchKind::Id, rooms, identifier))
    } else if names_some(MatchKind::CanonicalAlias, rooms, identifier) {
        ResolutionOutcome::Resolved(first_named_index(MatchKind::CanonicalAlias, rooms, identifier))
    } else if names_some(MatchKind::AltAlias, rooms, identifier) {
        ResolutionOutcome::Resolved(first_named_index(MatchKind::AltAlias, rooms, identifier))
    } else if ids_with_name(rooms, identifier).len() == 0 {
        ResolutionOutcome::NotFound
    } else if ids_with_name(rooms, identifier).len() == 1 {
        ResolutionOutcome::Resolved(first_named_index(MatchKind::Name, rooms, identifier))
    } else {
        ResolutionOutcome::AmbiguousByName(ids_with_name(rooms, identifier))
    }
}

/// The outcome that a result of [`get_room_index_by_identifier`] stands for.
pub open spec fn outcome_of(r: Result<usize, RoomIndexRetrievalError>) -> ResolutionOutcome {
    match r {
        Ok(i) => ResolutionOutcome::Resolved(i as int),
        Err(RoomIndexRetrievalError::MultipleRoomsWithSpecifiedName(ids)) => {
            ResolutionOutcome::AmbiguousByName(ids.deep_view())
        },
        Err(RoomIndexRetrievalError::NoRoomsWithSpecifiedName) => ResolutionOutcome::NotFound,
    }
}

fn holds_alias(aliases: &Vec<String>, identifier: &str) -> (r: bool)
    ensures
        r == aliases.deep_view().contains(identifier@),
{
    let mut k: usize = 0;
    while k < aliases.len()
        invariant
            k <= aliases.len(),
            forall|j: int| 0 <= j < k ==> aliases@[j]@ != identifier@,
        decreases aliases.len() - k,
    {
        if same_text(aliases[k].as_str(), identifier) {
            assert(aliases.deep_view()[k as int] == identifier@);
            return true;
        }
        k += 1;
    }
    assert forall|j: int| 0 <= j < aliases.deep_view().len() implies aliases.deep_view()[j]
        != identifier@ by {
        assert(aliases.deep_view()[j] == aliases@[j]@);
    }
    false
}

fn names(kind: &MatchKind, room: &RoomWithCachedInfo, identifier: &str) -> (r: bool)
    ensures
        r == names_room(*kind, room@, identifier@),
{
    match kind {
        MatchKind::Id => same_text(room.id.as_str(), identifier),
        MatchKind::CanonicalAlias => match &room.canonical_alias {
            Some(alias) => same_text(alias.as_str(), identifier),
            None => false,
        },
        MatchKind::AltAlias => holds_alias(&room.alt_aliases, identifier),
        MatchKind::Name => match &room.name {
            Some(name) => same_text(name.as_str(), identifier),
            None => false,
        },
    }
}

fn first_named(kind: MatchKind, rooms: &Vec<RoomWithCachedInfo>, identifier: &str) -> (r: Option<
    usize,
>)
    ensures
        match r {
            Some(i) => is_first_named(kind, rooms@, identifier@, i as int),
            None => !names_some(kind, rooms@, identifier@),
        },
{
    let mut i: usize = 0;
    while i < rooms.len()
        invariant
            i <= rooms.len(),
            forall|j: int| 0 <= j < i ==> !names_entry(kind, rooms@, identifier@, j),
        decreases rooms.len() - i,
    {
        if names(&kind, &rooms[i], identifier) {
            return Some(i);
        }
        i += 1;
    }
    None
}

fn collect_ids_with_name(rooms: &Vec<RoomWithCachedInfo>, name: &str) -> (r: Vec<String>)
    ensures
        r.deep_view() == ids_with_name(rooms@, name@),
{
    let mut ids: Vec<String> = Vec::new();
    let mut i: usize = 0;
    while i < rooms.len()
        invariant
            i <= rooms.len(),
            ids.deep_view() == ids_with_name(rooms@.take(i as int), name@),
        decreases rooms.len() - i,
    {
        let ghost before = ids.deep_view();
        if names(&MatchKind::Name, &rooms[i], name) {
            ids.push(rooms[i].id.clone());
            assert(ids.deep_view() =~= before.push(rooms@[i as int]@.id));
        }
        proof {
            assert(rooms@.take(i + 1).drop_last() == rooms@.take(i as int));
            assert(rooms@.take(i + 1).last() == rooms@[i as int]);
        }
        i += 1;
    }
    assert(rooms@.take(i as int) == rooms@);
    ids
}

/// Resolves what a user typed to one room of the directory.
///
/// An identifier that is the id of a room names that room; failing that, one
/// that is a canonical alias; failing that, one that is another alias; each
/// time the first such room in directory order. Only then is the identifier
/// taken for a display name: it names a room where exactly one carries it,
/// and where several do the error lists all of them.
pub fn get_room_index_by_identifier(rooms_info: &Vec<RoomWithCachedInfo>, identifier: &str) -> (r:
    Result<usize, RoomIndexRetrievalError>)
    ensures
        outcome_of(r) == resolve(rooms_info@, identifier@),
        r matches Ok(i) ==> i < rooms_info@.len(),
{
    if let Some(i) = first_named(MatchKind::Id, rooms_info, identifier) {
        return Ok(i);
    }
    if let Some(i) = first_named(MatchKind::CanonicalAlias, rooms_info, identifier) {
        return Ok(i);
    }
    if let Some(i) = first_named(MatchKind::AltAlias, rooms_info, identifier) {
        return Ok(i);
    }
    let ids = collect_ids_with_name(rooms_info, identifier);
    if ids.len() == 0 {
        Err(RoomIndexRetrievalError::NoRoomsWithSpecifiedName)
    } else if ids.len() == 1 {
        match first_named(MatchKind::Name, rooms_info, identifier) {
            Some(i) => Ok(i),
            None => {
                proof {
                    lemma_ids_with_name(rooms_info@, identifier@);
                    let indices = indices_with_name(rooms_info@, identifier@);
                    assert(names_entry(MatchKind::Name, rooms_info@, identifier@, indices[0]));
                }
                Err(RoomIndexRetrievalError::NoRoomsWithSpecifiedName)
            },
        }
    } else {
        Err(RoomIndexRetrievalError::MultipleRoomsWithSpecifiedName(ids))
    }
}

/// Whether `identifier` is the id or an alias of the room at `i`.
pub open spec fn names_entry_exactly(
    rooms: Seq<RoomWithCachedInfo>,
    identifier: Seq<char>,
    i: int,
) -> bool {
    ||| names_entry(MatchKind::Id, rooms, identifier, i)
    ||| names_entry(MatchKind::CanonicalAlias, rooms, identifier, i)
    ||| names_entry(MatchKind::AltAlias, rooms, identifier, i)
}

/// Whether `indices` lists exactly the rooms whose display name is `name`,
/// each once and in directory order.
pub open spec fn lists_rooms_with_name(
    rooms: Seq<RoomWithCachedInfo>,
    name: Seq<char>,
    indices: Seq<int>,
) -> bool {
    &&& forall|k: int|
        0 <= k < indices.len() ==> names_entry(MatchKind::Name, rooms, name, #[trigger] indices[k])
    &&& forall|k: int, l: int| 0 <= k < l < indices.len() ==> indices[k] < indices[l]
    &&& forall|i: int| names_entry(MatchKind::Name, rooms, name, i) ==> indices.contains(i)
}

/// Among the rooms that an identifier names in one way, some room is the
/// first.
proof fn lemma_some_named_is_first(
    kind: MatchKind,
    rooms: Seq<RoomWithCachedInfo>,
    identifier: Seq<char>,
    i: int,
)
    requires
        names_entry(kind, rooms, identifier, i),
    ensures
        is_first_named(kind, rooms, identifier, first_named_index(kind, rooms, identifier)),
    decreases i,
{
    if exists|j: int| 0 <= j < i && names_entry(kind, rooms, identifier, j) {
        let j = choose|j: int| 0 <= j < i && names_entry(kind, rooms, identifier, j);
        lemma_some_named_is_first(kind, rooms, identifier, j);
    } else {
        assert(is_first_named(kind, rooms, identifier, i));
    }
}

/// The rooms that carry a name are listed once each, in directory order, and
/// the identifiers reported for the name are theirs.
pub proof fn lemma_ids_with_name(rooms: Seq<RoomWithCachedInfo>, name: Seq<char>)
    ensures
        lists_rooms_with_name(rooms, name, indices_with_name(rooms, name)),
        ids_with_name(rooms, name).len() == indices_with_name(rooms, name).len(),
        forall|k: int|
            0 <= k < indices_with_name(rooms, name).len() ==> #[trigger] ids_with_name(rooms, name)[k]
                == rooms[indices_with_name(rooms, name)[k]]@.id,
    decreases rooms.len(),
{
    if rooms.len() > 0 {
        let front = rooms.drop_last();
        let indices = indices_with_name(rooms, name);
        let before = indices_with_name(front, name);
        lemma_ids_with_name(front, name);
        assert forall|k: int| 0 <= k < before.len() implies names_entry(
            MatchKind::Name,
            rooms,
            name,
            #[trigger] before[k],
        ) && before[k] < rooms.len() - 1 by {
            assert(names_entry(MatchKind::Name, front, name, before[k]));
        }
        assert forall|i: int| names_entry(MatchKind::Name, rooms, name, i) implies indices.contains(
            i,
        ) by {
            if i < front.len() {
                assert(names_entry(MatchKind::Name, front, name, i));
                assert(before.contains(i));
                let k = choose|k: int| 0 <= k < before.len() && before[k] == i;
                assert(indices[k] == i);
            } else {
                assert(indices[indices.len() - 1] == i);
            }
        }
    }
}

/// An identifier that is the id or an alias of some room resolves to a room
/// of which it is the id or an alias, whatever rooms carry it as their
/// display name. Where it is the id or an alias of one room only, it
/// resolves to that room.
pub proof fn lemma_exact_identifier_resolves(
    rooms: Seq<RoomWithCachedInfo>,
    identifier: Seq<char>,
    j: int,
)
    requires
        names_entry_exactly(rooms, identifier, j),
    ensures
        resolve(rooms, identifier) matches ResolutionOutcome::Resolved(i) && names_entry_exactly(
            rooms,
            identifier,
            i,
        ),
        (forall|k: int| names_entry_exactly(rooms, identifier, k) ==> k == j) ==> resolve(
            rooms,
            identifier,
        ) == ResolutionOutcome::Resolved(j),
{
    if names_some(MatchKind::Id, rooms, identifier) {
        let i = choose|i: int| names_entry(MatchKind::Id, rooms, identifier, i);
        lemma_some_named_is_first(MatchKind::Id, rooms, identifier, i);
    } else if names_some(MatchKind::CanonicalAlias, rooms, identifier) {
        let i = choose|i: int| names_entry(MatchKind::CanonicalAlias, rooms, identifier, i);
        lemma_some_named_is_first(MatchKind::CanonicalAlias, rooms, identifier, i);
    } else {
        assert(names_entry(MatchKind::AltAlias, rooms, identifier, j));
        lemma_some_named_is_first(MatchKind::AltAlias, rooms, identifier, j);
    }
}

/// An identifier that is no id and no alias, and the display name of exactly
/// one room, resolves to that room.
pub proof fn lemma_single_name_resolves(
    rooms: Seq<RoomWithCachedInfo>,
    identifier: Seq<char>,
    j: int,
)
    requires
        !names_exactly(rooms, identifier),
        names_entry(MatchKind::Name, rooms, identifier, j),
        forall|k: int| names_entry(MatchKind::Name, rooms, identifier, k) ==> k == j,
    ensures
        resolve(rooms, identifier) == ResolutionOutcome::Resolved(j),
{
    let indices = indices_with_name(rooms, identifier);
    lemma_ids_with_name(rooms, identifier);
    assert(indices.contains(j));
    if indices.len() > 1 {
        assert(names_entry(MatchKind::Name, rooms, identifier, indices[0]));
        assert(names_entry(MatchKind::Name, rooms, identifier, indices[1]));
        assert(indices[0] < indices[1]);
    }
    lemma_some_named_is_first(MatchKind::Name, rooms, identifier, j);
}

/// An identifier that is no id and no alias, and the display name of two or
/// more rooms, resolves to none of them: the outcome lists the identifiers
/// of exactly those rooms, each once and in directory order.
pub proof fn lemma_shared_name_is_ambiguous(
    rooms: Seq<RoomWithCachedInfo>,
    identifier: Seq<char>,
    j: int,
    k: int,
)
    requires
        !names_exactly(rooms, identifier),
        names_entry(MatchKind::Name, rooms, identifier, j),
        names_entry(MatchKind::Name, rooms, identifier, k),
        j != k,
    ensures
        resolve(rooms, identifier) == ResolutionOutcome::AmbiguousByName(
            ids_with_name(rooms, identifier),
        ),
        lists_rooms_with_name(rooms, identifier, indices_with_name(rooms, identifier)),
        ids_with_name(rooms, identifier).len() == indices_with_name(rooms, identifier).len(),
        forall|n: int|
            0 <= n < indices_with_name(rooms, identifier).len() ==> #[trigger] ids_with_name(
                rooms,
                identifier,
            )[n] == rooms[indices_with_name(rooms, identifier)[n]]@.id,
{
    let indices = indices_with_name(rooms, identifier);
    lemma_ids_with_name(rooms, identifier);
    assert(indices.contains(j));
    assert(indices.contains(k));
}

} // verus!
