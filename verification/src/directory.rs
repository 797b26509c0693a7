//! The room directory: the rooms that a session has joined, in the order in
//! which they are listed and looked up.

use vstd::prelude::*;

use crate::order::{is_in_order, is_stable_listing, stable_sort, Ranked};
use crate::rooms::{RoomView, RoomWithCachedInfo};
use crate::text::{
    lemma_text_order_irreflexive, lemma_text_order_total, lemma_text_order_transitive, precedes,
    text_precedes,
};

verus! {

/// Whether `a` is listed strictly before `b`. Rooms with a name come first,
/// by name; then the unnamed rooms with a canonical alias, by alias; then
/// the rest, by identifier. Two rooms of one name, or two unnamed rooms of
/// one alias, are listed in neither order before the other.
pub open spec fn room_precedes(a: RoomView, b: RoomView) -> bool {
    match (a.name, b.name) {
        (Some(x), Some(y)) => text_precedes(x, y),
        (Some(_), None) => true,
        (None, Some(_)) => false,
        (None, None) => match (a.canonical_alias, b.canonical_alias) {
            (Some(x), Some(y)) => text_precedes(x, y),
            (Some(_), None) => true,
            (None, Some(_)) => false,
            (None, None) => text_precedes(a.id, b.id),
        },
    }
}

/// No room is listed before itself, and of two rooms at most one is listed
/// before the other.
pub proof fn lemma_room_order_asymmetric(a: RoomView, b: RoomView)
    ensures
        !(room_precedes(a, b) && room_precedes(b, a)),
{
    if room_precedes(a, b) && room_precedes(b, a) {
        match (a.name, b.name) {
            (Some(x), Some(y)) => {
                lemma_text_order_transitive(x, y, x);
                lemma_text_order_irreflexive(x);
            },
            (None, None) => match (a.canonical_alias, b.canonical_alias) {
                (Some(x), Some(y)) => {
                    lemma_text_order_transitive(x, y, x);
                    lemma_text_order_irreflexive(x);
                },
                (None, None) => {
                    lemma_text_order_transitive(a.id, b.id, a.id);
                    lemma_text_order_irreflexive(a.id);
                },
                _ => {},
            },
            _ => {},
        }
    }
}

proof fn lemma_text_order_negatively_transitive(a: Seq<char>, b: Seq<char>, c: Seq<char>)
    requires
        !text_precedes(a, b),
        !text_precedes(b, c),
    ensures
        !text_precedes(a, c),
{
    lemma_text_order_total(a, b);
    lemma_text_order_total(b, c);
    if text_precedes(a, c) && a != b && b != c {
        lemma_text_order_transitive(c, b, a);
        lemma_text_order_transitive(a, c, a);
        lemma_text_order_irreflexive(a);
    }
}

/// Where `a` is not listed before `b`, and `b` not before `c`, `a` is not
/// listed before `c`.
pub proof fn lemma_room_order_negatively_transitive(a: RoomView, b: RoomView, c: RoomView)
    requires
        !room_precedes(a, b),
        !room_precedes(b, c),
    ensures
        !room_precedes(a, c),
{
    match (a.name, b.name, c.name) {
        (Some(x), Some(y), Some(z)) => {
            lemma_text_order_negatively_transitive(x, y, z);
        },
        (None, None, None) => match (a.canonical_alias, b.canonical_alias, c.canonical_alias) {
            (Some(x), Some(y), Some(z)) => {
                lemma_text_order_negatively_transitive(x, y, z);
            },
            (None, None, None) => {
                lemma_text_order_negatively_transitive(a.id, b.id, c.id);
            },
            _ => {},
        },
        _ => {},
    }
}

impl Ranked for RoomWithCachedInfo {
    open spec fn ranks_before(&self, other: &Self) -> bool {
        room_precedes(self@, other@)
    }

    fn is_ranked_before(&self, other: &Self) -> (r: bool) {
        match (&self.name, &other.name) {
            (Some(x), Some(y)) => precedes(x.as_str(), y.as_str()),
            (Some(_), None) => true,
            (None, Some(_)) => false,
            (None, None) => match (&self.canonical_alias, &other.canonical_alias) {
                (Some(x), Some(y)) => precedes(x.as_str(), y.as_str()),
                (Some(_), None) => true,
                (None, Some(_)) => false,
                (None, None) => precedes(self.id.as_str(), other.id.as_str()),
            },
        }
    }

    proof fn lemma_rank_asymmetric(a: &Self, b: &Self) {
        lemma_room_order_asymmetric(a@, b@);
    }

    proof fn lemma_rank_negatively_transitive(a: &Self, b: &Self, c: &Self) {
        lemma_room_order_negatively_transitive(a@, b@, c@);
    }
}

/// Builds the directory from the rooms that the session has joined, as they
/// arrived: the same rooms in listing order, rooms of equal rank in the order
/// of their arrival.
pub fn get_rooms_info(joined: Vec<RoomWithCachedInfo>) -> (r: Vec<RoomWithCachedInfo>)
    ensures
        is_in_order(r@),
        exists|origin: Seq<int>| is_stable_listing(joined@, r@, origin),
{
    stable_sort(joined)
}

} // verus!
