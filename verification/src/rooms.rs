//! The rooms that a session can reach, each with the display metadata that
//! was cached for it.

use vstd::prelude::*;
use vstd::string::*;

use crate::text::{find_char, first_position, text_after};

verus! {

/// One room that the session can reach, with its cached display metadata.
#[derive(Clone, Debug, PartialEq, Eq)]
pub struct RoomWithCachedInfo {
    /// The stable identifier of the room, such as `!abc123:example.org`.
    pub id: String,
    /// The display name, where the room has one.
    pub name: Option<String>,
    /// The alias that the room's administrators made the primary one.
    pub canonical_alias: Option<String>,
    /// The other aliases of the room.
    pub alt_aliases: Vec<String>,
}

/// The mathematical value of a [`RoomWithCachedInfo`].
pub struct RoomView {
    pub id: Seq<char>,
    pub name: Option<Seq<char>>,
    pub canonical_alias: Option<Seq<char>>,
    pub alt_aliases: Seq<Seq<char>>,
}

impl View for RoomWithCachedInfo {
    type V = RoomView;

    open spec fn view(&self) -> RoomView {
        RoomView {
            id: self.id@,
            name: self.name.deep_view(),
            canonical_alias: self.canonical_alias.deep_view(),
            alt_aliases: self.alt_aliases.deep_view(),
        }
    }
}

impl DeepView for RoomWithCachedInfo {
    type V = RoomView;

    open spec fn deep_view(&self) -> RoomView {
        self@
    }
}

/// Whether `s` has the shape of a qualified identifier: the sigil, a local
/// part, a colon and a server name.
pub open spec fn is_qualified(s: Seq<char>, sigil: char) -> bool {
    s.len() > 0 && s[0] == sigil && s.contains(':')
}

/// What stands in a qualified identifier between the sigil and the first
/// colon.
pub open spec fn localpart(s: Seq<char>) -> Seq<char> {
    s.subrange(1, first_position(s, ':'))
}

/// What stands in a qualified identifier behind the first colon.
pub open spec fn server_name(s: Seq<char>) -> Seq<char> {
    text_after(s, ':')
}

/// Whether `s` has the shape of a qualified identifier with `sigil`.
pub fn has_qualified_shape(s: &str, sigil: char) -> (r: bool)
    ensures
        r == is_qualified(s@, sigil),
{
    !s.is_empty() && s.get_char(0) == sigil && find_char(s, ':').is_some()
}

/// The local part and the server name of a qualified identifier whose sigil
/// is no colon.
pub fn split_qualified<'a>(s: &'a str, sigil: char) -> (r: (&'a str, &'a str))
    requires
        is_qualified(s@, sigil),
        sigil != ':',
    ensures
        r.0@ == localpart(s@),
        r.1@ == server_name(s@),
{
    let n = s.unicode_len();
    match find_char(s, ':') {
        Some(colon) => (s.substring_char(1, colon), s.substring_char(colon + 1, n)),
        None => (s, s),
    }
}

impl RoomWithCachedInfo {
    /// Whether the identifier and the canonical alias have the shapes that
    /// the protocol gives them: `!local:server` and `#local:server`.
    pub open spec fn well_formed(&self) -> bool {
        &&& is_qualified(self.id@, '!')
        &&& self.canonical_alias matches Some(alias) ==> is_qualified(alias@, '#')
    }

    /// Tests [`Self::well_formed`].
    pub fn is_well_formed(&self) -> (r: bool)
        ensures
            r == self.well_formed(),
    {
        has_qualified_shape(self.id.as_str(), '!') && match &self.canonical_alias {
            Some(alias) => has_qualified_shape(alias.as_str(), '#'),
            None => true,
        }
    }
}

} // verus!
