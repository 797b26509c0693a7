//! The display-name cache of one room's render pass: what is known of each
//! sender's display name, looked up once and then reused.

use vstd::prelude::*;

use crate::text::same_text;

verus! {

/// What one membership lookup found for a sender.
struct CachedName {
    sender: String,
    name: Option<String>,
}

/// For each sender that was looked up, the display name that was found, or
/// `None` where the sender has none.
pub struct DisplayNameCache {
    entries: Vec<CachedName>,
}

/// Whether `i` is the first position in `entries` that belongs to `sender`.
spec fn is_entry_of(entries: Seq<CachedName>, sender: Seq<char>, i: int) -> bool {
    &&& 0 <= i < entries.len()
    &&& entries[i].sender@ == sender
    &&& forall|j: int| 0 <= j < i ==> entries[j].sender@ != sender
}

/// The mapping that a list of lookups stands for: each sender with what its
/// first entry holds.
spec fn names_of(entries: Seq<CachedName>) -> Map<Seq<char>, Option<Seq<char>>> {
    Map::new(
        |sender: Seq<char>| exists|i: int| is_entry_of(entries, sender, i),
        |sender: Seq<char>| entries[choose|i: int| is_entry_of(entries, sender, i)].name.deep_view(),
    )
}

/// Whether no sender has two entries.
spec fn one_entry_per_sender(entries: Seq<CachedName>) -> bool {
    forall|i: int, j: int| 0 <= i < j < entries.len() ==> entries[i].sender@ != entries[j].sender@
}

proof fn lemma_some_entry_is_first(entries: Seq<CachedName>, sender: Seq<char>, i: int)
    requires
        0 <= i < entries.len(),
        entries[i].sender@ == sender,
    ensures
        exists|k: int| is_entry_of(entries, sender, k),
    decreases i,
{
    if exists|j: int| 0 <= j < i && entries[j].sender@ == sender {
        let j = choose|j: int| 0 <= j < i && entries[j].sender@ == sender;
        lemma_some_entry_is_first(entries, sender, j);
    } else {
        assert(is_entry_of(entries, sender, i));
    }
}

impl View for DisplayNameCache {
    type V = Map<Seq<char>, Option<Seq<char>>>;

    closed spec fn view(&self) -> Map<Seq<char>, Option<Seq<char>>> {
        names_of(self.entries@)
    }
}

impl DisplayNameCache {
    #[verifier::type_invariant]
    spec fn distinct_senders(&self) -> bool {
        one_entry_per_sender(self.entries@)
    }

    /// The cache in which no sender was looked up yet.
    pub fn new() -> (r: Self)
        ensures
            r@ == Map::<Seq<char>, Option<Seq<char>>>::empty(),
    {
        let r = DisplayNameCache { entries: Vec::new() };
        assert(r@ =~= Map::<Seq<char>, Option<Seq<char>>>::empty());
        r
    }

    /// The number of senders that were looked up.
    pub fn len(&self) -> (r: usize)
        ensures
            r == self@.dom().len(),
            self@.dom().finite(),
    {
        proof {
            use_type_invariant(self);
            lemma_domain_size(self.entries@);
        }
        self.entries.len()
    }

    fn position(&self, sender: &str) -> (r: Option<usize>)
        ensures
            match r {
                Some(i) => is_entry_of(self.entries@, sender@, i as int),
                None => !self@.contains_key(sender@),
            },
    {
        let mut i: usize = 0;
        while i < self.entries.len()
            invariant
                i <= self.entries.len(),
                forall|j: int| 0 <= j < i ==> self.entries@[j].sender@ != sender@,
            decreases self.entries.len() - i,
        {
            if same_text(self.entries[i].sender.as_str(), sender) {
                return Some(i);
            }
            i += 1;
        }
        None
    }

    /// What is known of `sender`: `None` where the sender was never looked
    /// up, `Some(None)` where the lookup found no display name.
    pub fn get(&self, sender: &str) -> (r: Option<&Option<String>>)
        ensures
            r is Some <==> self@.contains_key(sender@),
            r is Some ==> r->0.deep_view() == self@[sender@],
    {
        match self.position(sender) {
            Some(i) => Some(&self.entries[i].name),
            None => None,
        }
    }

    /// Records what a lookup found for `sender`. The first record of a sender
    /// stands: a later one for the same sender changes nothing.
    pub fn insert(&mut self, sender: String, name: Option<String>)
        ensures
            final(self)@ == if old(self)@.contains_key(sender@) {
                old(self)@
            } else {
                old(self)@.insert(sender@, name.deep_view())
            },
    {
        proof {
            use_type_invariant(&*self);
        }
        if self.position(sender.as_str()).is_none() {
            let ghost before = self.entries@;
            let ghost key = sender@;
            let ghost value = name.deep_view();
            let mut entries: Vec<CachedName> = Vec::new();
            core::mem::swap(&mut self.entries, &mut entries);
            entries.push(CachedName { sender, name });
            proof {
                assert forall|i: int, j: int| 0 <= i < j < entries@.len() implies entries@[i].sender@
                    != entries@[j].sender@ by {
                    if j == before.len() && before[i].sender@ == key {
                        lemma_some_entry_is_first(before, key, i);
                    }
                }
            }
            core::mem::swap(&mut self.entries, &mut entries);
            proof {
                let after = self.entries@;
                assert forall|k: Seq<char>, i: int| is_entry_of(before, k, i) implies is_entry_of(
                    after,
                    k,
                    i,
                ) by {}
                assert forall|k: Seq<char>, i: int| is_entry_of(after, k, i) && k != key implies is_entry_of(
                    before,
                    k,
                    i,
                ) by {}
                assert(is_entry_of(after, key, before.len() as int));
                assert(names_of(after) =~= names_of(before).insert(key, value));
            }
        }
    }
}

proof fn lemma_domain_size(entries: Seq<CachedName>)
    requires
        one_entry_per_sender(entries),
    ensures
        names_of(entries).dom().finite(),
        names_of(entries).dom().len() == entries.len(),
    decreases entries.len(),
{
    if entries.len() == 0 {
        assert(names_of(entries).dom() =~= Set::<Seq<char>>::empty());
    } else {
        let front = entries.drop_last();
        let last = entries.last();
        lemma_domain_size(front);
        assert forall|k: Seq<char>, i: int| is_entry_of(front, k, i) implies is_entry_of(
            entries,
            k,
            i,
        ) by {}
        assert forall|k: Seq<char>, i: int| is_entry_of(entries, k, i) && i < front.len() implies is_entry_of(
            front,
            k,
            i,
        ) by {}
        assert(is_entry_of(entries, last.sender@, entries.len() - 1));
        assert(!names_of(front).dom().contains(last.sender@));
        assert(names_of(entries).dom() =~= names_of(front).dom().insert(last.sender@));
    }
}

} // verus!
