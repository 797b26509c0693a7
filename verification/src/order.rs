//! Listing order: arranging items by a rank that may tie, so that ties keep
//! the order in which the items arrived.

use vstd::prelude::*;

verus! {

/// A type whose values are listed by rank. Two values may tie: neither is
/// then ranked before the other.
pub trait Ranked: Sized {
    /// Whether `self` is ranked strictly before `other`.
    spec fn ranks_before(&self, other: &Self) -> bool;

    /// Whether `self` is ranked strictly before `other`.
    fn is_ranked_before(&self, other: &Self) -> (r: bool)
        ensures
            r == self.ranks_before(other),
    ;

    /// Of two values at most one is ranked before the other.
    proof fn lemma_rank_asymmetric(a: &Self, b: &Self)
        ensures
            !(a.ranks_before(b) && b.ranks_before(a)),
    ;

    /// Where `a` is not ranked before `b`, and `b` not before `c`, `a` is
    /// not ranked before `c`.
    proof fn lemma_rank_negatively_transitive(a: &Self, b: &Self, c: &Self)
        requires
            !a.ranks_before(b),
            !b.ranks_before(c),
        ensures
            !a.ranks_before(c),
    ;
}

/// Whether a listing is in order: no item is ranked strictly before one
/// that stands in front of it.
pub open spec fn is_in_order<T: Ranked>(listed: Seq<T>) -> bool {
    forall|k: int, l: int|
        #![trigger listed[k], listed[l]]
        0 <= k < l < listed.len() ==> !listed[l].ranks_before(&listed[k])
}

/// Whether `listed` arranges the items of `arrived`, the item at each place
/// `k` being the one that arrived at `origin[k]`: every arrival is listed
/// once, the listing is in order, and items that tie keep the order of their
/// arrival.
pub open spec fn is_stable_listing<T: Ranked>(
    arrived: Seq<T>,
    listed: Seq<T>,
    origin: Seq<int>,
) -> bool {
    &&& listed.len() == arrived.len()
    &&& origin.len() == arrived.len()
    &&& forall|k: int|
        0 <= k < origin.len() ==> 0 <= #[trigger] origin[k] < arrived.len() && listed[k]
            == arrived[origin[k]]
    &&& forall|k: int, l: int|
        0 <= k < l < origin.len() ==> #[trigger] origin[k] != #[trigger] origin[l]
    &&& is_in_order(listed)
    &&& forall|k: int, l: int|
        #![trigger listed[k], listed[l]]
        0 <= k < l < listed.len() && !listed[k].ranks_before(&listed[l]) ==> origin[k] < origin[l]
}

/// Arranges `arrived` in listing order, items that tie in the order of their
/// arrival.
pub fn stable_sort<T: Ranked>(arrived: Vec<T>) -> (r: Vec<T>)
    ensures
        is_in_order(r@),
        exists|origin: Seq<int>| is_stable_listing(arrived@, r@, origin),
{
    let ghost all = arrived@;
    let mut rest = arrived;
    let mut listed: Vec<T> = Vec::new();
    let ghost mut origin: Seq<int> = Seq::empty();
    while rest.len() > 0
        invariant
            rest@ == all.take(rest@.len() as int),
            listed@.len() == all.len() - rest@.len(),
            origin.len() == listed@.len(),
            forall|k: int|
                0 <= k < origin.len() ==> rest@.len() <= #[trigger] origin[k] < all.len()
                    && listed@[k] == all[origin[k]],
            forall|k: int, l: int|
                0 <= k < l < origin.len() ==> #[trigger] origin[k] != #[trigger] origin[l],
            is_in_order(listed@),
            forall|k: int, l: int|
                #![trigger listed@[k], listed@[l]]
                0 <= k < l < listed@.len() && !listed@[k].ranks_before(&listed@[l]) ==> origin[k]
                    < origin[l],
        decreases rest@.len(),
    {
        let ghost at = rest@.len() - 1;
        let item = rest.pop().unwrap();
        let mut place: usize = 0;
        while place < listed.len() && listed[place].is_ranked_before(&item)
            invariant
                place <= listed@.len(),
                forall|k: int| #![trigger listed@[k]] 0 <= k < place ==> listed@[k].ranks_before(&item),
            decreases listed@.len() - place,
        {
            place += 1;
        }
        let ghost before = listed@;
        let ghost origin_before = origin;
        proof {
            assert forall|k: int| #![trigger before[k]] 0 <= k < place implies !item.ranks_before(
                &before[k],
            ) by {
                T::lemma_rank_asymmetric(&item, &before[k]);
            }
            assert forall|l: int|
                #![trigger before[l]]
                place <= l < before.len() implies !before[l].ranks_before(&item) by {
                if l > place {
                    T::lemma_rank_negatively_transitive(&before[l], &before[place as int], &item);
                }
            }
            origin = origin.insert(place as int, at);
        }
        listed.insert(place, item);
        proof {
            assert(rest@ =~= all.take(rest@.len() as int));
            assert forall|k: int, l: int|
                #![trigger listed@[k], listed@[l]]
                0 <= k < l < listed@.len() implies !listed@[l].ranks_before(&listed@[k]) by {
                let kb = if k < place { k } else { k - 1 };
                let lb = if l < place { l } else { l - 1 };
                if k != place && l != place {
                    assert(listed@[k] == before[kb] && listed@[l] == before[lb]);
                }
            }
            assert forall|k: int, l: int|
                #![trigger listed@[k], listed@[l]]
                0 <= k < l < listed@.len() && !listed@[k].ranks_before(&listed@[l]) implies origin[k]
                    < origin[l] by {
                let kb = if k < place { k } else { k - 1 };
                let lb = if l < place { l } else { l - 1 };
                if k != place && l != place {
                    assert(listed@[k] == before[kb] && listed@[l] == before[lb]);
                    assert(origin[k] == origin_before[kb] && origin[l] == origin_before[lb]);
                } else if l == place {
                    assert(listed@[k] == before[k]);
                } else {
                    assert(origin[l] == origin_before[lb]);
                }
            }
            assert forall|k: int, l: int| 0 <= k < l < origin.len() implies #[trigger] origin[k]
                != #[trigger] origin[l] by {
                let kb = if k < place { k } else { k - 1 };
                let lb = if l < place { l } else { l - 1 };
                if k != place && l != place {
                    assert(origin[k] == origin_before[kb] && origin[l] == origin_before[lb]);
                } else if l == place {
                    assert(origin[k] == origin_before[kb]);
                } else {
                    assert(origin[l] == origin_before[lb]);
                }
            }
            assert forall|k: int| 0 <= k < origin.len() implies rest@.len() <= #[trigger] origin[k]
                < all.len() && listed@[k] == all[origin[k]] by {
                let kb = if k < place { k } else { k - 1 };
                if k != place {
                    assert(origin[k] == origin_before[kb]);
                    assert(listed@[k] == before[kb]);
                }
            }
        }
    }
    proof {
        assert(is_stable_listing(arrived@, listed@, origin));
    }
    listed
}

} // verus!
