//! Small verified helpers on text, stated over sequences of characters.

use vstd::prelude::*;
use vstd::std_specs::iter::IteratorSpec;
use vstd::string::*;
use vstd::utf8::*;

verus! {

broadcast use vstd::string::group_string_axioms;

/// Whether two string slices hold the same characters.
pub fn same_text(a: &str, b: &str) -> (r: bool)
    ensures
        r == (a@ == b@),
{
    let x = a.as_bytes();
    let y = b.as_bytes();
    proof {
        encode_utf8_decode_utf8(a@);
        encode_utf8_decode_utf8(b@);
    }
    if x.len() != y.len() {
        return false;
    }
    let mut i: usize = 0;
    while i < x.len()
        invariant
            i <= x.len(),
            x.len() == y.len(),
            x@ == a.spec_bytes(),
            y@ == b.spec_bytes(),
            forall|j: int| 0 <= j < i ==> x@[j] == y@[j],
        decreases x.len() - i,
    {
        if x[i] != y[i] {
            return false;
        }
        i += 1;
    }
    assert(x@ =~= y@);
    true
}

/// Whether `i` is the position of the first `c` in `s`.
pub open spec fn is_first_position(s: Seq<char>, c: char, i: int) -> bool {
    &&& 0 <= i < s.len()
    &&& s[i] == c
    &&& forall|j: int| 0 <= j < i ==> s[j] != c
}

/// The position of the first `c` in `s`; meant for an `s` that holds one.
pub open spec fn first_position(s: Seq<char>, c: char) -> int {
    choose|i: int| is_first_position(s, c, i)
}

/// What stands in `s` before its first `c`.
pub open spec fn text_before(s: Seq<char>, c: char) -> Seq<char> {
    s.subrange(0, first_position(s, c))
}

/// What stands in `s` behind its first `c`.
pub open spec fn text_after(s: Seq<char>, c: char) -> Seq<char> {
    s.subrange(first_position(s, c) + 1, s.len() as int)
}

/// A text that holds `c` falls into what stands before the first `c`, that
/// `c`, and what stands behind it; and the first part holds no `c`.
pub proof fn lemma_split_at_first(s: Seq<char>, c: char)
    requires
        s.contains(c),
    ensures
        is_first_position(s, c, first_position(s, c)),
        s == text_before(s, c) + seq![c] + text_after(s, c),
        !text_before(s, c).contains(c),
{
    let i = choose|i: int| 0 <= i < s.len() && s[i] == c;
    lemma_some_position_is_first(s, c, i);
    assert(s =~= text_before(s, c) + seq![c] + text_after(s, c));
}

proof fn lemma_some_position_is_first(s: Seq<char>, c: char, i: int)
    requires
        0 <= i < s.len(),
        s[i] == c,
    ensures
        is_first_position(s, c, first_position(s, c)),
    decreases i,
{
    if exists|j: int| 0 <= j < i && s[j] == c {
        let j = choose|j: int| 0 <= j < i && s[j] == c;
        lemma_some_position_is_first(s, c, j);
    } else {
        assert(is_first_position(s, c, i));
    }
}

/// Finds the first occurrence of `c` in `s`, counted in characters.
pub fn find_char(s: &str, c: char) -> (r: Option<usize>)
    ensures
        match r {
            Some(i) => is_first_position(s@, c, i as int) && i == first_position(s@, c),
            None => !s@.contains(c),
        },
{
    let n = s.unicode_len();
    let mut i: usize = 0;
    for x in it: s.chars()
        invariant
            n == s@.len(),
            i == it.index(),
            it.seq() == s@,
            forall|j: int| 0 <= j < i ==> s@[j] != c,
    {
        if x == c {
            assert(is_first_position(s@, c, i as int));
            return Some(i);
        }
        i += 1;
    }
    None
}

/// Splits `s` at its first `c`: what stands before it and what stands behind
/// it. A text without `c` is not split.
pub fn split_once<'a>(s: &'a str, c: char) -> (r: Option<(&'a str, &'a str)>)
    ensures
        match r {
            Some((head, tail)) => {
                &&& s@.contains(c)
                &&& head@ == text_before(s@, c)
                &&& tail@ == text_after(s@, c)
            },
            None => !s@.contains(c),
        },
{
    match find_char(s, c) {
        Some(i) => {
            let n = s.unicode_len();
            Some((s.substring_char(0, i), s.substring_char(i + 1, n)))
        },
        None => None,
    }
}

/// Whether `a` comes strictly before `b` in the lexicographic order of
/// their characters, each character ranked by its code point: at the first
/// place where the two differ `a` has the smaller character, or `a` ends
/// there and `b` goes on.
pub open spec fn text_precedes(a: Seq<char>, b: Seq<char>) -> bool
    decreases a.len(),
{
    if b.len() == 0 {
        false
    } else if a.len() == 0 {
        true
    } else if a[0] == b[0] {
        text_precedes(a.drop_first(), b.drop_first())
    } else {
        (a[0] as u32) < (b[0] as u32)
    }
}

/// No text comes before itself.
pub proof fn lemma_text_order_irreflexive(a: Seq<char>)
    ensures
        !text_precedes(a, a),
    decreases a.len(),
{
    if a.len() > 0 {
        lemma_text_order_irreflexive(a.drop_first());
    }
}

/// Of two different texts one comes before the other.
pub proof fn lemma_text_order_total(a: Seq<char>, b: Seq<char>)
    ensures
        a == b || text_precedes(a, b) || text_precedes(b, a),
    decreases a.len(),
{
    if a.len() == 0 || b.len() == 0 {
        if a.len() == 0 && b.len() == 0 {
            assert(a =~= b);
        }
    } else if a[0] == b[0] {
        lemma_text_order_total(a.drop_first(), b.drop_first());
        if a.drop_first() == b.drop_first() {
            assert(a =~= seq![a[0]] + a.drop_first());
            assert(b =~= seq![b[0]] + b.drop_first());
        }
    } else {
        char_u32_cast(a[0], a[0] as u32);
        char_u32_cast(b[0], b[0] as u32);
    }
}

/// What comes before a text comes before all that the text comes before.
pub proof fn lemma_text_order_transitive(a: Seq<char>, b: Seq<char>, c: Seq<char>)
    requires
        text_precedes(a, b),
        text_precedes(b, c),
    ensures
        text_precedes(a, c),
    decreases a.len(),
{
    if a.len() > 0 && a[0] == b[0] && b[0] == c[0] {
        lemma_text_order_transitive(a.drop_first(), b.drop_first(), c.drop_first());
    }
}

/// Whether `a` comes strictly before `b` in lexicographic order.
pub fn precedes(a: &str, b: &str) -> (r: bool)
    ensures
        r == text_precedes(a@, b@),
{
    let mut xs = a.chars();
    let mut ys = b.chars();
    let ghost mut k: int = 0;
    assert(a@.skip(0) =~= a@);
    loop
        invariant
            0 <= k <= a@.len(),
            xs.remaining() == a@.skip(k),
            text_precedes(a@, b@) == text_precedes(xs.remaining(), ys.remaining()),
        decreases a@.len() - k,
    {
        let x = xs.next();
        let y = ys.next();
        match (x, y) {
            (_, None) => {
                return false;
            },
            (None, Some(_)) => {
                return true;
            },
            (Some(p), Some(q)) => {
                if p != q {
                    return (p as u32) < (q as u32);
                }
                proof {
                    assert(a@.skip(k).drop_first() =~= a@.skip(k + 1));
                    k = k + 1;
                }
            },
        }
    }
}

} // verus!
