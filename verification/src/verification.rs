//! Device verification: what a user's answer to the question whether the
//! short authentication strings match comes to.

use vstd::prelude::*;
use vstd::std_specs::iter::IteratorSpec;
use vstd::string::*;

verus! {

broadcast use vstd::string::group_string_axioms;

/// What the user answered.
#[derive(Clone, Copy, Debug, PartialEq, Eq, Structural)]
pub enum SasAnswer {
    /// The strings match.
    Confirm,
    /// The strings differ.
    Mismatch,
    /// The verification is called off.
    Cancel,
    /// The answer is none of these, and is asked for again.
    Unrecognized,
}

/// The text that Rust's standard library leaves of `s` once the white space
/// at both ends is taken off.
pub uninterp spec fn trimmed(s: Seq<char>) -> Seq<char>;

/// `str::trim` of the standard library. Claimed: the outcome depends on the
/// text alone.
#[verifier::external_body]
fn trim<'a>(s: &'a str) -> (r: &'a str)
    ensures
        r@ == trimmed(s@),
{
    s.trim()
}

/// The code point of `c`, the ASCII capitals taken as their small letters.
pub open spec fn folded(c: char) -> u32 {
    if 'A' as u32 <= c as u32 <= 'Z' as u32 {
        (c as u32 + 32) as u32
    } else {
        c as u32
    }
}

/// Whether two texts are the same but for the case of ASCII letters.
pub open spec fn same_but_for_ascii_case(a: Seq<char>, b: Seq<char>) -> bool {
    &&& a.len() == b.len()
    &&& forall|i: int| 0 <= i < a.len() ==> folded(#[trigger] a[i]) == folded(b[i])
}

/// What an answer without white space around it says: `y` or `yes`, `n` or
/// `no`, `c` or `cancel`, in any mix of cases.
pub open spec fn answer_named(answer: Seq<char>) -> SasAnswer {
    if same_but_for_ascii_case(answer, "y"@) || same_but_for_ascii_case(answer, "yes"@) {
        SasAnswer::Confirm
    } else if same_but_for_ascii_case(answer, "n"@) || same_but_for_ascii_case(answer, "no"@) {
        SasAnswer::Mismatch
    } else if same_but_for_ascii_case(answer, "c"@) || same_but_for_ascii_case(answer, "cancel"@) {
        SasAnswer::Cancel
    } else {
        SasAnswer::Unrecognized
    }
}

fn fold(c: char) -> (r: u32)
    ensures
        r == folded(c),
{
    let code = c as u32;
    if 65 <= code && code <= 90 {
        code + 32
    } else {
        code
    }
}

/// Whether two texts are the same but for the case of ASCII letters.
pub fn eq_ignoring_ascii_case(a: &str, b: &str) -> (r: bool)
    ensures
        r == same_but_for_ascii_case(a@, b@),
{
    let mut xs = a.chars();
    let mut ys = b.chars();
    let ghost mut k: int = 0;
    assert(a@.skip(0) =~= a@);
    assert(b@.skip(0) =~= b@);
    loop
        invariant
            0 <= k <= a@.len(),
            k <= b@.len(),
            xs.remaining() == a@.skip(k),
            ys.remaining() == b@.skip(k),
            forall|i: int| 0 <= i < k ==> folded(#[trigger] a@[i]) == folded(b@[i]),
        decreases a@.len() - k,
    {
        let x = xs.next();
        let y = ys.next();
        match (x, y) {
            (None, None) => {
                return true;
            },
            (Some(p), Some(q)) => {
                if fold(p) != fold(q) {
                    assert(a@[k] == p && b@[k] == q);
                    return false;
                }
                proof {
                    assert(a@.skip(k).drop_first() =~= a@.skip(k + 1));
                    assert(b@.skip(k).drop_first() =~= b@.skip(k + 1));
                    k = k + 1;
                }
            },
            _ => {
                return false;
            },
        }
    }
}

/// Reads an answer that has no white space around it.
pub fn classify_sas_answer(answer: &str) -> (r: SasAnswer)
    ensures
        r == answer_named(answer@),
{
    if eq_ignoring_ascii_case(answer, "y") || eq_ignoring_ascii_case(answer, "yes") {
        SasAnswer::Confirm
    } else if eq_ignoring_ascii_case(answer, "n") || eq_ignoring_ascii_case(answer, "no") {
        SasAnswer::Mismatch
    } else if eq_ignoring_ascii_case(answer, "c") || eq_ignoring_ascii_case(answer, "cancel") {
        SasAnswer::Cancel
    } else {
        SasAnswer::Unrecognized
    }
}

/// Reads an answer as the user typed it, white space around it or not.
pub fn read_sas_answer(input: &str) -> (r: SasAnswer)
    ensures
        r == answer_named(trimmed(input@)),
{
    classify_sas_answer(trim(input))
}

} // verus!
