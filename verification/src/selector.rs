//! Selector-family classification.
//!
//! A selector belongs to a family (`new`, `alloc`, `init`, `copy`,
//! `mutableCopy`) when the family word is a prefix of the selector and the
//! match ends on an exact word boundary: the selector either equals the
//! family word, or the prefix is followed by an uppercase letter, a digit,
//! or an argument-label colon. `initWithCoder:` is in the `init` family;
//! `initialize` is not.

use vstd::prelude::*;

verus! {

/// A character that may legally follow a family word inside a selector
/// without breaking the family match: the camel-case boundary characters
/// and the argument-label colon.
pub open spec fn family_boundary_char(c: char) -> bool {
    ('A' <= c && c <= 'Z') || ('0' <= c && c <= '9') || c == ':'
}

/// The selector `sel` is in the family named by `family`.
pub open spec fn in_family(sel: Seq<char>, family: Seq<char>) -> bool {
    &&& family.len() <= sel.len()
    &&& sel.take(family.len() as int) == family
    &&& (sel.len() == family.len() || family_boundary_char(sel[family.len() as int]))
}

/// Whether `sel` belongs to the selector family named `family`.
pub fn in_selector_family(sel: &str, family: &str) -> (r: bool)
    ensures
        r == in_family(sel@, family@),
{
    let sel_len = sel.unicode_len();
    let fam_len = family.unicode_len();
    if sel_len < fam_len {
        assert(!in_family(sel@, family@));
        return false;
    }
    let mut i: usize = 0;
    while i < fam_len
        invariant
            i <= fam_len,
            fam_len <= sel_len,
            sel_len == sel@.len(),
            fam_len == family@.len(),
            forall|j: int| 0 <= j < i ==> sel@[j] == family@[j],
        decreases fam_len - i,
    {
        if sel.get_char(i) != family.get_char(i) {
            assert(sel@.take(fam_len as int)[i as int] != family@[i as int]);
            assert(!in_family(sel@, family@));
            return false;
        }
        i += 1;
    }
    assert(sel@.take(fam_len as int) =~= family@);
    if sel_len == fam_len {
        return true;
    }
    let c = sel.get_char(fam_len);
    ('A' <= c && c <= 'Z') || ('0' <= c && c <= '9') || c == ':'
}

/// Two distinct family words never both match one selector, because every
/// family word starts with a different letter.
pub proof fn lemma_families_disjoint(sel: Seq<char>, f1: Seq<char>, f2: Seq<char>)
    requires
        f1.len() > 0,
        f2.len() > 0,
        f1[0] != f2[0],
    ensures
        !(in_family(sel, f1) && in_family(sel, f2)),
{
    if in_family(sel, f1) && in_family(sel, f2) {
        assert(sel.take(f1.len() as int)[0] == sel[0]);
        assert(sel.take(f2.len() as int)[0] == sel[0]);
    }
}

/// Whether two string slices hold the same characters.
pub fn str_eq(a: &str, b: &str) -> (r: bool)
    ensures
        r == (a@ == b@),
{
    let a_len = a.unicode_len();
    let b_len = b.unicode_len();
    if a_len != b_len {
        return false;
    }
    let mut i: usize = 0;
    while i < a_len
        invariant
            i <= a_len,
            a_len == a@.len(),
            a_len == b@.len(),
            forall|j: int| 0 <= j < i ==> a@[j] == b@[j],
        decreases a_len - i,
    {
        if a.get_char(i) != b.get_char(i) {
            return false;
        }
        i += 1;
    }
    assert(a@ =~= b@);
    true
}

} // verus!
