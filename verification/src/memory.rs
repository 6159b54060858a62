//! Memory-management state of a declaration, and its verification against
//! the selector's family.
//!
//! Exactly one state is attached to any object-returning declaration, and
//! the state must agree with the selector's family: downstream consumers
//! trust the selector alone to pick a retain/release strategy, so the
//! naming convention and the verified ownership semantics must never
//! disagree.

use vstd::prelude::*;

use crate::diag::Fault;
use crate::selector::{in_family, in_selector_family, lemma_families_disjoint};

verus! {

/// The ownership contract of a declaration.
#[derive(Debug, PartialEq, Eq, Hash, Clone, Copy, Structural)]
pub enum MemoryManagement {
    /// The call consumes the receiver and returns a retained result bound
    /// to the same identity; used exclusively by initializers.
    Init,
    /// The caller receives a +1 retained reference.
    ReturnsRetained,
    /// The returned pointer is non-owning and valid only as long as its
    /// parent object is alive.
    ReturnsInnerPointer,
    /// Ordinary (autoreleased/borrowed) return with no ownership transfer.
    Normal,
}

/// The state that the selector's family requires of an object-returning
/// declaration. Selectors outside every family allow `Normal`, with
/// `ReturnsInnerPointer` exempt from that requirement.
pub open spec fn sel_state_ok(mm: MemoryManagement, sel: Seq<char>) -> bool {
    if in_family(sel, "init"@) {
        mm == MemoryManagement::Init
    } else if in_family(sel, "new"@) || in_family(sel, "alloc"@) || in_family(sel, "copy"@)
        || in_family(sel, "mutableCopy"@) {
        mm == MemoryManagement::ReturnsRetained
    } else {
        mm == MemoryManagement::Normal || mm == MemoryManagement::ReturnsInnerPointer
    }
}

/// The canonical family tag of a selector, by the fixed precedence
/// `new` > `alloc` > `init` > (`copy` or `mutableCopy`, merged) > other.
pub open spec fn canonical_family_name(sel: Seq<char>) -> Seq<char> {
    if in_family(sel, "new"@) {
        "New"@
    } else if in_family(sel, "alloc"@) {
        "Alloc"@
    } else if in_family(sel, "init"@) {
        "Init"@
    } else if in_family(sel, "copy"@) || in_family(sel, "mutableCopy"@) {
        "CopyOrMutCopy"@
    } else {
        "Other"@
    }
}

/// No selector matches two of the five family words at once: every family
/// word starts with a different letter. This is why the precedence in
/// `canonical_family_name` never hides a genuine overlap.
pub proof fn lemma_family_overlap_impossible(sel: Seq<char>)
    ensures
        !(in_family(sel, "new"@) && in_family(sel, "alloc"@)),
        !(in_family(sel, "new"@) && in_family(sel, "init"@)),
        !(in_family(sel, "new"@) && in_family(sel, "copy"@)),
        !(in_family(sel, "new"@) && in_family(sel, "mutableCopy"@)),
        !(in_family(sel, "alloc"@) && in_family(sel, "init"@)),
        !(in_family(sel, "alloc"@) && in_family(sel, "copy"@)),
        !(in_family(sel, "alloc"@) && in_family(sel, "mutableCopy"@)),
        !(in_family(sel, "init"@) && in_family(sel, "copy"@)),
        !(in_family(sel, "init"@) && in_family(sel, "mutableCopy"@)),
        !(in_family(sel, "copy"@) && in_family(sel, "mutableCopy"@)),
{
    reveal_strlit("new");
    reveal_strlit("alloc");
    reveal_strlit("init");
    reveal_strlit("copy");
    reveal_strlit("mutableCopy");
    lemma_families_disjoint(sel, "new"@, "alloc"@);
    lemma_families_disjoint(sel, "new"@, "init"@);
    lemma_families_disjoint(sel, "new"@, "copy"@);
    lemma_families_disjoint(sel, "new"@, "mutableCopy"@);
    lemma_families_disjoint(sel, "alloc"@, "init"@);
    lemma_families_disjoint(sel, "alloc"@, "copy"@);
    lemma_families_disjoint(sel, "alloc"@, "mutableCopy"@);
    lemma_families_disjoint(sel, "init"@, "copy"@);
    lemma_families_disjoint(sel, "init"@, "mutableCopy"@);
    lemma_families_disjoint(sel, "copy"@, "mutableCopy"@);
}

/// The family classifier is consistent with the canonical family tag: a
/// selector that matches family `F` gets the tag of `F`, with `copy` and
/// `mutableCopy` merged into one tag.
pub proof fn lemma_family_tag_consistent(sel: Seq<char>)
    ensures
        in_family(sel, "new"@) ==> canonical_family_name(sel) == "New"@,
        in_family(sel, "alloc"@) ==> canonical_family_name(sel) == "Alloc"@,
        in_family(sel, "init"@) ==> canonical_family_name(sel) == "Init"@,
        in_family(sel, "copy"@) ==> canonical_family_name(sel) == "CopyOrMutCopy"@,
        in_family(sel, "mutableCopy"@) ==> canonical_family_name(sel) == "CopyOrMutCopy"@,
{
    lemma_family_overlap_impossible(sel);
}

impl MemoryManagement {
    /// Checks that the selector's naming convention and this state agree,
    /// per the family table. A mismatch is a fatal consistency fault.
    pub fn verify_sel(self, sel: &str) -> (r: Result<(), Fault>)
        ensures
            r is Ok <==> sel_state_ok(self, sel@),
            r is Err ==> r == Err::<(), Fault>(Fault::SelectorFamilyMismatch),
    {
        let ok = if in_selector_family(sel, "init") {
            self == MemoryManagement::Init
        } else if in_selector_family(sel, "new") || in_selector_family(sel, "alloc")
            || in_selector_family(sel, "copy") || in_selector_family(sel, "mutableCopy") {
            self == MemoryManagement::ReturnsRetained
        } else {
            self == MemoryManagement::Normal || self == MemoryManagement::ReturnsInnerPointer
        };
        if ok {
            Ok(())
        } else {
            Err(Fault::SelectorFamilyMismatch)
        }
    }

    /// The canonical family tag of the selector, used by the emitter to
    /// pick retain semantics.
    pub fn get_memory_management_name(sel: &str) -> (r: &'static str)
        ensures
            r@ == canonical_family_name(sel@),
    {
        proof {
            lemma_family_overlap_impossible(sel@);
        }
        if in_selector_family(sel, "new") {
            "New"
        } else if in_selector_family(sel, "alloc") {
            "Alloc"
        } else if in_selector_family(sel, "init") {
            "Init"
        } else if in_selector_family(sel, "copy") {
            "CopyOrMutCopy"
        } else if in_selector_family(sel, "mutableCopy") {
            "CopyOrMutCopy"
        } else {
            "Other"
        }
    }

    /// Whether the selector is in the `init` family.
    pub fn is_init(sel: &str) -> (r: bool)
        ensures
            r == in_family(sel@, "init"@),
    {
        in_selector_family(sel, "init")
    }

    /// Whether the selector is in the `alloc` family.
    pub fn is_alloc(sel: &str) -> (r: bool)
        ensures
            r == in_family(sel@, "alloc"@),
    {
        in_selector_family(sel, "alloc")
    }

    /// Whether the selector is in the `new` family.
    pub fn is_new(sel: &str) -> (r: bool)
        ensures
            r == in_family(sel@, "new"@),
    {
        in_selector_family(sel, "new")
    }
}

} // verus!
