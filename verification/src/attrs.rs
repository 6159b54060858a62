//! The fold over a declaration's attached semantic attributes.
//!
//! Abstractly this is a strict one-pass fold over a finite list of tagged
//! facts into a single memory-management state, with fatal faults on any
//! transition that violates the one-shot or precondition rules. The
//! accumulator struct centrally enforces the invariants, so they can be
//! tested in isolation from AST extraction.

use vstd::prelude::*;

use crate::diag::{Fault, Warning};
use crate::memory::MemoryManagement;

verus! {

/// A semantic attribute marker attached to a declaration node or to one of
/// its arguments: a tagged fact with no payload beyond its kind.
#[derive(Debug, Clone, Copy, PartialEq, Eq, Structural)]
pub enum DeclAttr {
    /// Class, protocol and type references and parameter declarations that
    /// accompany the node; carry no semantic weight here.
    IgnoredRef,
    /// An integer literal node reached through an array type; ignored on
    /// arguments, meaningless elsewhere.
    IntegerLiteral,
    /// The declaration is marked as the canonical construction path.
    DesignatedInitializer,
    /// The call consumes its receiver.
    ConsumesSelf,
    /// The argument is consumed by the call; unsupported.
    Consumed,
    /// The return is autoreleased; unsupported.
    ReturnsAutoreleased,
    /// The caller receives a +1 retained reference.
    ReturnsRetained,
    /// The return is explicitly not retained; unsupported.
    ReturnsNotRetained,
    /// The returned pointer is valid only while the parent object lives.
    ReturnsInnerPointer,
    /// An interface-builder action marker; accepted and discarded.
    IbAction,
    /// An interface-builder outlet marker; accepted and discarded.
    IbOutlet,
    /// The override must call through to the superclass; accepted and
    /// discarded.
    RequiresSuper,
    /// The result should not be ignored; accepted and discarded.
    WarnUnusedResult,
    /// A nested method declaration inside the node.
    NestedMethod,
    /// An unrecognized vendor attribute macro; survivable.
    UnknownMacro,
    /// A marker this crate does not recognize at all; survivable.
    Unknown,
}

/// The accumulator of the attribute fold over a method declaration.
#[derive(Debug, Clone, Copy, PartialEq, Eq, Structural)]
pub struct FoldState {
    pub state: MemoryManagement,
    pub designated_initializer: bool,
    pub consumes_self: bool,
}

/// The accumulator every fold starts from: `Normal` state, no markers.
pub open spec fn initial_fold_state() -> FoldState {
    FoldState {
        state: MemoryManagement::Normal,
        designated_initializer: false,
        consumes_self: false,
    }
}

/// One transition of the method-attribute fold.
pub open spec fn method_attr_step(st: FoldState, attr: DeclAttr) -> Result<FoldState, Fault> {
    match attr {
        DeclAttr::DesignatedInitializer => if st.designated_initializer {
            Err(Fault::RepeatedDesignatedInitializer)
        } else {
            Ok(FoldState { designated_initializer: true, ..st })
        },
        DeclAttr::ConsumesSelf => Ok(FoldState { consumes_self: true, ..st }),
        DeclAttr::ReturnsAutoreleased => Err(Fault::UnsupportedReturnsAutoreleased),
        DeclAttr::ReturnsRetained => if st.state != MemoryManagement::Normal {
            Err(Fault::AttributeConflict)
        } else {
            Ok(FoldState { state: MemoryManagement::ReturnsRetained, ..st })
        },
        DeclAttr::ReturnsNotRetained => Err(Fault::UnsupportedReturnsNotRetained),
        DeclAttr::ReturnsInnerPointer => if st.state != MemoryManagement::Normal {
            Err(Fault::AttributeConflict)
        } else {
            Ok(FoldState { state: MemoryManagement::ReturnsInnerPointer, ..st })
        },
        _ => Ok(st),
    }
}

/// The warning, if any, that one attribute contributes in method position.
pub open spec fn method_attr_warning(attr: DeclAttr) -> Seq<Warning> {
    match attr {
        DeclAttr::UnknownMacro => seq![Warning::UnknownMacro],
        DeclAttr::Unknown => seq![Warning::UnknownAttribute],
        DeclAttr::NestedMethod => seq![Warning::UnknownAttribute],
        DeclAttr::Consumed => seq![Warning::UnknownAttribute],
        DeclAttr::IntegerLiteral => seq![Warning::UnknownAttribute],
        _ => Seq::<Warning>::empty(),
    }
}

/// The method-attribute fold over a whole attribute list, starting from
/// `st`: the first faulting transition aborts the fold.
pub open spec fn fold_method_attrs(st: FoldState, attrs: Seq<DeclAttr>) -> Result<
    FoldState,
    Fault,
>
    decreases attrs.len(),
{
    if attrs.len() == 0 {
        Ok(st)
    } else {
        match method_attr_step(st, attrs[0]) {
            Ok(st2) => fold_method_attrs(st2, attrs.skip(1)),
            Err(f) => Err(f),
        }
    }
}

/// The warnings the method-attribute fold emits, up to its first fault.
pub open spec fn method_attrs_warnings(st: FoldState, attrs: Seq<DeclAttr>) -> Seq<Warning>
    decreases attrs.len(),
{
    if attrs.len() == 0 {
        Seq::<Warning>::empty()
    } else {
        match method_attr_step(st, attrs[0]) {
            Ok(st2) => method_attr_warning(attrs[0]) + method_attrs_warnings(st2, attrs.skip(1)),
            Err(_) => method_attr_warning(attrs[0]),
        }
    }
}

/// The final state of the fold: a consumes-self attribute requires the
/// state to already be `ReturnsRetained` and promotes it to `Init`.
pub open spec fn finish_fold(st: FoldState) -> Result<(MemoryManagement, bool), Fault> {
    if st.consumes_self {
        if st.state != MemoryManagement::ReturnsRetained {
            Err(Fault::ConsumesSelfWithoutRetained)
        } else {
            Ok((MemoryManagement::Init, st.designated_initializer))
        }
    } else {
        Ok((st.state, st.designated_initializer))
    }
}

impl FoldState {
    /// The starting accumulator.
    pub fn new() -> (r: FoldState)
        ensures
            r == initial_fold_state(),
    {
        FoldState {
            state: MemoryManagement::Normal,
            designated_initializer: false,
            consumes_self: false,
        }
    }

    /// Applies one attribute to the accumulator, appending any warning the
    /// attribute carries. A faulting transition leaves the accumulator
    /// unchanged.
    pub fn apply(&mut self, attr: DeclAttr, warnings: &mut Vec<Warning>) -> (r: Result<(), Fault>)
        ensures
            match method_attr_step(*old(self), attr) {
                Ok(st) => r is Ok && *final(self) == st,
                Err(f) => r == Err::<(), Fault>(f) && *final(self) == *old(self),
            },
            final(warnings)@ =~= old(warnings)@ + method_attr_warning(attr),
    {
        match attr {
            DeclAttr::DesignatedInitializer => {
                if self.designated_initializer {
                    return Err(Fault::RepeatedDesignatedInitializer);
                }
                self.designated_initializer = true;
                Ok(())
            },
            DeclAttr::ConsumesSelf => {
                self.consumes_self = true;
                Ok(())
            },
            DeclAttr::ReturnsAutoreleased => Err(Fault::UnsupportedReturnsAutoreleased),
            DeclAttr::ReturnsRetained => {
                if self.state != MemoryManagement::Normal {
                    return Err(Fault::AttributeConflict);
                }
                self.state = MemoryManagement::ReturnsRetained;
                Ok(())
            },
            DeclAttr::ReturnsNotRetained => Err(Fault::UnsupportedReturnsNotRetained),
            DeclAttr::ReturnsInnerPointer => {
                if self.state != MemoryManagement::Normal {
                    return Err(Fault::AttributeConflict);
                }
                self.state = MemoryManagement::ReturnsInnerPointer;
                Ok(())
            },
            DeclAttr::UnknownMacro => {
                warnings.push(Warning::UnknownMacro);
                Ok(())
            },
            DeclAttr::Unknown | DeclAttr::NestedMethod | DeclAttr::Consumed
                | DeclAttr::IntegerLiteral => {
                warnings.push(Warning::UnknownAttribute);
                Ok(())
            },
            _ => Ok(()),
        }
    }

    /// Completes the fold, promoting the state to `Init` when the
    /// declaration consumes its receiver; consumes-self without
    /// returns-retained is contradictory and a fatal fault.
    pub fn finish(self) -> (r: Result<(MemoryManagement, bool), Fault>)
        ensures
            r == finish_fold(self),
    {
        if self.consumes_self {
            if self.state != MemoryManagement::ReturnsRetained {
                return Err(Fault::ConsumesSelfWithoutRetained);
            }
            Ok((MemoryManagement::Init, self.designated_initializer))
        } else {
            Ok((self.state, self.designated_initializer))
        }
    }
}

/// Runs the whole method-attribute fold from the starting accumulator,
/// appending the fold's warnings. On a fault the warnings list is left in
/// an intermediate state; the caller discards it.
pub fn run_method_fold(attrs: &Vec<DeclAttr>, warnings: &mut Vec<Warning>) -> (r: Result<
    FoldState,
    Fault,
>)
    ensures
        match fold_method_attrs(initial_fold_state(), attrs@) {
            Ok(st) => r == Ok::<FoldState, Fault>(st) && final(warnings)@ =~= old(warnings)@
                + method_attrs_warnings(initial_fold_state(), attrs@),
            Err(f) => r == Err::<FoldState, Fault>(f),
        },
{
    let ghost w0 = warnings@;
    let mut st = FoldState::new();
    let mut i: usize = 0;
    proof {
        assert(attrs@.skip(0) =~= attrs@);
        assert(warnings@.skip(w0.len() as int) =~= Seq::<Warning>::empty());
        assert(warnings@.take(w0.len() as int) =~= w0);
    }
    while i < attrs.len()
        invariant
            i <= attrs@.len(),
            w0.len() <= warnings@.len(),
            warnings@.take(w0.len() as int) =~= w0,
            fold_method_attrs(initial_fold_state(), attrs@) == fold_method_attrs(
                st,
                attrs@.skip(i as int),
            ),
            method_attrs_warnings(initial_fold_state(), attrs@) =~= warnings@.skip(
                w0.len() as int,
            ) + method_attrs_warnings(st, attrs@.skip(i as int)),
        decreases attrs@.len() - i,
    {
        proof {
            assert(attrs@.skip(i as int)[0] == attrs@[i as int]);
            assert(attrs@.skip(i as int).skip(1) =~= attrs@.skip(i as int + 1));
        }
        let ghost wb = warnings@;
        match st.apply(attrs[i], warnings) {
            Ok(()) => {},
            Err(f) => {
                return Err(f);
            },
        }
        proof {
            assert(warnings@.take(w0.len() as int) =~= wb.take(w0.len() as int));
            assert(warnings@.skip(w0.len() as int) =~= wb.skip(w0.len() as int)
                + method_attr_warning(attrs@[i as int]));
            assert(method_attrs_warnings(initial_fold_state(), attrs@) =~= warnings@.skip(
                w0.len() as int,
            ) + method_attrs_warnings(st, attrs@.skip(i as int + 1)));
        }
        i += 1;
    }
    proof {
        assert(attrs@.skip(attrs@.len() as int) =~= Seq::<DeclAttr>::empty());
        assert(warnings@ =~= w0 + warnings@.skip(w0.len() as int));
    }
    Ok(st)
}

/// One transition of the property-attribute fold: only an inner-pointer
/// marker changes the state, under the same one-shot rule.
pub open spec fn property_attr_step(state: MemoryManagement, attr: DeclAttr) -> Result<
    MemoryManagement,
    Fault,
> {
    match attr {
        DeclAttr::ReturnsInnerPointer => if state != MemoryManagement::Normal {
            Err(Fault::AttributeConflict)
        } else {
            Ok(MemoryManagement::ReturnsInnerPointer)
        },
        _ => Ok(state),
    }
}

/// The warning, if any, that one attribute contributes in property
/// position: a nested method declaration and unrecognized markers are
/// survivable warnings.
pub open spec fn property_attr_warning(attr: DeclAttr) -> Seq<Warning> {
    match attr {
        DeclAttr::NestedMethod => seq![Warning::MethodInProperty],
        DeclAttr::UnknownMacro => seq![Warning::UnknownMacro],
        DeclAttr::IgnoredRef | DeclAttr::ReturnsInnerPointer | DeclAttr::IbOutlet => Seq::<
            Warning,
        >::empty(),
        _ => seq![Warning::UnknownAttribute],
    }
}

/// The property-attribute fold over a whole attribute list.
pub open spec fn fold_property_attrs(state: MemoryManagement, attrs: Seq<DeclAttr>) -> Result<
    MemoryManagement,
    Fault,
>
    decreases attrs.len(),
{
    if attrs.len() == 0 {
        Ok(state)
    } else {
        match property_attr_step(state, attrs[0]) {
            Ok(s2) => fold_property_attrs(s2, attrs.skip(1)),
            Err(f) => Err(f),
        }
    }
}

/// The warnings the property-attribute fold emits, up to its first fault.
pub open spec fn property_attrs_warnings(state: MemoryManagement, attrs: Seq<DeclAttr>) -> Seq<
    Warning,
>
    decreases attrs.len(),
{
    if attrs.len() == 0 {
        Seq::<Warning>::empty()
    } else {
        match property_attr_step(state, attrs[0]) {
            Ok(s2) => property_attr_warning(attrs[0]) + property_attrs_warnings(s2, attrs.skip(1)),
            Err(_) => property_attr_warning(attrs[0]),
        }
    }
}

/// Runs the whole property-attribute fold from the `Normal` state,
/// appending the fold's warnings. On a fault the warnings list is left in
/// an intermediate state; the caller discards it.
pub fn run_property_fold(attrs: &Vec<DeclAttr>, warnings: &mut Vec<Warning>) -> (r: Result<
    MemoryManagement,
    Fault,
>)
    ensures
        match fold_property_attrs(MemoryManagement::Normal, attrs@) {
            Ok(mm) => r == Ok::<MemoryManagement, Fault>(mm) && final(warnings)@ =~= old(warnings)@
                + property_attrs_warnings(MemoryManagement::Normal, attrs@),
            Err(f) => r == Err::<MemoryManagement, Fault>(f),
        },
{
    let ghost w0 = warnings@;
    let mut state = MemoryManagement::Normal;
    let mut i: usize = 0;
    proof {
        assert(attrs@.skip(0) =~= attrs@);
        assert(warnings@.skip(w0.len() as int) =~= Seq::<Warning>::empty());
        assert(warnings@.take(w0.len() as int) =~= w0);
    }
    while i < attrs.len()
        invariant
            i <= attrs@.len(),
            w0.len() <= warnings@.len(),
            warnings@.take(w0.len() as int) =~= w0,
            fold_property_attrs(MemoryManagement::Normal, attrs@) == fold_property_attrs(
                state,
                attrs@.skip(i as int),
            ),
            property_attrs_warnings(MemoryManagement::Normal, attrs@) =~= warnings@.skip(
                w0.len() as int,
            ) + property_attrs_warnings(state, attrs@.skip(i as int)),
        decreases attrs@.len() - i,
    {
        proof {
            assert(attrs@.skip(i as int)[0] == attrs@[i as int]);
            assert(attrs@.skip(i as int).skip(1) =~= attrs@.skip(i as int + 1));
        }
        let ghost wb = warnings@;
        let attr = attrs[i];
        match attr {
            DeclAttr::ReturnsInnerPointer => {
                if state != MemoryManagement::Normal {
                    return Err(Fault::AttributeConflict);
                }
                state = MemoryManagement::ReturnsInnerPointer;
            },
            DeclAttr::NestedMethod => {
                warnings.push(Warning::MethodInProperty);
            },
            DeclAttr::UnknownMacro => {
                warnings.push(Warning::UnknownMacro);
            },
            DeclAttr::IgnoredRef | DeclAttr::IbOutlet => {},
            _ => {
                warnings.push(Warning::UnknownAttribute);
            },
        }
        proof {
            assert(warnings@.take(w0.len() as int) =~= wb.take(w0.len() as int));
            assert(warnings@.skip(w0.len() as int) =~= wb.skip(w0.len() as int)
                + property_attr_warning(attrs@[i as int]));
            assert(property_attrs_warnings(MemoryManagement::Normal, attrs@) =~= warnings@.skip(
                w0.len() as int,
            ) + property_attrs_warnings(state, attrs@.skip(i as int + 1)));
        }
        i += 1;
    }
    proof {
        assert(attrs@.skip(attrs@.len() as int) =~= Seq::<DeclAttr>::empty());
        assert(warnings@ =~= w0 + warnings@.skip(w0.len() as int));
    }
    Ok(state)
}

} // verus!
