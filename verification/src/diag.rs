//! Diagnostics produced while building descriptors.
//!
//! Builders return either a descriptor together with a list of warnings, or
//! a fatal consistency fault. A fault means the declaration cannot be
//! trusted to produce a memory-safe binding and the run must stop rather
//! than emit a plausibly-wrong descriptor; a warning is survivable and the
//! run continues.

use vstd::prelude::*;

verus! {

/// A fatal consistency fault: the declaration's attributes or naming
/// contradict each other, so no trustworthy ownership contract exists.
#[derive(Debug, Clone, Copy, PartialEq, Eq, Structural)]
pub enum Fault {
    /// An argument carried a qualifier combination outside the supported
    /// `in`/`inout`/`out` shapes.
    UnsupportedQualifiers,
    /// An argument carried a consumed-argument marker, which requires
    /// manual handling.
    ConsumedArgument,
    /// The designated-initializer marker appeared twice on one declaration.
    RepeatedDesignatedInitializer,
    /// An auto-released-return attribute is unsupported and requires manual
    /// handling.
    UnsupportedReturnsAutoreleased,
    /// A returns-not-retained attribute is unsupported and requires manual
    /// handling.
    UnsupportedReturnsNotRetained,
    /// Two ownership attributes tried to move the state away from `Normal`.
    AttributeConflict,
    /// A consumes-self attribute appeared without returns-retained.
    ConsumesSelfWithoutRetained,
    /// The selector's family and the inferred memory-management state
    /// disagree.
    SelectorFamilyMismatch,
    /// A forced mutating flag on a class-scoped declaration or an
    /// `init`-family selector, which have no receiver to mutate.
    InvalidMutating,
}

/// A recoverable warning: logged and survived, the run continues.
#[derive(Debug, Clone, Copy, PartialEq, Eq, Structural)]
pub enum Warning {
    /// A variadic declaration was dropped: variadic foreign calls cannot be
    /// given a uniform safe binding shape.
    VariadicMethod,
    /// An unrecognized vendor attribute macro was ignored.
    UnknownMacro,
    /// An attribute marker that has no meaning in its position was ignored.
    UnknownAttribute,
    /// Qualifiers on a method return type are unsupported and were ignored.
    ReturnTypeQualifiers,
    /// Qualifiers on a property are unsupported and were ignored.
    PropertyQualifiers,
    /// A property node unexpectedly contained a nested method declaration.
    MethodInProperty,
}

} // verus!
