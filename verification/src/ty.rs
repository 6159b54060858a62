//! The facts this crate reads of an already-resolved target type, plus the
//! small input records that accompany a declaration.
//!
//! Type resolution itself (translating C/Objective-C type syntax) is an
//! external collaborator: a [`Ty`] arrives with its predicates already
//! answered, and this crate only layers ownership and calling-convention
//! decisions on top.

use vstd::prelude::*;

use crate::diag::Fault;

verus! {

/// A named type that a resolved type transitively requires, tracked so the
/// emitter can compute dependencies.
#[derive(Debug, Clone, PartialEq, Eq)]
pub struct ItemIdentifier {
    pub name: String,
}

impl View for ItemIdentifier {
    type V = Seq<char>;

    open spec fn view(&self) -> Seq<char> {
        self.name@
    }
}

/// A platform-availability window, parsed by an external collaborator and
/// carried through unread.
#[derive(Debug, Clone, PartialEq, Eq)]
pub struct Availability {
    pub note: String,
}

impl View for Availability {
    type V = Seq<char>;

    open spec fn view(&self) -> Seq<char> {
        self.note@
    }
}

/// The queryable facts of a resolved target type that the semantic
/// analysis reads, and the marks it applies.
#[derive(Debug, Clone, PartialEq, Eq)]
pub struct Ty {
    /// The type is an object-identity type: a pointer to an Objective-C
    /// object, subject to the retain/release protocol.
    pub object_identity: bool,
    /// The type denotes the receiver's own concrete type (covariant
    /// self-return).
    pub covariant_self: bool,
    /// As an argument type, the type matches the error-out pattern: a
    /// pointer-to-error-object output parameter.
    pub error_out: bool,
    /// The type carries copy semantics (property returns only).
    pub copy_qualified: bool,
    /// The type was marked as an allocator return.
    pub alloc_marked: bool,
    /// The result was marked fallible: the binding's result becomes a
    /// success-value/error contract instead of a bare value.
    pub fallible: bool,
    /// The type is the void result.
    pub void: bool,
    /// The emitted binding must be generic over the concrete subclass
    /// rather than the declaring class (set by the related-result-type
    /// fix-up).
    pub subclass_generic: bool,
    /// Every named type this type transitively requires.
    pub required_types: Vec<ItemIdentifier>,
}

/// The mathematical value of a [`Ty`].
#[verifier::ext_equal]
pub ghost struct TyV {
    pub object_identity: bool,
    pub covariant_self: bool,
    pub error_out: bool,
    pub copy_qualified: bool,
    pub alloc_marked: bool,
    pub fallible: bool,
    pub void: bool,
    pub subclass_generic: bool,
    pub required_types: Seq<Seq<char>>,
}

impl View for Ty {
    type V = TyV;

    open spec fn view(&self) -> TyV {
        TyV {
            object_identity: self.object_identity,
            covariant_self: self.covariant_self,
            error_out: self.error_out,
            copy_qualified: self.copy_qualified,
            alloc_marked: self.alloc_marked,
            fallible: self.fallible,
            void: self.void,
            subclass_generic: self.subclass_generic,
            required_types: self.required_types@.map_values(|t: ItemIdentifier| t@),
        }
    }
}

impl Ty {
    /// The void result type.
    pub fn void_result() -> (r: Ty)
        ensures
            r@ == (TyV {
                object_identity: false,
                covariant_self: false,
                error_out: false,
                copy_qualified: false,
                alloc_marked: false,
                fallible: false,
                void: true,
                subclass_generic: false,
                required_types: Seq::<Seq<char>>::empty(),
            }),
    {
        let r = Ty {
            object_identity: false,
            covariant_self: false,
            error_out: false,
            copy_qualified: false,
            alloc_marked: false,
            fallible: false,
            void: true,
            subclass_generic: false,
            required_types: Vec::new(),
        };
        proof {
            assert(r@.required_types =~= Seq::<Seq<char>>::empty());
        }
        r
    }

    /// Whether the type is an object-identity type.
    pub fn is_id(&self) -> (r: bool)
        ensures
            r == self@.object_identity,
    {
        self.object_identity
    }

    /// Whether the type denotes covariant self-return.
    pub fn is_instancetype(&self) -> (r: bool)
        ensures
            r == self@.covariant_self,
    {
        self.covariant_self
    }

    /// Whether the result was marked fallible.
    pub fn is_error(&self) -> (r: bool)
        ensures
            r == self@.fallible,
    {
        self.fallible
    }

    /// Whether, as the last declared argument, the type matches the
    /// error-out pattern.
    pub fn argument_is_error_out(&self) -> (r: bool)
        ensures
            r == self@.error_out,
    {
        self.error_out
    }

    /// Marks the type as an allocator return.
    pub fn set_is_alloc(&mut self)
        ensures
            final(self)@ == (TyV { alloc_marked: true, ..old(self)@ }),
    {
        self.alloc_marked = true;
    }

    /// Marks the result as fallible.
    pub fn set_is_error(&mut self)
        ensures
            final(self)@ == (TyV { fallible: true, ..old(self)@ }),
    {
        self.fallible = true;
    }
}

/// The Objective-C argument qualifiers attached to a declaration node.
#[derive(Debug, Clone, Copy, PartialEq, Eq, Structural)]
pub struct ObjCQualifiers {
    pub in_: bool,
    pub inout: bool,
    pub out: bool,
    pub bycopy: bool,
    pub byref: bool,
    pub oneway: bool,
}

/// The supported argument-qualifier shapes.
#[derive(Debug, Clone, Copy, PartialEq, Eq, Structural)]
pub enum MethodArgumentQualifier {
    In,
    Inout,
    Out,
}

/// The qualifier shape a set of qualifiers denotes, when it is one of the
/// supported ones.
pub open spec fn qualifier_shape(q: ObjCQualifiers) -> Option<MethodArgumentQualifier> {
    if q == (ObjCQualifiers {
        in_: true,
        inout: false,
        out: false,
        bycopy: false,
        byref: false,
        oneway: false,
    }) {
        Some(MethodArgumentQualifier::In)
    } else if q == (ObjCQualifiers {
        in_: false,
        inout: true,
        out: false,
        bycopy: false,
        byref: false,
        oneway: false,
    }) {
        Some(MethodArgumentQualifier::Inout)
    } else if q == (ObjCQualifiers {
        in_: false,
        inout: false,
        out: true,
        bycopy: false,
        byref: false,
        oneway: false,
    }) {
        Some(MethodArgumentQualifier::Out)
    } else {
        None
    }
}

impl MethodArgumentQualifier {
    /// Classifies a set of qualifiers into one of the supported shapes;
    /// any other combination is a fatal fault.
    pub fn parse(qualifiers: ObjCQualifiers) -> (r: Result<Self, Fault>)
        ensures
            match qualifier_shape(qualifiers) {
                Some(q) => r == Ok::<Self, Fault>(q),
                None => r == Err::<Self, Fault>(Fault::UnsupportedQualifiers),
            },
    {
        match qualifiers {
            ObjCQualifiers {
                in_: true,
                inout: false,
                out: false,
                bycopy: false,
                byref: false,
                oneway: false,
            } => Ok(Self::In),
            ObjCQualifiers {
                in_: false,
                inout: true,
                out: false,
                bycopy: false,
                byref: false,
                oneway: false,
            } => Ok(Self::Inout),
            ObjCQualifiers {
                in_: false,
                inout: false,
                out: true,
                bycopy: false,
                byref: false,
                oneway: false,
            } => Ok(Self::Out),
            _ => Err(Fault::UnsupportedQualifiers),
        }
    }
}

/// The Objective-C property attributes read from a property declaration.
#[derive(Debug, Clone, Copy, PartialEq, Eq, Structural)]
pub struct ObjCAttributes {
    pub readonly: bool,
    pub class: bool,
    pub copy: bool,
}

/// The per-declaration configuration override record.
#[derive(Debug, Clone, Copy, PartialEq, Eq, Structural)]
pub struct MethodData {
    pub skipped: bool,
    pub unsafe_: bool,
    pub mutating: bool,
}

} // verus!
