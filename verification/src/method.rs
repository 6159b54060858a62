//! Method descriptors: one callable declaration, built from a raw method
//! declaration plus configuration overrides, validated during construction
//! and immutable afterwards except for the late related-result-type fix-up
//! applied uniformly to all descriptors of a class hierarchy.

use vstd::prelude::*;

use crate::attrs::{
    fold_method_attrs, finish_fold, initial_fold_state, method_attrs_warnings, run_method_fold,
    DeclAttr,
};
use crate::diag::{Fault, Warning};
use crate::memory::{sel_state_ok, MemoryManagement};
use crate::selector::{in_family, str_eq};
use crate::strutil::push_char;
use crate::ty::{qualifier_shape, Availability, ItemIdentifier, ObjCQualifiers, Ty, TyV};
use crate::ty::{MethodArgumentQualifier, MethodData};

verus! {

/// One argument of a raw method declaration: its display name, its
/// qualifiers, the attribute markers attached to it, and its resolved
/// type.
#[derive(Debug, Clone, PartialEq, Eq)]
pub struct ArgumentDecl {
    pub name: String,
    pub qualifiers: Option<ObjCQualifiers>,
    pub attrs: Vec<DeclAttr>,
    pub ty: Ty,
}

/// The mathematical value of an [`ArgumentDecl`].
#[verifier::ext_equal]
pub ghost struct ArgDeclV {
    pub name: Seq<char>,
    pub qualifiers: Option<ObjCQualifiers>,
    pub attrs: Seq<DeclAttr>,
    pub ty: TyV,
}

impl View for ArgumentDecl {
    type V = ArgDeclV;

    open spec fn view(&self) -> ArgDeclV {
        ArgDeclV {
            name: self.name@,
            qualifiers: self.qualifiers,
            attrs: self.attrs@,
            ty: self.ty@,
        }
    }
}

/// A raw method declaration, as materialized by the external AST
/// extraction: selector, scope, flags, arguments, resolved result type and
/// attached attribute markers.
#[derive(Debug, Clone, PartialEq, Eq)]
pub struct MethodDecl {
    pub selector: String,
    pub is_class: bool,
    pub is_variadic: bool,
    pub is_optional_protocol: bool,
    pub availability: Availability,
    pub arguments: Vec<ArgumentDecl>,
    pub result_type: Ty,
    pub return_qualifiers: Option<ObjCQualifiers>,
    pub attrs: Vec<DeclAttr>,
}

/// The mathematical value of a [`MethodDecl`].
#[verifier::ext_equal]
pub ghost struct MethodDeclV {
    pub selector: Seq<char>,
    pub is_class: bool,
    pub is_variadic: bool,
    pub is_optional_protocol: bool,
    pub availability: Seq<char>,
    pub arguments: Seq<ArgDeclV>,
    pub result_type: TyV,
    pub return_qualifiers: Option<ObjCQualifiers>,
    pub attrs: Seq<DeclAttr>,
}

impl View for MethodDecl {
    type V = MethodDeclV;

    open spec fn view(&self) -> MethodDeclV {
        MethodDeclV {
            selector: self.selector@,
            is_class: self.is_class,
            is_variadic: self.is_variadic,
            is_optional_protocol: self.is_optional_protocol,
            availability: self.availability@,
            arguments: self.arguments@.map_values(|a: ArgumentDecl| a@),
            result_type: self.result_type@,
            return_qualifiers: self.return_qualifiers,
            attrs: self.attrs@,
        }
    }
}

/// A completed, validated method descriptor.
#[derive(Debug, Clone, PartialEq, Eq)]
pub struct Method {
    pub selector: String,
    pub fn_name: String,
    pub availability: Availability,
    pub is_class: bool,
    pub is_optional_protocol: bool,
    pub memory_management: MemoryManagement,
    pub arguments: Vec<(String, Ty)>,
    pub result_type: Ty,
    pub safe: bool,
    pub mutating: bool,
}

/// The mathematical value of a [`Method`].
#[verifier::ext_equal]
pub ghost struct MethodV {
    pub selector: Seq<char>,
    pub fn_name: Seq<char>,
    pub availability: Seq<char>,
    pub is_class: bool,
    pub is_optional_protocol: bool,
    pub memory_management: MemoryManagement,
    pub arguments: Seq<(Seq<char>, TyV)>,
    pub result_type: TyV,
    pub safe: bool,
    pub mutating: bool,
}

impl View for Method {
    type V = MethodV;

    open spec fn view(&self) -> MethodV {
        MethodV {
            selector: self.selector@,
            fn_name: self.fn_name@,
            availability: self.availability@,
            is_class: self.is_class,
            is_optional_protocol: self.is_optional_protocol,
            memory_management: self.memory_management,
            arguments: self.arguments@.map_values(|p: (String, Ty)| (p.0@, p.1@)),
            result_type: self.result_type@,
            safe: self.safe,
            mutating: self.mutating,
        }
    }
}

/// The selector with its trailing argument-label colons removed.
pub open spec fn strip_trailing_colons(s: Seq<char>) -> Seq<char>
    decreases s.len(),
{
    if s.len() > 0 && s.last() == ':' {
        strip_trailing_colons(s.drop_last())
    } else {
        s
    }
}

/// The generated binding name of a selector: trailing colons removed,
/// interior colons replaced by underscores.
pub open spec fn fn_name_spec(sel: Seq<char>) -> Seq<char> {
    strip_trailing_colons(sel).map_values(|c: char| if c == ':' {
        '_'
    } else {
        c
    })
}

/// Derives the generated binding name from a selector.
pub fn fn_name_from_selector(sel: &str) -> (r: String)
    ensures
        r@ == fn_name_spec(sel@),
{
    let n = sel.unicode_len();
    proof {
        assert(sel@.take(n as int) =~= sel@);
    }
    let mut end = n;
    while end > 0 && sel.get_char(end - 1) == ':'
        invariant
            end <= n,
            n == sel@.len(),
            strip_trailing_colons(sel@) == strip_trailing_colons(sel@.take(end as int)),
        decreases end,
    {
        proof {
            assert(sel@.take(end as int).last() == ':');
            assert(sel@.take(end as int).drop_last() =~= sel@.take(end as int - 1));
        }
        end -= 1;
    }
    proof {
        if end > 0 {
            assert(sel@.take(end as int).last() == sel@[end as int - 1]);
        }
        assert(strip_trailing_colons(sel@) == sel@.take(end as int));
    }
    let mut r = String::new();
    let mut i: usize = 0;
    while i < end
        invariant
            i <= end,
            end <= n,
            n == sel@.len(),
            r@ =~= sel@.take(i as int).map_values(
                |c: char|
                    if c == ':' {
                        '_'
                    } else {
                        c
                    },
            ),
        decreases end - i,
    {
        let c = sel.get_char(i);
        let c2 = if c == ':' {
            '_'
        } else {
            c
        };
        push_char(&mut r, c2);
        proof {
            assert(sel@.take(i as int + 1).drop_last() =~= sel@.take(i as int));
            assert(sel@.take(i as int + 1).map_values(
                |c: char|
                    if c == ':' {
                        '_'
                    } else {
                        c
                    },
            ) =~= sel@.take(i as int).map_values(
                |c: char|
                    if c == ':' {
                        '_'
                    } else {
                        c
                    },
            ) + seq![c2]);
        }
        i += 1;
    }
    proof {
        assert(r@ =~= fn_name_spec(sel@));
    }
    r
}

/// A generated name that collides with a reserved word of the target
/// surface syntax gets a trailing underscore.
pub open spec fn reserved_name(s: Seq<char>) -> Seq<char> {
    if s == "type"@ {
        "type_"@
    } else if s == "trait"@ {
        "trait_"@
    } else if s == "abstract"@ {
        "abstract_"@
    } else {
        s
    }
}

/// Escapes a generated name that collides with a reserved word.
pub fn handle_reserved<'a>(s: &'a str) -> (r: &'a str)
    ensures
        r@ == reserved_name(s@),
{
    if str_eq(s, "type") {
        "type_"
    } else if str_eq(s, "trait") {
        "trait_"
    } else if str_eq(s, "abstract") {
        "abstract_"
    } else {
        s
    }
}

impl ItemIdentifier {
    /// A copy of this identifier with the same name.
    pub fn duplicate(&self) -> (r: ItemIdentifier)
        ensures
            r@ == self@,
    {
        ItemIdentifier { name: self.name.clone() }
    }
}

impl Availability {
    /// A copy of this availability window.
    pub fn duplicate(&self) -> (r: Availability)
        ensures
            r@ == self@,
    {
        Availability { note: self.note.clone() }
    }
}

impl Ty {
    /// A copy of this type with the same facts.
    pub fn duplicate(&self) -> (r: Ty)
        ensures
            r@ == self@,
    {
        let mut required_types: Vec<ItemIdentifier> = Vec::new();
        let mut i: usize = 0;
        while i < self.required_types.len()
            invariant
                i <= self.required_types@.len(),
                required_types@.len() == i,
                forall|j: int|
                    0 <= j < i ==> required_types@[j]@ == self.required_types@[j]@,
            decreases self.required_types@.len() - i,
        {
            required_types.push(self.required_types[i].duplicate());
            i += 1;
        }
        let r = Ty {
            object_identity: self.object_identity,
            covariant_self: self.covariant_self,
            error_out: self.error_out,
            copy_qualified: self.copy_qualified,
            alloc_marked: self.alloc_marked,
            fallible: self.fallible,
            void: self.void,
            subclass_generic: self.subclass_generic,
            required_types,
        };
        proof {
            assert(r@.required_types =~= self@.required_types);
            assert(r@ =~= self@);
        }
        r
    }
}

/// The named types that a descriptor's argument list transitively
/// requires, in argument order.
pub open spec fn args_required(args: Seq<(Seq<char>, TyV)>) -> Seq<Seq<char>>
    decreases args.len(),
{
    if args.len() == 0 {
        Seq::<Seq<char>>::empty()
    } else {
        args[0].1.required_types + args_required(args.skip(1))
    }
}

/// Every named type a descriptor transitively requires: those of its
/// arguments in order, then those of its result.
pub open spec fn required_types_of(m: MethodV) -> Seq<Seq<char>> {
    args_required(m.arguments) + m.result_type.required_types
}

/// Whether the selector is a class-scoped allocator selector.
pub open spec fn allocator_selector(sel: Seq<char>) -> bool {
    in_family(sel, "alloc"@) || in_family(sel, "new"@)
}

/// The related-result-type patch on one descriptor: a covariant
/// self-return on a class-scoped allocator selector or an `Init`-state
/// instance method is tagged so the emitted binding is generic over the
/// concrete subclass.
pub open spec fn related_result_patch(m: MethodV) -> MethodV {
    if m.result_type.covariant_self && ((m.is_class && allocator_selector(m.selector)) || (
    !m.is_class && m.memory_management == MemoryManagement::Init)) {
        MethodV { result_type: TyV { subclass_generic: true, ..m.result_type }, ..m }
    } else {
        m
    }
}

/// The related-result-type patch changes nothing it reads, so applying it
/// twice to one descriptor is the same as applying it once.
pub proof fn lemma_related_result_patch_idempotent(m: MethodV)
    ensures
        related_result_patch(related_result_patch(m)) == related_result_patch(m),
{
    assert(related_result_patch(related_result_patch(m)) =~= related_result_patch(m));
}

/// Applying the related-result-type fix-up twice to the same descriptor
/// set yields the same result as applying it once.
pub proof fn lemma_fixup_idempotent(ms: Seq<MethodV>)
    ensures
        ms.map_values(|m: MethodV| related_result_patch(m)).map_values(
            |m: MethodV| related_result_patch(m),
        ) == ms.map_values(|m: MethodV| related_result_patch(m)),
{
    let once = ms.map_values(|m: MethodV| related_result_patch(m));
    let twice = once.map_values(|m: MethodV| related_result_patch(m));
    assert forall|i: int| 0 <= i < ms.len() implies twice[i] == once[i] by {
        lemma_related_result_patch_idempotent(ms[i]);
    }
    assert(twice =~= once);
}

impl Method {
    /// Value that uniquely identifies the method within its owning class:
    /// no two descriptors of one owner may share it.
    pub fn id(&self) -> (r: (bool, &str))
        ensures
            r.0 == self@.is_class,
            r.1@ == self@.selector,
    {
        (self.is_class, self.selector.as_str())
    }

    /// Applies a configuration override record: a skipped declaration is
    /// dropped, and the safety and mutability flags are forced.
    pub fn update(self, data: MethodData) -> (r: Option<Method>)
        ensures
            data.skipped ==> r is None,
            !data.skipped ==> (r matches Some(m) && m@ == (MethodV {
                safe: !data.unsafe_,
                mutating: data.mutating,
                ..self@
            })),
    {
        if data.skipped {
            return None;
        }
        let mut m = self;
        m.mutating = data.mutating;
        m.safe = !data.unsafe_;
        Some(m)
    }

    /// Every named type this descriptor transitively requires, for
    /// dependency tracking by the emitter: the arguments' types in order,
    /// then the result's.
    pub fn visit_required_types(&self) -> (r: Vec<ItemIdentifier>)
        ensures
            r@.map_values(|t: ItemIdentifier| t@) == required_types_of(self@),
    {
        let ghost argsv = self@.arguments;
        let mut r: Vec<ItemIdentifier> = Vec::new();
        let mut i: usize = 0;
        proof {
            assert(argsv.skip(0) =~= argsv);
            assert(r@.map_values(|t: ItemIdentifier| t@) =~= Seq::<Seq<char>>::empty());
        }
        while i < self.arguments.len()
            invariant
                i <= self.arguments@.len(),
                argsv == self@.arguments,
                argsv.len() == self.arguments@.len(),
                args_required(argsv) =~= r@.map_values(|t: ItemIdentifier| t@) + args_required(
                    argsv.skip(i as int),
                ),
            decreases self.arguments@.len() - i,
        {
            proof {
                assert(argsv.skip(i as int)[0] == argsv[i as int]);
                assert(argsv.skip(i as int).skip(1) =~= argsv.skip(i as int + 1));
            }
            let ghost rb = r@;
            let arg_ty = &self.arguments[i].1;
            let mut j: usize = 0;
            while j < arg_ty.required_types.len()
                invariant
                    j <= arg_ty.required_types@.len(),
                    r@.len() == rb.len() + j,
                    r@.take(rb.len() as int) =~= rb,
                    forall|k: int|
                        0 <= k < j ==> r@[rb.len() + k]@ == arg_ty.required_types@[k]@,
                decreases arg_ty.required_types@.len() - j,
            {
                r.push(arg_ty.required_types[j].duplicate());
                j += 1;
            }
            proof {
                assert(arg_ty@ == argsv[i as int].1);
                assert(r@.map_values(|t: ItemIdentifier| t@) =~= rb.map_values(
                    |t: ItemIdentifier| t@,
                ) + argsv[i as int].1.required_types);
            }
            i += 1;
        }
        proof {
            assert(args_required(argsv.skip(argsv.len() as int)) =~= Seq::<Seq<char>>::empty());
            assert(args_required(argsv) =~= r@.map_values(|t: ItemIdentifier| t@));
        }
        let ghost rb2 = r@;
        let mut j: usize = 0;
        while j < self.result_type.required_types.len()
            invariant
                j <= self.result_type.required_types@.len(),
                r@.len() == rb2.len() + j,
                r@.take(rb2.len() as int) =~= rb2,
                forall|k: int|
                    0 <= k < j ==> r@[rb2.len() + k]@ == self.result_type.required_types@[k]@,
            decreases self.result_type.required_types@.len() - j,
        {
            r.push(self.result_type.required_types[j].duplicate());
            j += 1;
        }
        proof {
            assert(r@.map_values(|t: ItemIdentifier| t@) =~= required_types_of(self@));
        }
        r
    }

    /// Whether this descriptor must be re-emitted, specialized, on every
    /// subclass of its declaring class.
    pub fn emit_on_subclasses(&self) -> (r: bool)
        ensures
            r == emit_on_subclasses_spec(self@),
    {
        if !self.result_type.is_instancetype() {
            return false;
        }
        if self.is_class {
            !(str_eq(self.selector.as_str(), "new") || str_eq(
                self.selector.as_str(),
                "supportsSecureCoding",
            ))
        } else {
            self.memory_management == MemoryManagement::Init && !(str_eq(
                self.selector.as_str(),
                "init",
            ) || str_eq(self.selector.as_str(), "initWithCoder:"))
        }
    }

    /// Applies the related-result-type patch to this descriptor.
    pub fn fix_related_result_type(&mut self)
        ensures
            final(self)@ == related_result_patch(old(self)@),
    {
        if self.result_type.is_instancetype() {
            let tag = if self.is_class {
                MemoryManagement::is_alloc(self.selector.as_str()) || MemoryManagement::is_new(
                    self.selector.as_str(),
                )
            } else {
                self.memory_management == MemoryManagement::Init
            };
            if tag {
                self.result_type.subclass_generic = true;
                proof {
                    assert(self@ =~= related_result_patch(old(self)@));
                }
            }
        }
    }
}

/// Whether a descriptor must be re-emitted on every subclass: its result
/// denotes covariant self-return, and it is class-scoped with a selector
/// other than `new` or `supportsSecureCoding`, or it is an `Init`-state
/// instance method with a selector other than `init` or `initWithCoder:`.
pub open spec fn emit_on_subclasses_spec(m: MethodV) -> bool {
    if !m.result_type.covariant_self {
        false
    } else if m.is_class {
        !(m.selector == "new"@ || m.selector == "supportsSecureCoding"@)
    } else {
        m.memory_management == MemoryManagement::Init && !(m.selector == "init"@ || m.selector
            == "initWithCoder:"@)
    }
}

/// The late fix-up pass: applies the related-result-type patch uniformly
/// to every descriptor of a class hierarchy. The patch is idempotent and
/// per-descriptor, so the order of the descriptors does not matter.
pub fn fix_related_result_types(methods: &mut Vec<Method>)
    ensures
        final(methods)@.len() == old(methods)@.len(),
        forall|i: int|
            0 <= i < old(methods)@.len() ==> final(methods)@[i]@ == related_result_patch(
                old(methods)@[i]@,
            ),
{
    let ghost orig = methods@;
    let mut out: Vec<Method> = Vec::new();
    while methods.len() > 0
        invariant
            out@.len() + methods@.len() == orig.len(),
            forall|j: int| 0 <= j < out@.len() ==> out@[j]@ == related_result_patch(orig[j]@),
            forall|j: int|
                0 <= j < methods@.len() ==> methods@[j] == orig[out@.len() + j],
        decreases methods@.len(),
    {
        let mut m = methods.remove(0);
        m.fix_related_result_type();
        out.push(m);
    }
    *methods = out;
}

} // verus!

verus! {

/// Whether an attribute marker in argument position is a fatal fault: a
/// consumed-argument marker requires manual handling.
pub open spec fn arg_attr_fault(attr: DeclAttr) -> bool {
    attr == DeclAttr::Consumed
}

/// The warning, if any, that one attribute contributes in argument
/// position.
pub open spec fn arg_attr_warning(attr: DeclAttr) -> Seq<Warning> {
    match attr {
        DeclAttr::IgnoredRef | DeclAttr::IntegerLiteral => Seq::<Warning>::empty(),
        DeclAttr::UnknownMacro => seq![Warning::UnknownMacro],
        DeclAttr::Consumed => Seq::<Warning>::empty(),
        _ => seq![Warning::UnknownAttribute],
    }
}

/// The check over one argument's attribute markers: the warnings they
/// contribute, or the first fatal fault.
pub open spec fn arg_attrs_check(attrs: Seq<DeclAttr>) -> Result<Seq<Warning>, Fault>
    decreases attrs.len(),
{
    if attrs.len() == 0 {
        Ok(Seq::<Warning>::empty())
    } else if arg_attr_fault(attrs[0]) {
        Err(Fault::ConsumedArgument)
    } else {
        match arg_attrs_check(attrs.skip(1)) {
            Ok(w) => Ok(arg_attr_warning(attrs[0]) + w),
            Err(f) => Err(f),
        }
    }
}

/// The check over one argument: its qualifiers must have a supported
/// shape, and its attribute markers must carry no fatal fault.
pub open spec fn arg_check(a: ArgDeclV) -> Result<Seq<Warning>, Fault> {
    if a.qualifiers is Some && qualifier_shape(a.qualifiers->0) is None {
        Err(Fault::UnsupportedQualifiers)
    } else {
        arg_attrs_check(a.attrs)
    }
}

/// The check over a whole argument list, in order: the concatenated
/// warnings, or the first fatal fault.
pub open spec fn args_check(args: Seq<ArgDeclV>) -> Result<Seq<Warning>, Fault>
    decreases args.len(),
{
    if args.len() == 0 {
        Ok(Seq::<Warning>::empty())
    } else {
        match arg_check(args[0]) {
            Ok(w0) => match args_check(args.skip(1)) {
                Ok(w) => Ok(w0 + w),
                Err(f) => Err(f),
            },
            Err(f) => Err(f),
        }
    }
}

/// Whether the declaration follows the error-out convention: its last
/// declared argument's type matches the error-out pattern.
pub open spec fn parse_is_error(d: MethodDeclV) -> bool {
    d.arguments.len() > 0 && d.arguments.last().ty.error_out
}

/// The descriptor's result type: the declared one, marked as an allocator
/// return on a class-scoped `alloc`-family selector, and marked fallible
/// under the error-out convention.
pub open spec fn parse_result_type(d: MethodDeclV) -> TyV {
    let rt0 = d.result_type;
    let rt1 = if d.is_class && in_family(d.selector, "alloc"@) {
        TyV { alloc_marked: true, ..rt0 }
    } else {
        rt0
    };
    if parse_is_error(d) {
        TyV { fallible: true, ..rt1 }
    } else {
        rt1
    }
}

/// The descriptor's argument list: the declared (name, type) pairs, with
/// the error-out parameter removed.
pub open spec fn parsed_arguments(d: MethodDeclV) -> Seq<(Seq<char>, TyV)> {
    let all = d.arguments.map_values(|a: ArgDeclV| (a.name, a.ty));
    if parse_is_error(d) {
        all.drop_last()
    } else {
        all
    }
}

/// The completed descriptor a surviving method declaration produces.
pub open spec fn parsed_method(
    d: MethodDeclV,
    data: MethodData,
    fn_name: Seq<char>,
    mm: MemoryManagement,
) -> MethodV {
    MethodV {
        selector: d.selector,
        fn_name: fn_name,
        availability: d.availability,
        is_class: d.is_class,
        is_optional_protocol: d.is_optional_protocol,
        memory_management: mm,
        arguments: parsed_arguments(d),
        result_type: parse_result_type(d),
        safe: !data.unsafe_,
        mutating: data.mutating,
    }
}

/// What parsing a method declaration yields: a skipped or variadic
/// declaration is dropped; otherwise the arguments are checked in order,
/// the attribute fold runs, the memory-management state is verified
/// against the selector on an object-identity result, and the forced
/// mutating flag is cross-checked. The first fatal fault aborts. On
/// success: the designated-initializer flag and the descriptor, if one is
/// produced, plus the warnings in emission order.
pub open spec fn parse_spec(d: MethodDeclV, data: MethodData, fn_name: Seq<char>) -> Result<
    (Option<(bool, MethodV)>, Seq<Warning>),
    Fault,
> {
    if data.skipped {
        Ok((None, Seq::<Warning>::empty()))
    } else if d.is_variadic {
        Ok((None, seq![Warning::VariadicMethod]))
    } else {
        match args_check(d.arguments) {
            Err(f) => Err(f),
            Ok(argw) => {
                let retw = if d.return_qualifiers is Some {
                    seq![Warning::ReturnTypeQualifiers]
                } else {
                    Seq::<Warning>::empty()
                };
                match fold_method_attrs(initial_fold_state(), d.attrs) {
                    Err(f) => Err(f),
                    Ok(st) => match finish_fold(st) {
                        Err(f) => Err(f),
                        Ok((mm, designated)) => {
                            if parse_result_type(d).object_identity && !sel_state_ok(
                                mm,
                                d.selector,
                            ) {
                                Err(Fault::SelectorFamilyMismatch)
                            } else if data.mutating && (d.is_class || in_family(
                                d.selector,
                                "init"@,
                            )) {
                                Err(Fault::InvalidMutating)
                            } else {
                                Ok(
                                    (
                                        Some((designated, parsed_method(d, data, fn_name, mm))),
                                        argw + retw + method_attrs_warnings(
                                            initial_fold_state(),
                                            d.attrs,
                                        ),
                                    ),
                                )
                            }
                        },
                    },
                }
            },
        }
    }
}

/// Construction never yields an internally-inconsistent descriptor: a
/// descriptor that passed construction with an object-identity result
/// always satisfies the selector-family table.
pub proof fn lemma_construction_consistent(
    d: MethodDeclV,
    data: MethodData,
    fn_name: Seq<char>,
    designated: bool,
    m: MethodV,
    w: Seq<Warning>,
)
    requires
        parse_spec(d, data, fn_name) == Ok::<(Option<(bool, MethodV)>, Seq<Warning>), Fault>(
            (Some((designated, m)), w),
        ),
    ensures
        m.result_type.object_identity ==> sel_state_ok(m.memory_management, m.selector),
{
}

/// A started method parse: the declaration together with the binding name
/// derived from its selector.
#[derive(Debug, Clone, PartialEq, Eq)]
pub struct PartialMethod {
    pub decl: MethodDecl,
    pub fn_name: String,
}

/// The outcome of a surviving method parse: the descriptor (with its
/// designated-initializer flag), if the declaration was not dropped, and
/// the warnings collected along the way.
#[derive(Debug, Clone, PartialEq, Eq)]
pub struct MethodBuild {
    pub item: Option<(bool, Method)>,
    pub warnings: Vec<Warning>,
}

impl Method {
    /// Starts a parse of a raw method declaration, deriving the generated
    /// binding name from the selector.
    pub fn partial(decl: MethodDecl) -> (r: PartialMethod)
        ensures
            r.decl == decl,
            r.fn_name@ == fn_name_spec(decl.selector@),
    {
        let fn_name = fn_name_from_selector(decl.selector.as_str());
        PartialMethod { decl, fn_name }
    }
}

/// Checks one argument's attribute markers, appending their warnings.
fn check_arg_attrs(attrs: &Vec<DeclAttr>, warnings: &mut Vec<Warning>) -> (r: Result<(), Fault>)
    ensures
        match arg_attrs_check(attrs@) {
            Ok(w) => r is Ok && final(warnings)@ =~= old(warnings)@ + w,
            Err(f) => r == Err::<(), Fault>(f),
        },
{
    let ghost w0 = warnings@;
    let mut i: usize = 0;
    proof {
        assert(attrs@.skip(0) =~= attrs@);
        assert(warnings@.skip(w0.len() as int) =~= Seq::<Warning>::empty());
        assert(warnings@.take(w0.len() as int) =~= w0);
    }
    while i < attrs.len()
        invariant
            i <= attrs@.len(),
            w0.len() <= warnings@.len(),
            warnings@.take(w0.len() as int) =~= w0,
            match arg_attrs_check(attrs@.skip(i as int)) {
                Ok(wr) => arg_attrs_check(attrs@) matches Ok(w) && w =~= warnings@.skip(
                    w0.len() as int,
                ) + wr,
                Err(f) => arg_attrs_check(attrs@) == Err::<Seq<Warning>, Fault>(f),
            },
        decreases attrs@.len() - i,
    {
        proof {
            assert(attrs@.skip(i as int)[0] == attrs@[i as int]);
            assert(attrs@.skip(i as int).skip(1) =~= attrs@.skip(i as int + 1));
        }
        let ghost wb = warnings@;
        match attrs[i] {
            DeclAttr::Consumed => {
                return Err(Fault::ConsumedArgument);
            },
            DeclAttr::IgnoredRef | DeclAttr::IntegerLiteral => {},
            DeclAttr::UnknownMacro => {
                warnings.push(Warning::UnknownMacro);
            },
            _ => {
                warnings.push(Warning::UnknownAttribute);
            },
        }
        proof {
            assert(warnings@.take(w0.len() as int) =~= wb.take(w0.len() as int));
            assert(warnings@.skip(w0.len() as int) =~= wb.skip(w0.len() as int)
                + arg_attr_warning(attrs@[i as int]));
        }
        i += 1;
    }
    proof {
        assert(attrs@.skip(attrs@.len() as int) =~= Seq::<DeclAttr>::empty());
    }
    Ok(())
}

impl PartialMethod {
    /// Parses the declaration under a configuration override record into
    /// a completed descriptor, or drops it, or aborts on the first fatal
    /// consistency fault.
    #[verifier::rlimit(100)]
    #[verifier::loop_isolation(false)]
    pub fn parse(self, data: MethodData) -> (r: Result<MethodBuild, Fault>)
        ensures
            match r {
                Ok(out) => (parse_spec(self.decl@, data, self.fn_name@) matches Ok(so) && {
                    &&& (out.item is Some <==> so.0 is Some)
                    &&& (out.item matches Some(p) ==> so.0 == Some((p.0, p.1@)))
                    &&& out.warnings@ == so.1
                }),
                Err(f) => parse_spec(self.decl@, data, self.fn_name@) == Err::<
                    (Option<(bool, MethodV)>, Seq<Warning>),
                    Fault,
                >(f),
            },
    {
        let PartialMethod { decl, fn_name } = self;
        let ghost dv = decl@;
        let ghost fnv = fn_name@;
        if data.skipped {
            let warnings: Vec<Warning> = Vec::new();
            proof {
                assert(warnings@ =~= Seq::<Warning>::empty());
            }
            return Ok(MethodBuild { item: None, warnings });
        }
        if decl.is_variadic {
            let mut warnings: Vec<Warning> = Vec::new();
            warnings.push(Warning::VariadicMethod);
            proof {
                assert(warnings@ =~= seq![Warning::VariadicMethod]);
            }
            return Ok(MethodBuild { item: None, warnings });
        }
        let mut warnings: Vec<Warning> = Vec::new();
        let mut arguments: Vec<(String, Ty)> = Vec::new();
        let ghost argsv = dv.arguments;
        let mut i: usize = 0;
        proof {
            assert(argsv.skip(0) =~= argsv);
            assert(warnings@.skip(0) =~= Seq::<Warning>::empty());
        }
        while i < decl.arguments.len()
            invariant
                i <= decl.arguments@.len(),
                argsv == decl@.arguments,
                argsv.len() == decl.arguments@.len(),
                match args_check(argsv.skip(i as int)) {
                    Ok(wr) => args_check(argsv) matches Ok(w) && w =~= warnings@ + wr,
                    Err(f) => args_check(argsv) == Err::<Seq<Warning>, Fault>(f),
                },
                arguments@.len() == i,
                forall|j: int|
                    0 <= j < i ==> arguments@[j].0@ == argsv[j].name && arguments@[j].1@
                        == argsv[j].ty,
            decreases decl.arguments@.len() - i,
        {
            proof {
                assert(argsv.skip(i as int)[0] == argsv[i as int]);
                assert(argsv.skip(i as int).skip(1) =~= argsv.skip(i as int + 1));
                assert(argsv[i as int] == decl.arguments@[i as int]@);
            }
            let a = &decl.arguments[i];
            match a.qualifiers {
                Some(q) => {
                    match MethodArgumentQualifier::parse(q) {
                        Ok(_) => {},
                        Err(f) => {
                            proof {
                                assert(arg_check(argsv[i as int]) == Err::<Seq<Warning>, Fault>(
                                    f,
                                ));
                                assert(args_check(argsv.skip(i as int)) == Err::<
                                    Seq<Warning>,
                                    Fault,
                                >(f));
                                assert(args_check(argsv) == Err::<Seq<Warning>, Fault>(f));
                                assert(parse_spec(dv, data, fnv) == Err::<
                                    (Option<(bool, MethodV)>, Seq<Warning>),
                                    Fault,
                                >(f));
                            }
                            return Err(f);
                        },
                    }
                },
                None => {},
            }
            let ghost wb = warnings@;
            match check_arg_attrs(&a.attrs, &mut warnings) {
                Ok(()) => {},
                Err(f) => {
                    proof {
                        assert(a.attrs@ == argsv[i as int].attrs);
                        assert(arg_check(argsv[i as int]) == Err::<Seq<Warning>, Fault>(f));
                        assert(args_check(argsv.skip(i as int)) == Err::<Seq<Warning>, Fault>(f));
                        assert(args_check(argsv) == Err::<Seq<Warning>, Fault>(f));
                        assert(parse_spec(dv, data, fnv) == Err::<
                            (Option<(bool, MethodV)>, Seq<Warning>),
                            Fault,
                        >(f));
                    }
                    return Err(f);
                },
            }
            arguments.push((a.name.clone(), a.ty.duplicate()));
            i += 1;
        }
        proof {
            assert(args_check(argsv.skip(argsv.len() as int)) =~= Ok::<Seq<Warning>, Fault>(
                Seq::<Warning>::empty(),
            ));
            assert(args_check(argsv) matches Ok(w) ==> w =~= warnings@);
        }
        let ghost argw = warnings@;
        let is_error = if arguments.len() > 0 {
            arguments[arguments.len() - 1].1.argument_is_error_out()
        } else {
            false
        };
        proof {
            if argsv.len() > 0 {
                assert(arguments@.last().1@ == argsv.last().ty);
            }
            assert(is_error == parse_is_error(dv));
        }
        if is_error {
            arguments.pop();
        }
        if decl.return_qualifiers.is_some() {
            warnings.push(Warning::ReturnTypeQualifiers);
        }
        let ghost retw = if dv.return_qualifiers is Some {
            seq![Warning::ReturnTypeQualifiers]
        } else {
            Seq::<Warning>::empty()
        };
        proof {
            assert(warnings@ =~= argw + retw);
        }
        let mut result_type = decl.result_type.duplicate();
        if decl.is_class && MemoryManagement::is_alloc(decl.selector.as_str()) {
            result_type.set_is_alloc();
        }
        if is_error {
            result_type.set_is_error();
        }
        proof {
            assert(result_type@ =~= parse_result_type(dv));
        }
        let ghost wprefix = warnings@;
        let st = match run_method_fold(&decl.attrs, &mut warnings) {
            Ok(st) => st,
            Err(f) => {
                return Err(f);
            },
        };
        let (memory_management, designated_initializer) = match st.finish() {
            Ok(p) => p,
            Err(f) => {
                return Err(f);
            },
        };
        if result_type.is_id() {
            match memory_management.verify_sel(decl.selector.as_str()) {
                Ok(()) => {},
                Err(f) => {
                    return Err(f);
                },
            }
        }
        if data.mutating && (decl.is_class || MemoryManagement::is_init(decl.selector.as_str())) {
            return Err(Fault::InvalidMutating);
        }
        let method = Method {
            selector: decl.selector,
            fn_name,
            availability: decl.availability,
            is_class: decl.is_class,
            is_optional_protocol: decl.is_optional_protocol,
            memory_management,
            arguments,
            result_type,
            safe: !data.unsafe_,
            mutating: data.mutating,
        };
        proof {
            assert(method@.arguments =~= parsed_arguments(dv));
            assert(method@ =~= parsed_method(dv, data, self.fn_name@, memory_management));
            assert(warnings@ =~= argw + retw + method_attrs_warnings(
                initial_fold_state(),
                dv.attrs,
            ));
        }
        Ok(MethodBuild { item: Some((designated_initializer, method)), warnings })
    }
}

} // verus!
