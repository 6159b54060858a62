//! Property descriptors: a property expands deterministically into zero,
//! one or two method descriptors (getter and setter), sharing the source
//! declaration's availability and optionality but independently subject to
//! configuration overrides.

use vstd::prelude::*;

use crate::attrs::{fold_property_attrs, property_attrs_warnings, run_property_fold, DeclAttr};
use crate::diag::{Fault, Warning};
use crate::memory::MemoryManagement;
use crate::method::{strip_trailing_colons, Method, MethodV};
use crate::ty::{Availability, MethodData, ObjCAttributes, ObjCQualifiers, Ty, TyV};

verus! {

/// A raw property declaration, as materialized by the external AST
/// extraction: display name, accessor names, attributes, attached markers
/// and the resolved property type.
#[derive(Debug, Clone, PartialEq, Eq)]
pub struct PropertyDecl {
    pub name: String,
    pub getter_name: String,
    pub setter_name: String,
    pub is_optional_protocol: bool,
    pub availability: Availability,
    pub attributes: Option<ObjCAttributes>,
    pub qualifiers: Option<ObjCQualifiers>,
    pub attrs: Vec<DeclAttr>,
    pub ty: Ty,
}

/// The mathematical value of a [`PropertyDecl`].
#[verifier::ext_equal]
pub ghost struct PropertyDeclV {
    pub name: Seq<char>,
    pub getter_name: Seq<char>,
    pub setter_name: Seq<char>,
    pub is_optional_protocol: bool,
    pub availability: Seq<char>,
    pub attributes: Option<ObjCAttributes>,
    pub qualifiers: Option<ObjCQualifiers>,
    pub attrs: Seq<DeclAttr>,
    pub ty: TyV,
}

impl View for PropertyDecl {
    type V = PropertyDeclV;

    open spec fn view(&self) -> PropertyDeclV {
        PropertyDeclV {
            name: self.name@,
            getter_name: self.getter_name@,
            setter_name: self.setter_name@,
            is_optional_protocol: self.is_optional_protocol,
            availability: self.availability@,
            attributes: self.attributes,
            qualifiers: self.qualifiers,
            attrs: self.attrs@,
            ty: self.ty@,
        }
    }
}

/// A started property expansion: the declaration together with the derived
/// accessor names and scope.
#[derive(Debug, Clone, PartialEq, Eq)]
pub struct PartialProperty {
    pub decl: PropertyDecl,
    pub name: String,
    pub getter_name: String,
    pub setter_name: Option<String>,
    pub is_class: bool,
}

/// The mathematical value of a [`PartialProperty`].
#[verifier::ext_equal]
pub ghost struct PartialPropertyV {
    pub decl: PropertyDeclV,
    pub name: Seq<char>,
    pub getter_name: Seq<char>,
    pub setter_name: Option<Seq<char>>,
    pub is_class: bool,
}

impl View for PartialProperty {
    type V = PartialPropertyV;

    open spec fn view(&self) -> PartialPropertyV {
        PartialPropertyV {
            decl: self.decl@,
            name: self.name@,
            getter_name: self.getter_name@,
            setter_name: match self.setter_name {
                Some(s) => Some(s@),
                None => None,
            },
            is_class: self.is_class,
        }
    }
}

/// The outcome of a surviving property expansion: the getter and setter
/// descriptors, each optional, and the warnings collected along the way.
#[derive(Debug, Clone, PartialEq, Eq)]
pub struct PropertyBuild {
    pub getter: Option<Method>,
    pub setter: Option<Method>,
    pub warnings: Vec<Warning>,
}

/// Removes the trailing argument-label colons from an accessor name.
fn trim_end_colons(s: &str) -> (r: String)
    ensures
        r@ == strip_trailing_colons(s@),
{
    let n = s.unicode_len();
    proof {
        assert(s@.take(n as int) =~= s@);
    }
    let mut end = n;
    while end > 0 && s.get_char(end - 1) == ':'
        invariant
            end <= n,
            n == s@.len(),
            strip_trailing_colons(s@) == strip_trailing_colons(s@.take(end as int)),
        decreases end,
    {
        proof {
            assert(s@.take(end as int).last() == ':');
            assert(s@.take(end as int).drop_last() =~= s@.take(end as int - 1));
        }
        end -= 1;
    }
    proof {
        if end > 0 {
            assert(s@.take(end as int).last() == s@[end as int - 1]);
        }
        assert(strip_trailing_colons(s@) == s@.take(end as int));
    }
    s.substring_char(0, end).to_owned()
}

/// The property's type in getter-return position: copy-qualified exactly
/// when the property declares copy semantics.
pub fn property_return_type(ty: &Ty, is_copy: bool) -> (r: Ty)
    ensures
        r@ == (TyV { copy_qualified: is_copy, ..ty@ }),
{
    let mut r = ty.duplicate();
    r.copy_qualified = is_copy;
    r
}

/// The property's type in setter-argument position: never copy-qualified,
/// because copy semantics apply only to the stored and returned direction.
pub fn property_argument_type(ty: &Ty) -> (r: Ty)
    ensures
        r@ == (TyV { copy_qualified: false, ..ty@ }),
{
    let mut r = ty.duplicate();
    r.copy_qualified = false;
    r
}

/// Whether the property declares copy semantics.
pub open spec fn property_is_copy(attributes: Option<ObjCAttributes>) -> bool {
    attributes matches Some(a) && a.copy
}

/// Whether the whole expansion is skipped: both accessors are configured
/// away (a missing setter override counts as a skipped setter), so no
/// descriptor and no warning is produced.
pub open spec fn property_skip_all(
    getter_data: MethodData,
    setter_data: Option<MethodData>,
) -> bool {
    getter_data.skipped && match setter_data {
        Some(d) => d.skipped,
        None => true,
    }
}

/// The getter descriptor of a surviving property: zero arguments, the
/// property's type (copy-qualified under copy semantics) as result, and
/// the state the property fold inferred.
pub open spec fn getter_method(
    p: PartialPropertyV,
    mm: MemoryManagement,
    getter_data: MethodData,
) -> MethodV {
    MethodV {
        selector: p.getter_name,
        fn_name: p.getter_name,
        availability: p.decl.availability,
        is_class: p.is_class,
        is_optional_protocol: p.decl.is_optional_protocol,
        memory_management: mm,
        arguments: Seq::<(Seq<char>, TyV)>::empty(),
        result_type: TyV { copy_qualified: property_is_copy(p.decl.attributes), ..p.decl.ty },
        safe: !getter_data.unsafe_,
        mutating: getter_data.mutating,
    }
}

/// The setter descriptor of a surviving read-write property: one argument
/// of the property's type (never copy-qualified), void result, and the
/// selector synthesized from the setter name with a trailing colon.
pub open spec fn setter_method(
    p: PartialPropertyV,
    mm: MemoryManagement,
    setter_name: Seq<char>,
    setter_data: MethodData,
) -> MethodV {
    MethodV {
        selector: setter_name.push(':'),
        fn_name: setter_name,
        availability: p.decl.availability,
        is_class: p.is_class,
        is_optional_protocol: p.decl.is_optional_protocol,
        memory_management: mm,
        arguments: seq![(p.name, TyV { copy_qualified: false, ..p.decl.ty })],
        result_type: TyV {
            object_identity: false,
            covariant_self: false,
            error_out: false,
            copy_qualified: false,
            alloc_marked: false,
            fallible: false,
            void: true,
            subclass_generic: false,
            required_types: Seq::<Seq<char>>::empty(),
        },
        safe: !setter_data.unsafe_,
        mutating: setter_data.mutating,
    }
}

/// What expanding a property yields: nothing when both accessors are
/// skipped; otherwise the property fold runs over the attached markers
/// (its fault aborts the expansion), qualifiers contribute a warning, and
/// the surviving accessors become descriptors.
pub open spec fn property_parse_spec(
    p: PartialPropertyV,
    getter_data: MethodData,
    setter_data: Option<MethodData>,
) -> Result<(Option<MethodV>, Option<MethodV>, Seq<Warning>), Fault> {
    if property_skip_all(getter_data, setter_data) {
        Ok((None, None, Seq::<Warning>::empty()))
    } else {
        match fold_property_attrs(MemoryManagement::Normal, p.decl.attrs) {
            Err(f) => Err(f),
            Ok(mm) => {
                let w = property_attrs_warnings(MemoryManagement::Normal, p.decl.attrs) + (
                if p.decl.qualifiers is Some {
                    seq![Warning::PropertyQualifiers]
                } else {
                    Seq::<Warning>::empty()
                });
                let getter = if !getter_data.skipped {
                    Some(getter_method(p, mm, getter_data))
                } else {
                    None
                };
                let setter = match p.setter_name {
                    Some(sn) => {
                        if setter_data matches Some(sd) && !sd.skipped {
                            Some(setter_method(p, mm, sn, setter_data->0))
                        } else {
                            None
                        }
                    },
                    None => None,
                };
                Ok((getter, setter, w))
            },
        }
    }
}

impl Method {
    /// Starts a property expansion: derives whether a setter exists (a
    /// property without attributes is read-write), the trimmed setter
    /// name, and the scope.
    pub fn partial_property(decl: PropertyDecl) -> (r: PartialProperty)
        ensures
            r.decl == decl,
            r.name@ == decl.name@,
            r.getter_name@ == decl.getter_name@,
            r.is_class == (decl.attributes matches Some(a) && a.class),
            ({
                let has_setter = match decl.attributes {
                    Some(a) => !a.readonly,
                    None => true,
                };
                if has_setter {
                    r.setter_name matches Some(s) && s@ == strip_trailing_colons(
                        decl.setter_name@,
                    )
                } else {
                    r.setter_name is None
                }
            }),
    {
        let has_setter = match decl.attributes {
            Some(a) => !a.readonly,
            None => true,
        };
        let is_class = match decl.attributes {
            Some(a) => a.class,
            None => false,
        };
        let name = decl.name.clone();
        let getter_name = decl.getter_name.clone();
        let setter_name = if has_setter {
            Some(trim_end_colons(decl.setter_name.as_str()))
        } else {
            None
        };
        PartialProperty { decl, name, getter_name, setter_name, is_class }
    }
}

impl PartialProperty {
    /// Expands the property under per-accessor configuration override
    /// records into getter and setter descriptors, or drops them, or
    /// aborts on the first fatal consistency fault.
    #[verifier::loop_isolation(false)]
    pub fn parse(self, getter_data: MethodData, setter_data: Option<MethodData>) -> (r: Result<
        PropertyBuild,
        Fault,
    >)
        requires
            self.setter_name is Some ==> setter_data is Some,
        ensures
            match r {
                Ok(out) => (property_parse_spec(self@, getter_data, setter_data) matches Ok(so)
                    && {
                    &&& (out.getter is Some <==> so.0 is Some)
                    &&& (out.getter matches Some(g) ==> so.0 == Some(g@))
                    &&& (out.setter is Some <==> so.1 is Some)
                    &&& (out.setter matches Some(sm) ==> so.1 == Some(sm@))
                    &&& out.warnings@ == so.2
                }),
                Err(f) => property_parse_spec(self@, getter_data, setter_data) == Err::<
                    (Option<MethodV>, Option<MethodV>, Seq<Warning>),
                    Fault,
                >(f),
            },
    {
        let ghost pv = self@;
        let PartialProperty { decl, name, getter_name, setter_name, is_class } = self;
        let skip_setter = match setter_data {
            Some(d) => d.skipped,
            None => true,
        };
        if getter_data.skipped && skip_setter {
            let warnings: Vec<Warning> = Vec::new();
            proof {
                assert(warnings@ =~= Seq::<Warning>::empty());
            }
            return Ok(PropertyBuild { getter: None, setter: None, warnings });
        }
        let is_copy = match decl.attributes {
            Some(a) => a.copy,
            None => false,
        };
        let mut warnings: Vec<Warning> = Vec::new();
        let memory_management = match run_property_fold(&decl.attrs, &mut warnings) {
            Ok(mm) => mm,
            Err(f) => {
                return Err(f);
            },
        };
        if decl.qualifiers.is_some() {
            warnings.push(Warning::PropertyQualifiers);
        }
        let getter = if !getter_data.skipped {
            Some(
                Method {
                    selector: getter_name.clone(),
                    fn_name: getter_name,
                    availability: decl.availability.duplicate(),
                    is_class,
                    is_optional_protocol: decl.is_optional_protocol,
                    memory_management,
                    arguments: Vec::new(),
                    result_type: property_return_type(&decl.ty, is_copy),
                    safe: !getter_data.unsafe_,
                    mutating: getter_data.mutating,
                },
            )
        } else {
            None
        };
        proof {
            if !getter_data.skipped {
                assert(getter->0@ =~= getter_method(pv, memory_management, getter_data));
            }
        }
        let setter = match setter_name {
            Some(sn) => {
                match setter_data {
                    Some(sd) => {
                        if !sd.skipped {
                            let mut selector = sn.clone();
                            crate::strutil::push_char(&mut selector, ':');
                            proof {
                                assert(selector@ =~= sn@.push(':'));
                            }
                            let m = Method {
                                selector,
                                fn_name: sn,
                                availability: decl.availability,
                                is_class,
                                is_optional_protocol: decl.is_optional_protocol,
                                memory_management,
                                arguments: vec![(name, property_argument_type(&decl.ty))],
                                result_type: Ty::void_result(),
                                safe: !sd.unsafe_,
                                mutating: sd.mutating,
                            };
                            proof {
                                assert(m@.arguments =~= setter_method(
                                    pv,
                                    memory_management,
                                    pv.setter_name->0,
                                    sd,
                                ).arguments);
                                assert(m@ =~= setter_method(
                                    pv,
                                    memory_management,
                                    pv.setter_name->0,
                                    sd,
                                ));
                            }
                            Some(m)
                        } else {
                            None
                        }
                    },
                    None => None,
                }
            },
            None => None,
        };
        proof {
            assert(warnings@ =~= property_attrs_warnings(MemoryManagement::Normal, pv.decl.attrs)
                + (if pv.decl.qualifiers is Some {
                seq![Warning::PropertyQualifiers]
            } else {
                Seq::<Warning>::empty()
            }));
        }
        Ok(PropertyBuild { getter, setter, warnings })
    }
}

} // verus!
