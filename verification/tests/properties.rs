use header_translator::attrs::DeclAttr;
use header_translator::diag::{Fault, Warning};
use header_translator::memory::MemoryManagement;
use header_translator::method::Method;
use header_translator::property::PropertyDecl;
use header_translator::ty::{Availability, MethodData, ObjCAttributes, ObjCQualifiers, Ty};

fn plain_ty() -> Ty {
    Ty {
        object_identity: false,
        covariant_self: false,
        error_out: false,
        copy_qualified: false,
        alloc_marked: false,
        fallible: false,
        void: false,
        subclass_generic: false,
        required_types: Vec::new(),
    }
}

fn data() -> MethodData {
    MethodData { skipped: false, unsafe_: false, mutating: false }
}

fn property(
    name: &str,
    getter: &str,
    setter: &str,
    attributes: Option<ObjCAttributes>,
    attrs: Vec<DeclAttr>,
) -> PropertyDecl {
    PropertyDecl {
        name: name.to_string(),
        getter_name: getter.to_string(),
        setter_name: setter.to_string(),
        is_optional_protocol: false,
        availability: Availability { note: String::new() },
        attributes,
        qualifiers: None,
        attrs,
        ty: plain_ty(),
    }
}

#[test]
fn readonly_property_expands_to_one_getter() {
    let attributes = Some(ObjCAttributes { readonly: true, class: false, copy: false });
    let d = property("count", "count", "setCount:", attributes, Vec::new());
    let partial = Method::partial_property(d);
    assert!(partial.setter_name.is_none());

    let out = partial.parse(data(), None).unwrap();
    let getter = out.getter.unwrap();
    assert!(out.setter.is_none());
    assert_eq!(getter.selector, "count");
    assert_eq!(getter.arguments.len(), 0);
    assert_eq!(getter.memory_management, MemoryManagement::Normal);
    assert!(!getter.result_type.copy_qualified);
    assert!(out.warnings.is_empty());
}

#[test]
fn copy_property_expands_to_getter_and_setter() {
    let attributes = Some(ObjCAttributes { readonly: false, class: false, copy: true });
    let d = property("title", "title", "setTitle:", attributes, Vec::new());
    let partial = Method::partial_property(d);
    assert_eq!(partial.setter_name.as_deref(), Some("setTitle"));

    let out = partial.parse(data(), Some(data())).unwrap();
    let getter = out.getter.unwrap();
    let setter = out.setter.unwrap();
    assert!(getter.result_type.copy_qualified);
    assert_eq!(setter.selector, "setTitle:");
    assert_eq!(setter.fn_name, "setTitle");
    assert_eq!(setter.arguments.len(), 1);
    assert_eq!(setter.arguments[0].0, "title");
    assert!(!setter.arguments[0].1.copy_qualified);
    assert!(setter.result_type.void);
}

#[test]
fn property_without_attributes_is_read_write() {
    let d = property("name", "name", "setName:", None, Vec::new());
    let partial = Method::partial_property(d);
    assert_eq!(partial.setter_name.as_deref(), Some("setName"));
    assert!(!partial.is_class);

    let out = partial.parse(data(), Some(data())).unwrap();
    assert!(out.getter.is_some());
    assert!(out.setter.is_some());
}

#[test]
fn class_property_scope() {
    let attributes = Some(ObjCAttributes { readonly: true, class: true, copy: false });
    let d = property("shared", "shared", "setShared:", attributes, Vec::new());
    let partial = Method::partial_property(d);
    assert!(partial.is_class);
    let out = partial.parse(data(), None).unwrap();
    assert!(out.getter.unwrap().is_class);
}

#[test]
fn fully_skipped_property_produces_nothing() {
    let skipped = MethodData { skipped: true, unsafe_: false, mutating: false };
    let d = property("count", "count", "setCount:", None, vec![DeclAttr::UnknownMacro]);
    let out = Method::partial_property(d).parse(skipped, Some(skipped)).unwrap();
    assert!(out.getter.is_none());
    assert!(out.setter.is_none());
    assert!(out.warnings.is_empty());
}

#[test]
fn skipped_getter_keeps_the_setter() {
    let skipped = MethodData { skipped: true, unsafe_: false, mutating: false };
    let d = property("name", "name", "setName:", None, Vec::new());
    let out = Method::partial_property(d).parse(skipped, Some(data())).unwrap();
    assert!(out.getter.is_none());
    assert!(out.setter.is_some());
}

#[test]
fn inner_pointer_property_state() {
    let attributes = Some(ObjCAttributes { readonly: true, class: false, copy: false });
    let d = property(
        "bytes",
        "bytes",
        "setBytes:",
        attributes,
        vec![DeclAttr::ReturnsInnerPointer],
    );
    let out = Method::partial_property(d).parse(data(), None).unwrap();
    assert_eq!(
        out.getter.unwrap().memory_management,
        MemoryManagement::ReturnsInnerPointer
    );
}

#[test]
fn repeated_inner_pointer_is_a_conflict() {
    let d = property(
        "bytes",
        "bytes",
        "setBytes:",
        None,
        vec![DeclAttr::ReturnsInnerPointer, DeclAttr::ReturnsInnerPointer],
    );
    assert_eq!(
        Method::partial_property(d).parse(data(), Some(data())),
        Err(Fault::AttributeConflict)
    );
}

#[test]
fn property_shape_mismatches_warn_but_survive() {
    let mut d = property(
        "count",
        "count",
        "setCount:",
        None,
        vec![DeclAttr::NestedMethod, DeclAttr::UnknownMacro],
    );
    d.qualifiers = Some(ObjCQualifiers {
        in_: false,
        inout: false,
        out: false,
        bycopy: true,
        byref: false,
        oneway: false,
    });
    let out = Method::partial_property(d).parse(data(), Some(data())).unwrap();
    assert!(out.getter.is_some());
    assert_eq!(
        out.warnings,
        vec![
            Warning::MethodInProperty,
            Warning::UnknownMacro,
            Warning::PropertyQualifiers,
        ]
    );
}

#[test]
fn accessor_overrides_apply_independently() {
    let d = property("name", "name", "setName:", None, Vec::new());
    let getter_data = MethodData { skipped: false, unsafe_: true, mutating: false };
    let setter_data = MethodData { skipped: false, unsafe_: false, mutating: true };
    let out = Method::partial_property(d).parse(getter_data, Some(setter_data)).unwrap();
    let getter = out.getter.unwrap();
    let setter = out.setter.unwrap();
    assert!(!getter.safe);
    assert!(!getter.mutating);
    assert!(setter.safe);
    assert!(setter.mutating);
}
