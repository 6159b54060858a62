use header_translator::attrs::{DeclAttr, FoldState};
use header_translator::diag::{Fault, Warning};
use header_translator::memory::MemoryManagement;
use header_translator::method::{
    fix_related_result_types, fn_name_from_selector, handle_reserved, ArgumentDecl, Method,
    MethodDecl,
};
use header_translator::selector::in_selector_family;
use header_translator::ty::{
    Availability, ItemIdentifier, MethodArgumentQualifier, MethodData, ObjCQualifiers, Ty,
};

fn plain_ty() -> Ty {
    Ty {
        object_identity: false,
        covariant_self: false,
        error_out: false,
        copy_qualified: false,
        alloc_marked: false,
        fallible: false,
        void: false,
        subclass_generic: false,
        required_types: Vec::new(),
    }
}

fn id_ty() -> Ty {
    Ty { object_identity: true, ..plain_ty() }
}

fn instancetype_ty() -> Ty {
    Ty { object_identity: true, covariant_self: true, ..plain_ty() }
}

fn error_out_ty() -> Ty {
    Ty { error_out: true, ..plain_ty() }
}

fn availability() -> Availability {
    Availability { note: String::new() }
}

fn data() -> MethodData {
    MethodData { skipped: false, unsafe_: false, mutating: false }
}

fn arg(name: &str, ty: Ty) -> ArgumentDecl {
    ArgumentDecl { name: name.to_string(), qualifiers: None, attrs: Vec::new(), ty }
}

fn decl(selector: &str, is_class: bool, attrs: Vec<DeclAttr>, result_type: Ty) -> MethodDecl {
    MethodDecl {
        selector: selector.to_string(),
        is_class,
        is_variadic: false,
        is_optional_protocol: false,
        availability: availability(),
        arguments: Vec::new(),
        result_type,
        return_qualifiers: None,
        attrs,
    }
}

fn method(selector: &str, is_class: bool, mm: MemoryManagement, result_type: Ty) -> Method {
    Method {
        selector: selector.to_string(),
        fn_name: fn_name_from_selector(selector),
        availability: availability(),
        is_class,
        is_optional_protocol: false,
        memory_management: mm,
        arguments: Vec::new(),
        result_type,
        safe: true,
        mutating: false,
    }
}

#[test]
fn selector_family_word_boundary() {
    assert!(in_selector_family("init", "init"));
    assert!(in_selector_family("initWithCoder:", "init"));
    assert!(in_selector_family("init:", "init"));
    assert!(!in_selector_family("initialize", "init"));
    assert!(!in_selector_family("in", "init"));
    assert!(MemoryManagement::is_init("initWithName:"));
    assert!(!MemoryManagement::is_init("initialize"));
    assert!(MemoryManagement::is_alloc("allocWithZone:"));
    assert!(MemoryManagement::is_new("new"));
    assert!(!MemoryManagement::is_new("newspaper"));
}

#[test]
fn canonical_family_names() {
    assert_eq!(MemoryManagement::get_memory_management_name("new"), "New");
    assert_eq!(MemoryManagement::get_memory_management_name("allocWithZone:"), "Alloc");
    assert_eq!(MemoryManagement::get_memory_management_name("initWithCoder:"), "Init");
    assert_eq!(MemoryManagement::get_memory_management_name("copy"), "CopyOrMutCopy");
    assert_eq!(MemoryManagement::get_memory_management_name("mutableCopyWithZone:"), "CopyOrMutCopy");
    assert_eq!(MemoryManagement::get_memory_management_name("initialize"), "Other");
    assert_eq!(MemoryManagement::get_memory_management_name("description"), "Other");
}

#[test]
fn verify_sel_follows_the_family_table() {
    assert!(MemoryManagement::Init.verify_sel("initWithCoder:").is_ok());
    assert!(MemoryManagement::Normal.verify_sel("initWithCoder:").is_err());
    assert!(MemoryManagement::ReturnsRetained.verify_sel("copy").is_ok());
    assert!(MemoryManagement::ReturnsRetained.verify_sel("description").is_err());
    assert!(MemoryManagement::Normal.verify_sel("description").is_ok());
    assert!(MemoryManagement::ReturnsInnerPointer.verify_sel("bytes").is_ok());
}

#[test]
fn initialize_is_not_an_initializer() {
    // The word-boundary regression guard: `initialize` is outside the
    // `init` family, so the initializer state fails its verification.
    assert_eq!(
        MemoryManagement::Init.verify_sel("initialize"),
        Err(Fault::SelectorFamilyMismatch)
    );

    let d = decl(
        "initialize",
        false,
        vec![DeclAttr::ConsumesSelf, DeclAttr::ReturnsRetained],
        id_ty(),
    );
    let r = Method::partial(d).parse(data());
    assert_eq!(r, Err(Fault::SelectorFamilyMismatch));
}

#[test]
fn init_with_error_out_argument() {
    let mut d = decl(
        "initWithName:",
        false,
        vec![DeclAttr::ConsumesSelf, DeclAttr::ReturnsRetained],
        id_ty(),
    );
    d.arguments = vec![arg("name", plain_ty()), arg("error", error_out_ty())];
    let out = Method::partial(d).parse(data()).unwrap();
    let (designated, m) = out.item.unwrap();
    assert!(!designated);
    assert_eq!(m.memory_management, MemoryManagement::Init);
    assert!(m.result_type.fallible);
    assert_eq!(m.arguments.len(), 1);
    assert_eq!(m.arguments[0].0, "name");
    assert_eq!(m.fn_name, "initWithName");
    assert!(out.warnings.is_empty());
}

#[test]
fn conflicting_ownership_attributes_abort() {
    let d = decl(
        "data",
        false,
        vec![DeclAttr::ReturnsRetained, DeclAttr::ReturnsInnerPointer],
        id_ty(),
    );
    let r = Method::partial(d).parse(data());
    assert_eq!(r, Err(Fault::AttributeConflict));

    let d = decl(
        "data",
        false,
        vec![DeclAttr::ReturnsInnerPointer, DeclAttr::ReturnsRetained],
        id_ty(),
    );
    let r = Method::partial(d).parse(data());
    assert_eq!(r, Err(Fault::AttributeConflict));
}

#[test]
fn unsupported_attributes_abort() {
    let d = decl("data", false, vec![DeclAttr::ReturnsAutoreleased], plain_ty());
    assert_eq!(
        Method::partial(d).parse(data()),
        Err(Fault::UnsupportedReturnsAutoreleased)
    );

    let d = decl("data", false, vec![DeclAttr::ReturnsNotRetained], plain_ty());
    assert_eq!(
        Method::partial(d).parse(data()),
        Err(Fault::UnsupportedReturnsNotRetained)
    );

    let d = decl(
        "data",
        false,
        vec![DeclAttr::DesignatedInitializer, DeclAttr::DesignatedInitializer],
        plain_ty(),
    );
    assert_eq!(
        Method::partial(d).parse(data()),
        Err(Fault::RepeatedDesignatedInitializer)
    );

    let d = decl("data", false, vec![DeclAttr::ConsumesSelf], plain_ty());
    assert_eq!(
        Method::partial(d).parse(data()),
        Err(Fault::ConsumesSelfWithoutRetained)
    );
}

#[test]
fn consumed_argument_aborts() {
    let mut d = decl("setName:", false, Vec::new(), plain_ty());
    let mut a = arg("name", plain_ty());
    a.attrs = vec![DeclAttr::Consumed];
    d.arguments = vec![a];
    assert_eq!(Method::partial(d).parse(data()), Err(Fault::ConsumedArgument));
}

#[test]
fn unsupported_qualifiers_abort() {
    let bad = ObjCQualifiers {
        in_: true,
        inout: true,
        out: false,
        bycopy: false,
        byref: false,
        oneway: false,
    };
    assert_eq!(
        MethodArgumentQualifier::parse(bad),
        Err(Fault::UnsupportedQualifiers)
    );
    let good = ObjCQualifiers {
        in_: false,
        inout: false,
        out: true,
        bycopy: false,
        byref: false,
        oneway: false,
    };
    assert_eq!(MethodArgumentQualifier::parse(good), Ok(MethodArgumentQualifier::Out));

    let mut d = decl("setName:", false, Vec::new(), plain_ty());
    let mut a = arg("name", plain_ty());
    a.qualifiers = Some(bad);
    d.arguments = vec![a];
    assert_eq!(
        Method::partial(d).parse(data()),
        Err(Fault::UnsupportedQualifiers)
    );
}

#[test]
fn selector_family_mismatch_aborts() {
    // A `copy`-family selector whose declaration carries no ownership
    // attribute ends in `Normal`, which the family table refuses.
    let d = decl("copyItems", false, Vec::new(), id_ty());
    assert_eq!(
        Method::partial(d).parse(data()),
        Err(Fault::SelectorFamilyMismatch)
    );

    // The same declaration without an object-identity result is exempt.
    let d = decl("copyItems", false, Vec::new(), plain_ty());
    assert!(Method::partial(d).parse(data()).is_ok());
}

#[test]
fn construction_is_internally_consistent() {
    // A descriptor that passes construction always satisfies the family
    // table, so re-verifying it succeeds.
    let d = decl("copyItems", false, vec![DeclAttr::ReturnsRetained], id_ty());
    let out = Method::partial(d).parse(data()).unwrap();
    let (_, m) = out.item.unwrap();
    assert!(m.result_type.is_id());
    assert!(m.memory_management.verify_sel(&m.selector).is_ok());
}

#[test]
fn invalid_mutating_aborts() {
    let mut config = data();
    config.mutating = true;

    let d = decl("reset", true, Vec::new(), plain_ty());
    assert_eq!(Method::partial(d).parse(config), Err(Fault::InvalidMutating));

    let d = decl("initWithName:", false, Vec::new(), plain_ty());
    assert_eq!(Method::partial(d).parse(config), Err(Fault::InvalidMutating));

    let d = decl("reset", false, Vec::new(), plain_ty());
    let out = Method::partial(d).parse(config).unwrap();
    let (_, m) = out.item.unwrap();
    assert!(m.mutating);
}

#[test]
fn skipped_and_variadic_are_dropped() {
    let mut config = data();
    config.skipped = true;
    let d = decl("description", false, Vec::new(), plain_ty());
    let out = Method::partial(d).parse(config).unwrap();
    assert!(out.item.is_none());
    assert!(out.warnings.is_empty());

    let mut d = decl("stringWithFormat:", true, Vec::new(), plain_ty());
    d.is_variadic = true;
    let out = Method::partial(d).parse(data()).unwrap();
    assert!(out.item.is_none());
    assert_eq!(out.warnings, vec![Warning::VariadicMethod]);
}

#[test]
fn unknown_markers_warn_but_survive() {
    let d = decl(
        "description",
        false,
        vec![DeclAttr::UnknownMacro, DeclAttr::IbAction, DeclAttr::Unknown],
        plain_ty(),
    );
    let out = Method::partial(d).parse(data()).unwrap();
    assert!(out.item.is_some());
    assert_eq!(
        out.warnings,
        vec![Warning::UnknownMacro, Warning::UnknownAttribute]
    );

    let mut d = decl("description", false, Vec::new(), plain_ty());
    d.return_qualifiers = Some(ObjCQualifiers {
        in_: false,
        inout: false,
        out: false,
        bycopy: false,
        byref: true,
        oneway: false,
    });
    let out = Method::partial(d).parse(data()).unwrap();
    assert_eq!(out.warnings, vec![Warning::ReturnTypeQualifiers]);
}

#[test]
fn designated_initializer_flag_is_reported() {
    let d = decl(
        "initWithName:",
        false,
        vec![
            DeclAttr::DesignatedInitializer,
            DeclAttr::ConsumesSelf,
            DeclAttr::ReturnsRetained,
        ],
        id_ty(),
    );
    let out = Method::partial(d).parse(data()).unwrap();
    let (designated, m) = out.item.unwrap();
    assert!(designated);
    assert_eq!(m.memory_management, MemoryManagement::Init);
}

#[test]
fn alloc_marks_the_result_type() {
    let d = decl(
        "allocWithZone:",
        true,
        vec![DeclAttr::ReturnsRetained],
        id_ty(),
    );
    let out = Method::partial(d).parse(data()).unwrap();
    let (_, m) = out.item.unwrap();
    assert!(m.result_type.alloc_marked);
}

#[test]
fn emit_on_subclasses_rules() {
    // Class-scoped, covariant self-return: everything but `new` and
    // `supportsSecureCoding` is re-emitted.
    let m = method("new", true, MemoryManagement::ReturnsRetained, instancetype_ty());
    assert!(!m.emit_on_subclasses());

    let m = method("allocWithZone:", true, MemoryManagement::ReturnsRetained, instancetype_ty());
    assert!(m.emit_on_subclasses());

    let m = method("supportsSecureCoding", true, MemoryManagement::Normal, instancetype_ty());
    assert!(!m.emit_on_subclasses());

    // A non-covariant return is never re-emitted.
    let m = method("allocWithZone:", true, MemoryManagement::ReturnsRetained, id_ty());
    assert!(!m.emit_on_subclasses());

    // Instance methods: only `Init`-state selectors other than `init` and
    // `initWithCoder:`.
    let m = method("initWithName:", false, MemoryManagement::Init, instancetype_ty());
    assert!(m.emit_on_subclasses());

    let m = method("init", false, MemoryManagement::Init, instancetype_ty());
    assert!(!m.emit_on_subclasses());

    let m = method("initWithCoder:", false, MemoryManagement::Init, instancetype_ty());
    assert!(!m.emit_on_subclasses());

    let m = method("mutableCopy", false, MemoryManagement::ReturnsRetained, instancetype_ty());
    assert!(!m.emit_on_subclasses());
}

#[test]
fn related_result_fixup_is_idempotent() {
    let mut methods = vec![
        method("allocWithZone:", true, MemoryManagement::ReturnsRetained, instancetype_ty()),
        method("initWithName:", false, MemoryManagement::Init, instancetype_ty()),
        method("description", false, MemoryManagement::Normal, id_ty()),
        method("copy", false, MemoryManagement::ReturnsRetained, plain_ty()),
    ];
    fix_related_result_types(&mut methods);
    assert!(methods[0].result_type.subclass_generic);
    assert!(methods[1].result_type.subclass_generic);
    assert!(!methods[2].result_type.subclass_generic);
    assert!(!methods[3].result_type.subclass_generic);

    let once = methods.clone();
    fix_related_result_types(&mut methods);
    assert_eq!(methods, once);
}

#[test]
fn update_applies_overrides() {
    let m = method("description", false, MemoryManagement::Normal, plain_ty());
    let config = MethodData { skipped: true, unsafe_: false, mutating: false };
    assert!(m.update(config).is_none());

    let m = method("description", false, MemoryManagement::Normal, plain_ty());
    let config = MethodData { skipped: false, unsafe_: true, mutating: true };
    let m2 = m.update(config).unwrap();
    assert!(!m2.safe);
    assert!(m2.mutating);
}

#[test]
fn id_pairs_scope_and_selector() {
    let m = method("copy", true, MemoryManagement::ReturnsRetained, plain_ty());
    let (is_class, sel) = m.id();
    assert!(is_class);
    assert_eq!(sel, "copy");
}

#[test]
fn visit_required_types_collects_in_order() {
    let mut m = method("setName:age:", false, MemoryManagement::Normal, plain_ty());
    let mut t1 = plain_ty();
    t1.required_types = vec![ItemIdentifier { name: "NSString".to_string() }];
    let mut t2 = plain_ty();
    t2.required_types = vec![ItemIdentifier { name: "NSNumber".to_string() }];
    m.arguments = vec![("name".to_string(), t1), ("age".to_string(), t2)];
    m.result_type.required_types = vec![ItemIdentifier { name: "NSObject".to_string() }];
    let required: Vec<String> = m.visit_required_types().into_iter().map(|t| t.name).collect();
    assert_eq!(required, vec!["NSString", "NSNumber", "NSObject"]);
}

#[test]
fn fn_names_replace_colons() {
    assert_eq!(fn_name_from_selector("initWithName:age:"), "initWithName_age");
    assert_eq!(fn_name_from_selector("description"), "description");
    assert_eq!(fn_name_from_selector("copy:"), "copy");
}

#[test]
fn reserved_names_get_a_trailing_underscore() {
    assert_eq!(handle_reserved("type"), "type_");
    assert_eq!(handle_reserved("trait"), "trait_");
    assert_eq!(handle_reserved("abstract"), "abstract_");
    assert_eq!(handle_reserved("class"), "class");
}

#[test]
fn fold_accumulator_in_isolation() {
    let mut st = FoldState::new();
    let mut warnings: Vec<Warning> = Vec::new();
    assert!(st.apply(DeclAttr::ReturnsRetained, &mut warnings).is_ok());
    assert!(st.apply(DeclAttr::ConsumesSelf, &mut warnings).is_ok());
    assert!(st.apply(DeclAttr::IgnoredRef, &mut warnings).is_ok());
    let (mm, designated) = st.finish().unwrap();
    assert_eq!(mm, MemoryManagement::Init);
    assert!(!designated);
    assert!(warnings.is_empty());

    let mut st = FoldState::new();
    assert_eq!(
        st.apply(DeclAttr::ReturnsAutoreleased, &mut warnings),
        Err(Fault::UnsupportedReturnsAutoreleased)
    );

    let mut st = FoldState::new();
    assert!(st.apply(DeclAttr::ReturnsInnerPointer, &mut warnings).is_ok());
    assert_eq!(
        st.apply(DeclAttr::ReturnsRetained, &mut warnings),
        Err(Fault::AttributeConflict)
    );
}
