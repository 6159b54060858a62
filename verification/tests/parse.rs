use header_translator::encoding::{
    chomp, chomp_ptr, chomp_struct, Descriptor, ExpectedFieldsComparator, Primitive, StrEncoding,
    StrPointerEncoding, StrStructEncoding, StringEncoding,
};

#[test]
fn test_chomp() {
    let (h, t) = chomp("{A={B=ci^{C=c}}ci}c^i{C=c}");
    assert_eq!(h, Some("{A={B=ci^{C=c}}ci}"));

    let (h, t) = chomp(t);
    assert_eq!(h, Some("c"));

    let (h, t) = chomp(t);
    assert_eq!(h, Some("^i"));

    let (h, t) = chomp(t);
    assert_eq!(h, Some("{C=c}"));

    let (h, _) = chomp(t);
    assert_eq!(h, None);
}

#[test]
fn chomp_empty_and_invalid() {
    let (h, t) = chomp("");
    assert_eq!(h, None);
    assert_eq!(t, "");

    let (h, t) = chomp("^");
    assert_eq!(h, None);
    assert_eq!(t, "^");

    let (h, t) = chomp("{A=ci");
    assert_eq!(h, None);
    assert_eq!(t, "{A=ci");

    let (h, t) = chomp("x");
    assert_eq!(h, None);
    assert_eq!(t, "x");
}

#[test]
fn chomp_pointer_chains() {
    let (h, t) = chomp("^^ic");
    assert_eq!(h, Some("^^i"));
    assert_eq!(t, "c");

    assert_eq!(chomp_ptr("^i"), Some(2));
    assert_eq!(chomp_ptr("i"), None);
    assert_eq!(chomp_ptr("^x"), None);
}

#[test]
fn chomp_struct_balanced() {
    assert_eq!(chomp_struct("{A=ci}"), Some(6));
    assert_eq!(chomp_struct("{A={B=c}}i"), Some(9));
    assert_eq!(chomp_struct("{A="), None);
    assert_eq!(chomp_struct("ci"), None);
}

#[test]
fn descriptor_classifies_by_leading_character() {
    let enc = StrEncoding::new_unchecked("c");
    assert!(matches!(enc.descriptor(), Descriptor::Primitive(Primitive::Char)));

    let enc = StrEncoding::new_unchecked("i");
    assert!(matches!(enc.descriptor(), Descriptor::Primitive(Primitive::Int)));

    let enc = StrEncoding::new_unchecked("^i");
    match enc.descriptor() {
        Descriptor::Pointer(p) => assert_eq!(p.as_str(), "^i"),
        _ => panic!("expected a pointer descriptor"),
    }

    let enc = StrEncoding::new_unchecked("{A=ci}");
    match enc.descriptor() {
        Descriptor::Struct(s) => assert_eq!(s.as_str(), "{A=ci}"),
        _ => panic!("expected a struct descriptor"),
    }
}

#[test]
fn pointer_pointee_drops_the_tag() {
    let p = StrPointerEncoding::new_unchecked("^{C=c}");
    assert_eq!(p.pointee().as_str(), "{C=c}");
}

#[test]
fn struct_name_runs_to_the_separator() {
    let s = StrStructEncoding::new_unchecked("{Pair=ci}");
    assert_eq!(s.name(), "Pair");

    let s = StrStructEncoding::new_unchecked("{Outer={Inner=c}i}");
    assert_eq!(s.name(), "Outer");
}

#[test]
fn fields_eq_matches_exact_field_list() {
    let s = StrStructEncoding::new_unchecked("{A=ci^{C=c}}");
    let comp = ExpectedFieldsComparator::new(vec![
        "c".to_string(),
        "i".to_string(),
        "^{C=c}".to_string(),
    ]);
    assert!(s.fields_eq(comp));

    let comp = ExpectedFieldsComparator::new(vec!["c".to_string(), "i".to_string()]);
    assert!(!s.fields_eq(comp));

    let comp = ExpectedFieldsComparator::new(vec![
        "c".to_string(),
        "i".to_string(),
        "^{C=c}".to_string(),
        "c".to_string(),
    ]);
    assert!(!s.fields_eq(comp));

    let comp = ExpectedFieldsComparator::new(vec![
        "c".to_string(),
        "c".to_string(),
        "^{C=c}".to_string(),
    ]);
    assert!(!s.fields_eq(comp));
}

#[test]
fn fields_eq_empty_fields() {
    let s = StrStructEncoding::new_unchecked("{A=}");
    let comp = ExpectedFieldsComparator::new(Vec::new());
    assert!(s.fields_eq(comp));

    let comp = ExpectedFieldsComparator::new(vec!["c".to_string()]);
    assert!(!s.fields_eq(comp));
}

#[test]
fn string_encoding_round_trip() {
    let enc = StringEncoding::new_unchecked("{A=ci}".to_string());
    assert_eq!(enc.as_str(), "{A=ci}");
}
