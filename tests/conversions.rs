use look_inside::enums::{
    Enum, EnumUnitVariant, EnumVariant, EnumVariantWithNamedFields, EnumVariantWithUnitFields,
    EnumVariantWithUnnamedFields,
};
use look_inside::error::ConversionError;
use look_inside::fields::{NamedField, UnitField, UnnamedField};
use look_inside::node::{DeclarationData, DeclarationNode, FieldNode, FieldsNode, VariantNode};
use look_inside::structs::{Struct, StructWithNamedFields, StructWithUnnamedFields, UnitStruct};
use look_inside::unions::Union;

fn attrs(text: &str) -> Vec<syn::Attribute> {
    syn::parse_str::<syn::DeriveInput>(&format!("{} struct S;", text))
        .unwrap()
        .attrs
}

fn vis(text: &str) -> syn::Visibility {
    syn::parse_str::<syn::Visibility>(text).unwrap()
}

fn ident(text: &str) -> syn::Ident {
    syn::parse_str::<syn::Ident>(text).unwrap()
}

fn ty(text: &str) -> syn::Type {
    syn::parse_str::<syn::Type>(text).unwrap()
}

fn generics(text: &str) -> syn::Generics {
    syn::parse_str::<syn::Generics>(text).unwrap()
}

fn field(attributes: &str, visibility: &str, name: Option<&str>, field_type: &str) -> FieldNode {
    FieldNode {
        attributes: attrs(attributes),
        visibility: vis(visibility),
        identifier: name.map(ident),
        field_type: ty(field_type),
    }
}

fn named_pair() -> Vec<FieldNode> {
    vec![
        field("#[serde(rename = \"ex\")]", "pub", Some("x"), "i32"),
        field("", "pub(crate)", Some("y"), "Vec<u8>"),
    ]
}

fn unnamed_pair() -> Vec<FieldNode> {
    vec![field("#[doc = \"first\"]", "pub", None, "i32"), field("", "pub(crate)", None, "String")]
}

fn declaration(data: DeclarationData) -> DeclarationNode {
    DeclarationNode {
        attributes: attrs("#[derive(Debug)] #[repr(C)]"),
        visibility: vis("pub"),
        identifier: ident("Point"),
        generics: generics("<'a, T: Clone>"),
        data,
    }
}

fn variant(name: &str, fields: FieldsNode) -> VariantNode {
    VariantNode { attributes: attrs("#[default]"), identifier: ident(name), fields }
}

fn three_variant_enum() -> DeclarationNode {
    declaration(DeclarationData::Enum(vec![
        variant("A", FieldsNode::Unit),
        variant("B", FieldsNode::Unnamed(unnamed_pair())),
        variant("C", FieldsNode::Named(named_pair())),
    ]))
}

fn assert_header(
    attributes: &Vec<syn::Attribute>,
    visibility: &syn::Visibility,
    identifier: &syn::Ident,
    generic_params: &syn::Generics,
) {
    assert_eq!(*attributes, attrs("#[derive(Debug)] #[repr(C)]"));
    assert_eq!(*visibility, vis("pub"));
    assert_eq!(*identifier, ident("Point"));
    assert_eq!(*generic_params, generics("<'a, T: Clone>"));
}

#[test]
fn unit_field_keeps_only_attributes() {
    let f = UnitField::new(field("#[a] #[b]", "pub", Some("x"), "u8"));
    assert_eq!(f.attributes, attrs("#[a] #[b]"));
}

#[test]
fn unnamed_field_keeps_attributes_visibility_and_type() {
    let f = UnnamedField::new(field("#[a]", "pub(crate)", Some("ignored"), "Option<u8>"));
    assert_eq!(f.attributes, attrs("#[a]"));
    assert_eq!(f.visibility, vis("pub(crate)"));
    assert_eq!(f.field_type, ty("Option<u8>"));
}

#[test]
fn named_field_keeps_every_part() {
    let f = NamedField::new(field("#[a]", "pub", Some("count"), "usize")).unwrap();
    assert_eq!(f.attributes, attrs("#[a]"));
    assert_eq!(f.visibility, vis("pub"));
    assert_eq!(f.identifier, "count");
    assert_eq!(f.field_type, ty("usize"));
}

#[test]
fn named_field_without_identifier_is_rejected() {
    let r = NamedField::new(field("#[a]", "pub", None, "usize"));
    assert_eq!(r, Err(ConversionError::MissingIdentifier));
}

#[test]
fn named_struct_copies_header_and_fields() {
    let s = StructWithNamedFields::new(declaration(DeclarationData::Struct(FieldsNode::Named(
        named_pair(),
    ))))
    .unwrap();
    assert_header(&s.attributes, &s.visibility, &s.ident, &s.generics);
    assert_eq!(s.fields.len(), 2);
    assert_eq!(s.fields[0].identifier, "x");
    assert_eq!(s.fields[0].attributes, attrs("#[serde(rename = \"ex\")]"));
    assert_eq!(s.fields[0].visibility, vis("pub"));
    assert_eq!(s.fields[0].field_type, ty("i32"));
    assert_eq!(s.fields[1].identifier, "y");
    assert!(s.fields[1].attributes.is_empty());
    assert_eq!(s.fields[1].visibility, vis("pub(crate)"));
    assert_eq!(s.fields[1].field_type, ty("Vec<u8>"));
}

#[test]
fn named_struct_with_empty_field_list() {
    let s = StructWithNamedFields::new(declaration(DeclarationData::Struct(FieldsNode::Named(
        Vec::new(),
    ))))
    .unwrap();
    assert!(s.fields.is_empty());
    assert_eq!(s.ident, "Point");
}

#[test]
fn named_struct_with_nameless_field_is_rejected() {
    let fields = vec![field("", "pub", Some("x"), "i32"), field("", "pub", None, "i32")];
    let r = StructWithNamedFields::new(declaration(DeclarationData::Struct(FieldsNode::Named(
        fields,
    ))));
    assert_eq!(r, Err(ConversionError::MissingIdentifier));
}

#[test]
fn named_constructor_rejects_unnamed_fields() {
    let r = StructWithNamedFields::new(declaration(DeclarationData::Struct(
        FieldsNode::Unnamed(unnamed_pair()),
    )));
    assert_eq!(r, Err(ConversionError::WrongFieldShape));
}

#[test]
fn named_constructor_rejects_unit_struct() {
    let r = StructWithNamedFields::new(declaration(DeclarationData::Struct(FieldsNode::Unit)));
    assert_eq!(r, Err(ConversionError::WrongFieldShape));
}

#[test]
fn unnamed_constructor_rejects_named_fields() {
    let r = StructWithUnnamedFields::new(declaration(DeclarationData::Struct(
        FieldsNode::Named(named_pair()),
    )));
    assert_eq!(r, Err(ConversionError::WrongFieldShape));
}

#[test]
fn unnamed_struct_copies_header_and_fields() {
    let s = StructWithUnnamedFields::new(declaration(DeclarationData::Struct(
        FieldsNode::Unnamed(unnamed_pair()),
    )))
    .unwrap();
    assert_header(&s.attributes, &s.visibility, &s.ident, &s.generics);
    assert_eq!(s.fields.len(), 2);
    assert_eq!(s.fields[0].attributes, attrs("#[doc = \"first\"]"));
    assert_eq!(s.fields[0].visibility, vis("pub"));
    assert_eq!(s.fields[0].field_type, ty("i32"));
    assert!(s.fields[1].attributes.is_empty());
    assert_eq!(s.fields[1].visibility, vis("pub(crate)"));
    assert_eq!(s.fields[1].field_type, ty("String"));
}

#[test]
fn unit_struct_copies_header() {
    let s = UnitStruct::new(declaration(DeclarationData::Struct(FieldsNode::Unit))).unwrap();
    assert_header(&s.attributes, &s.visibility, &s.ident, &s.generics);
}

#[test]
fn struct_constructors_reject_enums_and_unions() {
    let enum_node = || declaration(DeclarationData::Enum(Vec::new()));
    let union_node = || declaration(DeclarationData::Union(named_pair()));
    let kind = ConversionError::WrongDeclarationKind;
    assert_eq!(StructWithNamedFields::new(enum_node()).unwrap_err(), kind);
    assert_eq!(StructWithNamedFields::new(union_node()).unwrap_err(), kind);
    assert_eq!(StructWithUnnamedFields::new(enum_node()).unwrap_err(), kind);
    assert_eq!(StructWithUnnamedFields::new(union_node()).unwrap_err(), kind);
    assert_eq!(UnitStruct::new(enum_node()).unwrap_err(), kind);
    assert_eq!(UnitStruct::new(union_node()).unwrap_err(), kind);
    assert_eq!(Struct::new(enum_node()).unwrap_err(), kind);
    assert_eq!(Struct::new(union_node()).unwrap_err(), kind);
}

#[test]
fn struct_picks_the_record_of_its_shape() {
    let unit = Struct::new(declaration(DeclarationData::Struct(FieldsNode::Unit))).unwrap();
    assert!(matches!(unit, Struct::Unit(_)));
    let named =
        Struct::new(declaration(DeclarationData::Struct(FieldsNode::Named(named_pair()))));
    match named.unwrap() {
        Struct::Named(s) => {
            assert_eq!(s.fields.len(), 2);
            assert_eq!(s.fields[1].identifier, "y");
        }
        _ => panic!("expected a struct with named fields"),
    }
    let unnamed =
        Struct::new(declaration(DeclarationData::Struct(FieldsNode::Unnamed(unnamed_pair()))));
    match unnamed.unwrap() {
        Struct::Unnamed(s) => assert_eq!(s.fields[1].field_type, ty("String")),
        _ => panic!("expected a struct with unnamed fields"),
    }
    let nameless = vec![field("", "pub", None, "i32")];
    let r = Struct::new(declaration(DeclarationData::Struct(FieldsNode::Named(nameless))));
    assert_eq!(r, Err(ConversionError::MissingIdentifier));
}

#[test]
fn union_converts_named_fields() {
    let u = Union::new(declaration(DeclarationData::Union(named_pair()))).unwrap();
    assert_header(&u.attributes, &u.visibility, &u.identifier, &u.generics);
    assert_eq!(u.fields.len(), 2);
    assert_eq!(u.fields[0].identifier, "x");
    assert_eq!(u.fields[1].identifier, "y");
    assert_eq!(u.fields[1].field_type, ty("Vec<u8>"));
}

#[test]
fn union_rejects_structs_and_enums() {
    let kind = Err(ConversionError::WrongDeclarationKind);
    let s = declaration(DeclarationData::Struct(FieldsNode::Named(named_pair())));
    assert_eq!(Union::new(s), kind);
    let s = declaration(DeclarationData::Struct(FieldsNode::Unit));
    assert_eq!(Union::new(s), kind);
    let e = declaration(DeclarationData::Enum(vec![variant("A", FieldsNode::Unit)]));
    assert_eq!(Union::new(e), kind);
}

#[test]
fn union_with_nameless_field_is_rejected() {
    let fields = vec![field("", "pub", None, "i32")];
    let r = Union::new(declaration(DeclarationData::Union(fields)));
    assert_eq!(r, Err(ConversionError::MissingIdentifier));
}

#[test]
fn enum_with_unit_unnamed_and_named_variants() {
    let e = Enum::new(three_variant_enum()).unwrap();
    assert_header(&e.attributes, &e.visibility, &e.ident, &e.generics);
    assert_eq!(e.variants.len(), 3);
    match &e.variants[0] {
        EnumVariant::Unit(v) => {
            assert_eq!(v.identifier, "A");
            assert_eq!(v.attributes, attrs("#[default]"));
        }
        _ => panic!("expected a unit variant"),
    }
    match &e.variants[1] {
        EnumVariant::Unnamed(v) => {
            assert_eq!(v.identifier, "B");
            assert_eq!(v.fields.len(), 2);
            assert_eq!(v.fields[0].field_type, ty("i32"));
            assert_eq!(v.fields[1].field_type, ty("String"));
        }
        _ => panic!("expected a variant with unnamed fields"),
    }
    match &e.variants[2] {
        EnumVariant::Named(v) => {
            assert_eq!(v.identifier, "C");
            let names: Vec<String> = v.fields.iter().map(|f| f.identifier.to_string()).collect();
            assert_eq!(names, vec!["x".to_string(), "y".to_string()]);
        }
        _ => panic!("expected a variant with named fields"),
    }
}

#[test]
fn enum_rejects_structs_and_unions() {
    let kind = Err(ConversionError::WrongDeclarationKind);
    assert_eq!(Enum::new(declaration(DeclarationData::Struct(FieldsNode::Unit))), kind);
    assert_eq!(Enum::new(declaration(DeclarationData::Union(named_pair()))), kind);
}

#[test]
fn enum_with_nameless_named_field_is_rejected() {
    let nameless = vec![field("", "pub", None, "i32")];
    let node = declaration(DeclarationData::Enum(vec![
        variant("A", FieldsNode::Unit),
        variant("B", FieldsNode::Named(nameless)),
    ]));
    assert_eq!(Enum::new(node), Err(ConversionError::MissingIdentifier));
}

#[test]
fn empty_enum_has_no_variants() {
    let e = Enum::new(declaration(DeclarationData::Enum(Vec::new()))).unwrap();
    assert!(e.variants.is_empty());
    assert_eq!(e.ident, "Point");
}

#[test]
fn variant_constructors_keep_attributes_and_identifier() {
    let u = EnumUnitVariant::new(variant("A", FieldsNode::Unnamed(unnamed_pair())));
    assert_eq!(u.identifier, "A");
    assert_eq!(u.attributes, attrs("#[default]"));

    let v = EnumVariantWithUnnamedFields::new(variant("B", FieldsNode::Unnamed(unnamed_pair())));
    assert_eq!(v.identifier, "B");
    assert_eq!(v.fields.len(), 2);
    assert_eq!(v.fields[0].attributes, attrs("#[doc = \"first\"]"));

    let w = EnumVariantWithUnitFields::new(variant("C", FieldsNode::Named(named_pair())));
    assert_eq!(w.identifier, "C");
    assert_eq!(w.fields.len(), 2);
    assert_eq!(w.fields[0].attributes, attrs("#[serde(rename = \"ex\")]"));
    assert!(w.fields[1].attributes.is_empty());

    let empty = EnumVariantWithUnitFields::new(variant("D", FieldsNode::Unit));
    assert!(empty.fields.is_empty());
}

#[test]
fn named_variant_constructor_needs_every_name() {
    let ok = EnumVariantWithNamedFields::new(variant("C", FieldsNode::Named(named_pair())));
    let names: Vec<String> =
        ok.unwrap().fields.iter().map(|f| f.identifier.to_string()).collect();
    assert_eq!(names, vec!["x".to_string(), "y".to_string()]);
    let r = EnumVariantWithNamedFields::new(variant("B", FieldsNode::Unnamed(unnamed_pair())));
    assert_eq!(r, Err(ConversionError::MissingIdentifier));
    let unit = EnumVariantWithNamedFields::new(variant("D", FieldsNode::Unit)).unwrap();
    assert!(unit.fields.is_empty());
}

#[test]
fn variant_picks_the_record_of_its_shape() {
    let v = EnumVariant::new(variant("A", FieldsNode::Unit)).unwrap();
    assert!(matches!(v, EnumVariant::Unit(_)));
    let v = EnumVariant::new(variant("B", FieldsNode::Unnamed(unnamed_pair()))).unwrap();
    assert!(matches!(v, EnumVariant::Unnamed(_)));
    let v = EnumVariant::new(variant("C", FieldsNode::Named(named_pair()))).unwrap();
    assert!(matches!(v, EnumVariant::Named(_)));
    let nameless = vec![field("", "pub", None, "i32")];
    let r = EnumVariant::new(variant("E", FieldsNode::Named(nameless)));
    assert_eq!(r, Err(ConversionError::MissingIdentifier));
}

#[test]
fn converting_twice_gives_equal_records() {
    assert_eq!(Enum::new(three_variant_enum()), Enum::new(three_variant_enum()));
    let named = || declaration(DeclarationData::Struct(FieldsNode::Named(named_pair())));
    assert_eq!(StructWithNamedFields::new(named()), StructWithNamedFields::new(named()));
    let unnamed = || declaration(DeclarationData::Struct(FieldsNode::Unnamed(unnamed_pair())));
    assert_eq!(StructWithUnnamedFields::new(unnamed()), StructWithUnnamedFields::new(unnamed()));
    assert_eq!(Struct::new(unnamed()), Struct::new(unnamed()));
    let unit = || declaration(DeclarationData::Struct(FieldsNode::Unit));
    assert_eq!(UnitStruct::new(unit()), UnitStruct::new(unit()));
    let union = || declaration(DeclarationData::Union(named_pair()));
    assert_eq!(Union::new(union()), Union::new(union()));
}
