//! Records for struct declarations, one per shape.
use crate::error::ConversionError;
use crate::fields::{
    all_named, named_fields, unnamed_fields, NamedField, UnnamedField,
};
use crate::node::{DeclarationData, DeclarationNode, FieldNode, FieldsNode};
use vstd::prelude::*;

verus! {

/// A struct with named fields, such as `struct P { x: i32 }`.
#[derive(Debug, PartialEq)]
pub struct StructWithNamedFields {
    pub attributes: Vec<syn::Attribute>,
    pub visibility: syn::Visibility,
    pub ident: syn::Ident,
    pub generics: syn::Generics,
    pub fields: Vec<NamedField>,
}

impl StructWithNamedFields {
    /// Whether `self` and `other` are equal field by field, the field lists
    /// element by element.
    pub open spec fn same_as(self, other: Self) -> bool {
        &&& self.attributes == other.attributes
        &&& self.visibility == other.visibility
        &&& self.ident == other.ident
        &&& self.generics == other.generics
        &&& self.fields@ == other.fields@
    }

    /// Whether `self` carries the attributes, visibility, identifier and
    /// generics of `input` and the conversion of `fields`, in order.
    pub open spec fn is_record_of(self, input: DeclarationNode, fields: Seq<FieldNode>) -> bool {
        &&& self.attributes == input.attributes
        &&& self.visibility == input.visibility
        &&& self.ident == input.identifier
        &&& self.generics == input.generics
        &&& self.fields@ == fields.map_values(|f: FieldNode| NamedField::of(f))
    }

    /// Whether `r` is what `new` returns for `input`.
    pub open spec fn is_conversion_of(
        input: DeclarationNode,
        r: Result<StructWithNamedFields, ConversionError>,
    ) -> bool {
        match input.data {
            DeclarationData::Struct(FieldsNode::Named(fs)) => if all_named(fs@) {
                r matches Ok(s) && s.is_record_of(input, fs@)
            } else {
                r == Err::<StructWithNamedFields, ConversionError>(
                    ConversionError::MissingIdentifier,
                )
            },
            DeclarationData::Struct(_) => r == Err::<StructWithNamedFields, ConversionError>(
                ConversionError::WrongFieldShape,
            ),
            _ => r == Err::<StructWithNamedFields, ConversionError>(
                ConversionError::WrongDeclarationKind,
            ),
        }
    }

    /// Converts a struct declaration whose fields are named.
    ///
    /// Fails with `WrongDeclarationKind` on an enum or union, with
    /// `WrongFieldShape` on a struct whose fields are unnamed or absent, and
    /// with `MissingIdentifier` where a named field lacks its name.
    pub fn new(input: DeclarationNode) -> (r: Result<Self, ConversionError>)
        ensures
            Self::is_conversion_of(input, r),
    {
        let DeclarationNode { attributes, visibility, identifier, generics, data } = input;
        match data {
            DeclarationData::Struct(FieldsNode::Named(fs)) => match named_fields(fs) {
                Ok(fields) => Ok(
                    StructWithNamedFields {
                        attributes,
                        visibility,
                        ident: identifier,
                        generics,
                        fields,
                    },
                ),
                Err(e) => Err(e),
            },
            DeclarationData::Struct(_) => Err(ConversionError::WrongFieldShape),
            _ => Err(ConversionError::WrongDeclarationKind),
        }
    }
}

/// A struct with unnamed fields, such as `struct P(i32, i32)`.
#[derive(Debug, PartialEq)]
pub struct StructWithUnnamedFields {
    pub attributes: Vec<syn::Attribute>,
    pub visibility: syn::Visibility,
    pub ident: syn::Ident,
    pub generics: syn::Generics,
    pub fields: Vec<UnnamedField>,
}

impl StructWithUnnamedFields {
    /// Whether `self` and `other` are equal field by field, the field lists
    /// element by element.
    pub open spec fn same_as(self, other: Self) -> bool {
        &&& self.attributes == other.attributes
        &&& self.visibility == other.visibility
        &&& self.ident == other.ident
        &&& self.generics == other.generics
        &&& self.fields@ == other.fields@
    }

    /// Whether `self` carries the attributes, visibility, identifier and
    /// generics of `input` and the conversion of `fields`, in order.
    pub open spec fn is_record_of(self, input: DeclarationNode, fields: Seq<FieldNode>) -> bool {
        &&& self.attributes == input.attributes
        &&& self.visibility == input.visibility
        &&& self.ident == input.identifier
        &&& self.generics == input.generics
        &&& self.fields@ == fields.map_values(|f: FieldNode| UnnamedField::of(f))
    }

    /// Whether `r` is what `new` returns for `input`.
    pub open spec fn is_conversion_of(
        input: DeclarationNode,
        r: Result<StructWithUnnamedFields, ConversionError>,
    ) -> bool {
        match input.data {
            DeclarationData::Struct(FieldsNode::Unnamed(fs)) => r matches Ok(s)
                && s.is_record_of(input, fs@),
            DeclarationData::Struct(_) => r == Err::<StructWithUnnamedFields, ConversionError>(
                ConversionError::WrongFieldShape,
            ),
            _ => r == Err::<StructWithUnnamedFields, ConversionError>(
                ConversionError::WrongDeclarationKind,
            ),
        }
    }

    /// Converts a struct declaration whose fields are unnamed.
    ///
    /// Fails with `WrongDeclarationKind` on an enum or union, and with
    /// `WrongFieldShape` on a struct whose fields are named or absent.
    pub fn new(input: DeclarationNode) -> (r: Result<Self, ConversionError>)
        ensures
            Self::is_conversion_of(input, r),
    {
        let DeclarationNode { attributes, visibility, identifier, generics, data } = input;
        match data {
            DeclarationData::Struct(FieldsNode::Unnamed(fs)) => Ok(
                StructWithUnnamedFields {
                    attributes,
                    visibility,
                    ident: identifier,
                    generics,
                    fields: unnamed_fields(fs),
                },
            ),
            DeclarationData::Struct(_) => Err(ConversionError::WrongFieldShape),
            _ => Err(ConversionError::WrongDeclarationKind),
        }
    }
}

/// A struct without fields, such as `struct P;`.
#[derive(Debug, PartialEq)]
pub struct UnitStruct {
    pub attributes: Vec<syn::Attribute>,
    pub visibility: syn::Visibility,
    pub ident: syn::Ident,
    pub generics: syn::Generics,
}

impl UnitStruct {
    /// Whether `self` and `other` are equal field by field.
    pub open spec fn same_as(self, other: Self) -> bool {
        &&& self.attributes == other.attributes
        &&& self.visibility == other.visibility
        &&& self.ident == other.ident
        &&& self.generics == other.generics
    }

    /// Whether `self` carries the attributes, visibility, identifier and
    /// generics of `input`.
    pub open spec fn is_record_of(self, input: DeclarationNode) -> bool {
        &&& self.attributes == input.attributes
        &&& self.visibility == input.visibility
        &&& self.ident == input.identifier
        &&& self.generics == input.generics
    }

    /// Whether `r` is what `new` returns for `input`.
    pub open spec fn is_conversion_of(
        input: DeclarationNode,
        r: Result<UnitStruct, ConversionError>,
    ) -> bool {
        match input.data {
            DeclarationData::Struct(_) => r matches Ok(s) && s.is_record_of(input),
            _ => r == Err::<UnitStruct, ConversionError>(ConversionError::WrongDeclarationKind),
        }
    }

    /// Converts a struct declaration, keeping everything but its fields.
    ///
    /// Fails with `WrongDeclarationKind` on an enum or union. The shape of
    /// the field list is not checked.
    pub fn new(input: DeclarationNode) -> (r: Result<Self, ConversionError>)
        ensures
            Self::is_conversion_of(input, r),
    {
        let DeclarationNode { attributes, visibility, identifier, generics, data } = input;
        match data {
            DeclarationData::Struct(_) => Ok(
                UnitStruct { attributes, visibility, ident: identifier, generics },
            ),
            _ => Err(ConversionError::WrongDeclarationKind),
        }
    }
}

/// A struct declaration of any shape.
#[derive(Debug, PartialEq)]
pub enum Struct {
    Unit(UnitStruct),
    Named(StructWithNamedFields),
    Unnamed(StructWithUnnamedFields),
}

impl Struct {
    /// Whether `self` and `other` have the same shape and are equal field by
    /// field, the field lists element by element.
    pub open spec fn same_as(self, other: Self) -> bool {
        match (self, other) {
            (Struct::Unit(a), Struct::Unit(b)) => a.same_as(b),
            (Struct::Named(a), Struct::Named(b)) => a.same_as(b),
            (Struct::Unnamed(a), Struct::Unnamed(b)) => a.same_as(b),
            _ => false,
        }
    }

    /// Whether `r` is what `new` returns for `input`.
    pub open spec fn is_conversion_of(
        input: DeclarationNode,
        r: Result<Struct, ConversionError>,
    ) -> bool {
        match input.data {
            DeclarationData::Struct(FieldsNode::Unit) => r matches Ok(Struct::Unit(s))
                && s.is_record_of(input),
            DeclarationData::Struct(FieldsNode::Named(fs)) => if all_named(fs@) {
                r matches Ok(Struct::Named(s)) && s.is_record_of(input, fs@)
            } else {
                r == Err::<Struct, ConversionError>(ConversionError::MissingIdentifier)
            },
            DeclarationData::Struct(FieldsNode::Unnamed(fs)) => r matches Ok(
                Struct::Unnamed(s),
            ) && s.is_record_of(input, fs@),
            _ => r == Err::<Struct, ConversionError>(ConversionError::WrongDeclarationKind),
        }
    }

    /// Converts a struct declaration with the record that matches the shape
    /// of its field list.
    ///
    /// Fails with `WrongDeclarationKind` on an enum or union, and with
    /// `MissingIdentifier` where a named field lacks its name.
    pub fn new(input: DeclarationNode) -> (r: Result<Self, ConversionError>)
        ensures
            Self::is_conversion_of(input, r),
    {
        match input.data {
            DeclarationData::Struct(FieldsNode::Unit) => match UnitStruct::new(input) {
                Ok(s) => Ok(Struct::Unit(s)),
                Err(e) => Err(e),
            },
            DeclarationData::Struct(FieldsNode::Named(_)) => match StructWithNamedFields::new(
                input,
            ) {
                Ok(s) => Ok(Struct::Named(s)),
                Err(e) => Err(e),
            },
            DeclarationData::Struct(FieldsNode::Unnamed(_)) => match StructWithUnnamedFields::new(
                input,
            ) {
                Ok(s) => Ok(Struct::Unnamed(s)),
                Err(e) => Err(e),
            },
            _ => Err(ConversionError::WrongDeclarationKind),
        }
    }
}

/// Converting the same declaration twice gives the same outcome: the same
/// error, or two records that are equal field by field.
pub proof fn lemma_named_struct_conversion_deterministic(
    input: DeclarationNode,
    r1: Result<StructWithNamedFields, ConversionError>,
    r2: Result<StructWithNamedFields, ConversionError>,
)
    requires
        StructWithNamedFields::is_conversion_of(input, r1),
        StructWithNamedFields::is_conversion_of(input, r2),
    ensures
        match (r1, r2) {
            (Ok(a), Ok(b)) => a.same_as(b),
            (Err(x), Err(y)) => x == y,
            _ => false,
        },
{
}

/// Converting the same declaration twice gives the same outcome: the same
/// error, or two records that are equal field by field.
pub proof fn lemma_unnamed_struct_conversion_deterministic(
    input: DeclarationNode,
    r1: Result<StructWithUnnamedFields, ConversionError>,
    r2: Result<StructWithUnnamedFields, ConversionError>,
)
    requires
        StructWithUnnamedFields::is_conversion_of(input, r1),
        StructWithUnnamedFields::is_conversion_of(input, r2),
    ensures
        match (r1, r2) {
            (Ok(a), Ok(b)) => a.same_as(b),
            (Err(x), Err(y)) => x == y,
            _ => false,
        },
{
}

/// Converting the same declaration twice gives the same outcome: the same
/// error, or two records that are equal field by field.
pub proof fn lemma_unit_struct_conversion_deterministic(
    input: DeclarationNode,
    r1: Result<UnitStruct, ConversionError>,
    r2: Result<UnitStruct, ConversionError>,
)
    requires
        UnitStruct::is_conversion_of(input, r1),
        UnitStruct::is_conversion_of(input, r2),
    ensures
        match (r1, r2) {
            (Ok(a), Ok(b)) => a.same_as(b),
            (Err(x), Err(y)) => x == y,
            _ => false,
        },
{
}

/// Converting the same declaration twice gives the same outcome: the same
/// error, or two records that are equal field by field.
pub proof fn lemma_struct_conversion_deterministic(
    input: DeclarationNode,
    r1: Result<Struct, ConversionError>,
    r2: Result<Struct, ConversionError>,
)
    requires
        Struct::is_conversion_of(input, r1),
        Struct::is_conversion_of(input, r2),
    ensures
        match (r1, r2) {
            (Ok(a), Ok(b)) => a.same_as(b),
            (Err(x), Err(y)) => x == y,
            _ => false,
        },
{
}

} // verus!
