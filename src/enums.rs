//! Records for enum declarations and their variants.
use crate::error::ConversionError;
use crate::fields::{
    all_named, named_fields, unit_fields, unnamed_fields, NamedField, UnitField, UnnamedField,
};
use crate::node::{DeclarationData, DeclarationNode, FieldNode, FieldsNode, VariantNode};
use vstd::prelude::*;

verus! {

/// A variant without fields, such as `None`.
#[derive(Debug, PartialEq)]
pub struct EnumUnitVariant {
    pub attributes: Vec<syn::Attribute>,
    pub identifier: syn::Ident,
}

impl EnumUnitVariant {
    /// Whether `self` carries the attributes and identifier of `variant`.
    pub open spec fn is_record_of(self, variant: VariantNode) -> bool {
        &&& self.attributes == variant.attributes
        &&& self.identifier == variant.identifier
    }

    /// Keeps the attributes and identifier of `variant`, dropping its fields.
    pub fn new(variant: VariantNode) -> (r: Self)
        ensures
            r.is_record_of(variant),
    {
        EnumUnitVariant { attributes: variant.attributes, identifier: variant.identifier }
    }
}

/// A variant with unnamed fields, such as `Some(T)`.
#[derive(Debug, PartialEq)]
pub struct EnumVariantWithUnnamedFields {
    pub attributes: Vec<syn::Attribute>,
    pub identifier: syn::Ident,
    pub fields: Vec<UnnamedField>,
}

impl EnumVariantWithUnnamedFields {
    /// Whether `self` and `other` are equal field by field, the field lists
    /// element by element.
    pub open spec fn same_as(self, other: Self) -> bool {
        &&& self.attributes == other.attributes
        &&& self.identifier == other.identifier
        &&& self.fields@ == other.fields@
    }

    /// Whether `self` carries the attributes and identifier of `variant` and
    /// the conversion of its fields, in order.
    pub open spec fn is_record_of(self, variant: VariantNode) -> bool {
        &&& self.attributes == variant.attributes
        &&& self.identifier == variant.identifier
        &&& self.fields@ == variant.fields.fields().map_values(|f: FieldNode| UnnamedField::of(f))
    }

    /// Keeps the attributes and identifier of `variant` and converts each of
    /// its fields to an `UnnamedField`.
    pub fn new(variant: VariantNode) -> (r: Self)
        ensures
            r.is_record_of(variant),
    {
        EnumVariantWithUnnamedFields {
            attributes: variant.attributes,
            identifier: variant.identifier,
            fields: unnamed_fields(variant.fields.into_fields()),
        }
    }
}

/// A variant with named fields, such as `Point { x: i32, y: i32 }`.
#[derive(Debug, PartialEq)]
pub struct EnumVariantWithNamedFields {
    pub attributes: Vec<syn::Attribute>,
    pub identifier: syn::Ident,
    pub fields: Vec<NamedField>,
}

impl EnumVariantWithNamedFields {
    /// Whether `self` and `other` are equal field by field, the field lists
    /// element by element.
    pub open spec fn same_as(self, other: Self) -> bool {
        &&& self.attributes == other.attributes
        &&& self.identifier == other.identifier
        &&& self.fields@ == other.fields@
    }

    /// Whether `self` carries the attributes and identifier of `variant` and
    /// the conversion of its fields, in order.
    pub open spec fn is_record_of(self, variant: VariantNode) -> bool {
        &&& self.attributes == variant.attributes
        &&& self.identifier == variant.identifier
        &&& self.fields@ == variant.fields.fields().map_values(|f: FieldNode| NamedField::of(f))
    }

    /// Keeps the attributes and identifier of `variant` and converts each of
    /// its fields to a `NamedField`; fails with `MissingIdentifier` exactly
    /// when one of them has no name.
    pub fn new(variant: VariantNode) -> (r: Result<Self, ConversionError>)
        ensures
            r is Ok <==> all_named(variant.fields.fields()),
            r matches Ok(v) ==> v.is_record_of(variant),
            r matches Err(e) ==> e == ConversionError::MissingIdentifier,
    {
        let VariantNode { attributes, identifier, fields } = variant;
        match named_fields(fields.into_fields()) {
            Ok(fields) => Ok(EnumVariantWithNamedFields { attributes, identifier, fields }),
            Err(e) => Err(e),
        }
    }
}

/// A variant of which only the attributes of each field are kept.
#[derive(Debug, PartialEq)]
pub struct EnumVariantWithUnitFields {
    pub attributes: Vec<syn::Attribute>,
    pub identifier: syn::Ident,
    pub fields: Vec<UnitField>,
}

impl EnumVariantWithUnitFields {
    /// Whether `self` carries the attributes and identifier of `variant` and
    /// the conversion of its fields, in order.
    pub open spec fn is_record_of(self, variant: VariantNode) -> bool {
        &&& self.attributes == variant.attributes
        &&& self.identifier == variant.identifier
        &&& self.fields@ == variant.fields.fields().map_values(|f: FieldNode| UnitField::of(f))
    }

    /// Keeps the attributes and identifier of `variant` and converts each of
    /// its fields to a `UnitField`.
    pub fn new(variant: VariantNode) -> (r: Self)
        ensures
            r.is_record_of(variant),
    {
        EnumVariantWithUnitFields {
            attributes: variant.attributes,
            identifier: variant.identifier,
            fields: unit_fields(variant.fields.into_fields()),
        }
    }
}

/// A variant of any shape.
#[derive(Debug, PartialEq)]
pub enum EnumVariant {
    Unit(EnumUnitVariant),
    Unnamed(EnumVariantWithUnnamedFields),
    Named(EnumVariantWithNamedFields),
}

/// Whether `variant` can be converted: a variant with named fields needs a
/// name on each of them.
pub open spec fn convertible(variant: VariantNode) -> bool {
    variant.fields matches FieldsNode::Named(fs) ==> all_named(fs@)
}

impl EnumVariant {
    /// Whether `self` and `other` have the same shape and are equal field by
    /// field, the field lists element by element.
    pub open spec fn same_as(self, other: Self) -> bool {
        match (self, other) {
            (EnumVariant::Unit(a), EnumVariant::Unit(b)) => a == b,
            (EnumVariant::Unnamed(a), EnumVariant::Unnamed(b)) => a.same_as(b),
            (EnumVariant::Named(a), EnumVariant::Named(b)) => a.same_as(b),
            _ => false,
        }
    }

    /// Whether `self` is the record of the shape of `variant`, carrying its
    /// attributes, identifier and converted fields.
    pub open spec fn is_record_of(self, variant: VariantNode) -> bool {
        match variant.fields {
            FieldsNode::Unit => self matches EnumVariant::Unit(v) && v.is_record_of(variant),
            FieldsNode::Unnamed(_) => self matches EnumVariant::Unnamed(v) && v.is_record_of(
                variant,
            ),
            FieldsNode::Named(_) => self matches EnumVariant::Named(v) && v.is_record_of(variant),
        }
    }

    /// Converts `variant` with the record that matches the shape of its
    /// field list; fails with `MissingIdentifier` where a named field lacks
    /// its name.
    pub fn new(variant: VariantNode) -> (r: Result<Self, ConversionError>)
        ensures
            r is Ok <==> convertible(variant),
            r matches Ok(v) ==> v.is_record_of(variant),
            r matches Err(e) ==> e == ConversionError::MissingIdentifier,
    {
        match variant.fields {
            FieldsNode::Unit => Ok(EnumVariant::Unit(EnumUnitVariant::new(variant))),
            FieldsNode::Unnamed(_) => Ok(
                EnumVariant::Unnamed(EnumVariantWithUnnamedFields::new(variant)),
            ),
            FieldsNode::Named(_) => match EnumVariantWithNamedFields::new(variant) {
                Ok(v) => Ok(EnumVariant::Named(v)),
                Err(e) => Err(e),
            },
        }
    }
}

/// An enum, with its variants converted one by one.
#[derive(Debug, PartialEq)]
pub struct Enum {
    pub attributes: Vec<syn::Attribute>,
    pub visibility: syn::Visibility,
    pub ident: syn::Ident,
    pub generics: syn::Generics,
    pub variants: Vec<EnumVariant>,
}

/// Whether every variant of `variants` can be converted.
pub open spec fn all_convertible(variants: Seq<VariantNode>) -> bool {
    forall|i: int| 0 <= i < variants.len() ==> convertible(#[trigger] variants[i])
}

impl Enum {
    /// Whether `self` and `other` are equal field by field, the variants
    /// element by element.
    pub open spec fn same_as(self, other: Self) -> bool {
        &&& self.attributes == other.attributes
        &&& self.visibility == other.visibility
        &&& self.ident == other.ident
        &&& self.generics == other.generics
        &&& self.variants@.len() == other.variants@.len()
        &&& forall|i: int|
            0 <= i < self.variants@.len() ==> (#[trigger] self.variants@[i]).same_as(
                other.variants@[i],
            )
    }

    /// Whether `self` carries the attributes, visibility, identifier and
    /// generics of `input` and, in order, the record of each of `variants`.
    pub open spec fn is_record_of(
        self,
        input: DeclarationNode,
        variants: Seq<VariantNode>,
    ) -> bool {
        &&& self.attributes == input.attributes
        &&& self.visibility == input.visibility
        &&& self.ident == input.identifier
        &&& self.generics == input.generics
        &&& self.variants@.len() == variants.len()
        &&& forall|i: int|
            0 <= i < variants.len() ==> (#[trigger] self.variants@[i]).is_record_of(variants[i])
    }

    /// Whether `r` is what `new` returns for `input`.
    pub open spec fn is_conversion_of(
        input: DeclarationNode,
        r: Result<Enum, ConversionError>,
    ) -> bool {
        match input.data {
            DeclarationData::Enum(vs) => if all_convertible(vs@) {
                r matches Ok(e) && e.is_record_of(input, vs@)
            } else {
                r == Err::<Enum, ConversionError>(ConversionError::MissingIdentifier)
            },
            _ => r == Err::<Enum, ConversionError>(ConversionError::WrongDeclarationKind),
        }
    }

    /// Converts an enum declaration, classifying each variant by the shape
    /// of its own field list.
    ///
    /// Fails with `WrongDeclarationKind` on a struct or union, and with
    /// `MissingIdentifier` where a named field of a variant lacks its name.
    pub fn new(input: DeclarationNode) -> (r: Result<Self, ConversionError>)
        ensures
            Self::is_conversion_of(input, r),
    {
        let DeclarationNode { attributes, visibility, identifier, generics, data } = input;
        let vs = match data {
            DeclarationData::Enum(vs) => vs,
            _ => return Err(ConversionError::WrongDeclarationKind),
        };
        let ghost nodes = vs@;
        let mut variants: Vec<EnumVariant> = Vec::new();
        for variant in it: vs.into_iter()
            invariant
                it.seq() == nodes,
                input.data matches DeclarationData::Enum(w) && w@ == nodes,
                variants@.len() == it.index(),
                forall|j: int| 0 <= j < it.index() ==> convertible(#[trigger] nodes[j]),
                forall|j: int|
                    0 <= j < it.index() ==> (#[trigger] variants@[j]).is_record_of(nodes[j]),
        {
            match EnumVariant::new(variant) {
                Ok(v) => variants.push(v),
                Err(e) => {
                    assert(!convertible(nodes[it.index() as int]));
                    return Err(e);
                },
            }
        }
        Ok(Enum { attributes, visibility, ident: identifier, generics, variants })
    }
}

/// Converting the same declaration twice gives the same outcome: the same
/// error, or two records that are equal field by field.
pub proof fn lemma_enum_conversion_deterministic(
    input: DeclarationNode,
    r1: Result<Enum, ConversionError>,
    r2: Result<Enum, ConversionError>,
)
    requires
        Enum::is_conversion_of(input, r1),
        Enum::is_conversion_of(input, r2),
    ensures
        match (r1, r2) {
            (Ok(a), Ok(b)) => a.same_as(b),
            (Err(x), Err(y)) => x == y,
            _ => false,
        },
{
}

} // verus!
