//! The record for a union declaration.
use crate::error::ConversionError;
use crate::fields::{all_named, named_fields, NamedField};
use crate::node::{DeclarationData, DeclarationNode, FieldNode};
use vstd::prelude::*;

verus! {

/// A union, whose fields are always named.
#[derive(Debug, PartialEq)]
pub struct Union {
    pub attributes: Vec<syn::Attribute>,
    pub visibility: syn::Visibility,
    pub identifier: syn::Ident,
    pub generics: syn::Generics,
    pub fields: Vec<NamedField>,
}

impl Union {
    /// Whether `self` and `other` are equal field by field, the field lists
    /// element by element.
    pub open spec fn same_as(self, other: Self) -> bool {
        &&& self.attributes == other.attributes
        &&& self.visibility == other.visibility
        &&& self.identifier == other.identifier
        &&& self.generics == other.generics
        &&& self.fields@ == other.fields@
    }

    /// Whether `self` carries the attributes, visibility, identifier and
    /// generics of `input` and the conversion of `fields`, in order.
    pub open spec fn is_record_of(self, input: DeclarationNode, fields: Seq<FieldNode>) -> bool {
        &&& self.attributes == input.attributes
        &&& self.visibility == input.visibility
        &&& self.identifier == input.identifier
        &&& self.generics == input.generics
        &&& self.fields@ == fields.map_values(|f: FieldNode| NamedField::of(f))
    }

    /// Whether `r` is what `new` returns for `input`.
    pub open spec fn is_conversion_of(
        input: DeclarationNode,
        r: Result<Union, ConversionError>,
    ) -> bool {
        match input.data {
            DeclarationData::Union(fs) => if all_named(fs@) {
                r matches Ok(u) && u.is_record_of(input, fs@)
            } else {
                r == Err::<Union, ConversionError>(ConversionError::MissingIdentifier)
            },
            _ => r == Err::<Union, ConversionError>(ConversionError::WrongDeclarationKind),
        }
    }

    /// Converts a union declaration.
    ///
    /// Fails with `WrongDeclarationKind` on a struct or enum, and with
    /// `MissingIdentifier` where a field lacks its name.
    pub fn new(input: DeclarationNode) -> (r: Result<Self, ConversionError>)
        ensures
            Self::is_conversion_of(input, r),
    {
        let DeclarationNode { attributes, visibility, identifier, generics, data } = input;
        match data {
            DeclarationData::Union(fs) => match named_fields(fs) {
                Ok(fields) => Ok(Union { attributes, visibility, identifier, generics, fields }),
                Err(e) => Err(e),
            },
            _ => Err(ConversionError::WrongDeclarationKind),
        }
    }
}

/// Converting the same declaration twice gives the same outcome: the same
/// error, or two records that are equal field by field.
pub proof fn lemma_union_conversion_deterministic(
    input: DeclarationNode,
    r1: Result<Union, ConversionError>,
    r2: Result<Union, ConversionError>,
)
    requires
        Union::is_conversion_of(input, r1),
        Union::is_conversion_of(input, r2),
    ensures
        match (r1, r2) {
            (Ok(a), Ok(b)) => a.same_as(b),
            (Err(x), Err(y)) => x == y,
            _ => false,
        },
{
}

} // verus!
