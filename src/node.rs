//! The declaration node that the conversions take apart.
//!
//! It holds as plain values what the classification reads (the kind of the
//! declaration, the shape of each field list, whether a field has a name)
//! and carries the syntax values themselves opaquely.
use vstd::prelude::*;

verus! {

/// One field of a struct, union or enum variant.
#[derive(Debug, PartialEq)]
pub struct FieldNode {
    pub attributes: Vec<syn::Attribute>,
    pub visibility: syn::Visibility,
    /// The field's name; tuple fields have none.
    pub identifier: Option<syn::Ident>,
    pub field_type: syn::Type,
}

/// A field list, tagged with its shape.
#[derive(Debug, PartialEq)]
pub enum FieldsNode {
    /// Fields written `{ a: A, b: B }`.
    Named(Vec<FieldNode>),
    /// Fields written `(A, B)`.
    Unnamed(Vec<FieldNode>),
    /// No field list at all.
    Unit,
}

impl FieldsNode {
    /// The fields of the list in declaration order, whatever its shape.
    pub open spec fn fields(self) -> Seq<FieldNode> {
        match self {
            FieldsNode::Named(v) => v@,
            FieldsNode::Unnamed(v) => v@,
            FieldsNode::Unit => Seq::empty(),
        }
    }

    /// Takes the fields out of the list in declaration order.
    pub fn into_fields(self) -> (r: Vec<FieldNode>)
        ensures
            r@ == self.fields(),
    {
        match self {
            FieldsNode::Named(v) => v,
            FieldsNode::Unnamed(v) => v,
            FieldsNode::Unit => Vec::new(),
        }
    }
}

/// One variant of an enum.
#[derive(Debug, PartialEq)]
pub struct VariantNode {
    pub attributes: Vec<syn::Attribute>,
    pub identifier: syn::Ident,
    pub fields: FieldsNode,
}

/// What a declaration defines, tagged with its kind.
#[derive(Debug, PartialEq)]
pub enum DeclarationData {
    Struct(FieldsNode),
    Enum(Vec<VariantNode>),
    /// A union's fields are always named.
    Union(Vec<FieldNode>),
}

/// A whole struct, enum or union declaration.
#[derive(Debug, PartialEq)]
pub struct DeclarationNode {
    pub attributes: Vec<syn::Attribute>,
    pub visibility: syn::Visibility,
    pub identifier: syn::Ident,
    pub generics: syn::Generics,
    pub data: DeclarationData,
}

} // verus!
