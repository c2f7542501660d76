//! Records for single fields, in three shapes.
use crate::error::ConversionError;
use crate::node::FieldNode;
use vstd::prelude::*;

verus! {

/// A field of which only the attributes are kept.
#[derive(Debug, PartialEq)]
pub struct UnitField {
    pub attributes: Vec<syn::Attribute>,
}

impl UnitField {
    /// The record that `new` builds from `field`.
    pub open spec fn of(field: FieldNode) -> UnitField {
        UnitField { attributes: field.attributes }
    }

    /// Keeps the attributes of `field`, dropping the rest.
    pub fn new(field: FieldNode) -> (r: Self)
        ensures
            r == Self::of(field),
    {
        UnitField { attributes: field.attributes }
    }
}

/// A field with a type and no name, as in a tuple struct.
#[derive(Debug, PartialEq)]
pub struct UnnamedField {
    pub attributes: Vec<syn::Attribute>,
    pub visibility: syn::Visibility,
    pub field_type: syn::Type,
}

impl UnnamedField {
    /// The record that `new` builds from `field`.
    pub open spec fn of(field: FieldNode) -> UnnamedField {
        UnnamedField {
            attributes: field.attributes,
            visibility: field.visibility,
            field_type: field.field_type,
        }
    }

    /// Keeps the attributes, visibility and type of `field`; a name, if it
    /// has one, is dropped.
    pub fn new(field: FieldNode) -> (r: Self)
        ensures
            r == Self::of(field),
    {
        UnnamedField {
            attributes: field.attributes,
            visibility: field.visibility,
            field_type: field.field_type,
        }
    }
}

/// A field with a name and a type.
#[derive(Debug, PartialEq)]
pub struct NamedField {
    pub attributes: Vec<syn::Attribute>,
    pub visibility: syn::Visibility,
    pub identifier: syn::Ident,
    pub field_type: syn::Type,
}

impl NamedField {
    /// The record that `new` builds from a `field` that has a name.
    pub open spec fn of(field: FieldNode) -> NamedField
        recommends
            field.identifier is Some,
    {
        NamedField {
            attributes: field.attributes,
            visibility: field.visibility,
            identifier: field.identifier->Some_0,
            field_type: field.field_type,
        }
    }

    /// Keeps the attributes, visibility, name and type of `field`; fails
    /// with `MissingIdentifier` exactly when the field has no name.
    pub fn new(field: FieldNode) -> (r: Result<Self, ConversionError>)
        ensures
            field.identifier is Some ==> r == Ok::<Self, ConversionError>(Self::of(field)),
            field.identifier is None ==> r == Err::<Self, ConversionError>(
                ConversionError::MissingIdentifier,
            ),
    {
        match field.identifier {
            Some(identifier) => Ok(
                NamedField {
                    attributes: field.attributes,
                    visibility: field.visibility,
                    identifier,
                    field_type: field.field_type,
                },
            ),
            None => Err(ConversionError::MissingIdentifier),
        }
    }
}

/// Whether every field of `fields` has a name.
pub open spec fn all_named(fields: Seq<FieldNode>) -> bool {
    forall|i: int| 0 <= i < fields.len() ==> (#[trigger] fields[i]).identifier is Some
}

/// Converts every field of `fields`, in order, to a `UnitField`.
pub fn unit_fields(fields: Vec<FieldNode>) -> (r: Vec<UnitField>)
    ensures
        r@ == fields@.map_values(|f: FieldNode| UnitField::of(f)),
{
    let mut out: Vec<UnitField> = Vec::new();
    for field in it: fields.into_iter()
        invariant
            it.seq() == fields@,
            out@ == fields@.take(it.index()).map_values(|f: FieldNode| UnitField::of(f)),
    {
        out.push(UnitField::new(field));
        assert(fields@.take(it.index() + 1) == fields@.take(it.index() as int).push(field));
    }
    assert(fields@.take(fields@.len() as int) == fields@);
    out
}

/// Converts every field of `fields`, in order, to an `UnnamedField`.
pub fn unnamed_fields(fields: Vec<FieldNode>) -> (r: Vec<UnnamedField>)
    ensures
        r@ == fields@.map_values(|f: FieldNode| UnnamedField::of(f)),
{
    let mut out: Vec<UnnamedField> = Vec::new();
    for field in it: fields.into_iter()
        invariant
            it.seq() == fields@,
            out@ == fields@.take(it.index()).map_values(|f: FieldNode| UnnamedField::of(f)),
    {
        out.push(UnnamedField::new(field));
        assert(fields@.take(it.index() + 1) == fields@.take(it.index() as int).push(field));
    }
    assert(fields@.take(fields@.len() as int) == fields@);
    out
}

/// Converts every field of `fields`, in order, to a `NamedField`; fails
/// with `MissingIdentifier` exactly when one of them has no name.
pub fn named_fields(fields: Vec<FieldNode>) -> (r: Result<Vec<NamedField>, ConversionError>)
    ensures
        r is Ok <==> all_named(fields@),
        r matches Ok(v) ==> v@ == fields@.map_values(|f: FieldNode| NamedField::of(f)),
        r matches Err(e) ==> e == ConversionError::MissingIdentifier,
{
    let mut out: Vec<NamedField> = Vec::new();
    for field in it: fields.into_iter()
        invariant
            it.seq() == fields@,
            all_named(fields@.take(it.index())),
            out@ == fields@.take(it.index()).map_values(|f: FieldNode| NamedField::of(f)),
    {
        assert(fields@.take(it.index() + 1) == fields@.take(it.index() as int).push(field));
        match NamedField::new(field) {
            Ok(named) => out.push(named),
            Err(e) => {
                assert(!all_named(fields@));
                return Err(e);
            },
        }
    }
    assert(fields@.take(fields@.len() as int) == fields@);
    Ok(out)
}

/// A converted list of named fields has the length and order of the input,
/// and each record carries the attributes, visibility, name and type of the
/// field at its position.
pub proof fn lemma_named_fields_follow_input(fields: Seq<FieldNode>, out: Seq<NamedField>)
    requires
        all_named(fields),
        out == fields.map_values(|f: FieldNode| NamedField::of(f)),
    ensures
        out.len() == fields.len(),
        forall|i: int|
            0 <= i < fields.len() ==> {
                &&& (#[trigger] out[i]).attributes == fields[i].attributes
                &&& out[i].visibility == fields[i].visibility
                &&& fields[i].identifier == Some(out[i].identifier)
                &&& out[i].field_type == fields[i].field_type
            },
{
}

/// A converted list of unnamed fields has the length and order of the
/// input, and each record carries the attributes, visibility and type of the
/// field at its position.
pub proof fn lemma_unnamed_fields_follow_input(fields: Seq<FieldNode>, out: Seq<UnnamedField>)
    requires
        out == fields.map_values(|f: FieldNode| UnnamedField::of(f)),
    ensures
        out.len() == fields.len(),
        forall|i: int|
            0 <= i < fields.len() ==> {
                &&& (#[trigger] out[i]).attributes == fields[i].attributes
                &&& out[i].visibility == fields[i].visibility
                &&& out[i].field_type == fields[i].field_type
            },
{
}

} // verus!
