//! Questions that the validation of a table asks of its schema.

use crate::schema::{
    fields_view, DataType, DataTypeView, MetadataValue, MetadataValueView, PrimitiveType, Schema,
    SchemaView, StructField, StructFieldView,
};
use crate::text::{find_key, first_index, keys_of};
use vstd::prelude::*;

verus! {

/// The metadata key under which a field holds its invariants.
pub const INVARIANTS_KEY: &'static str = "delta.invariants";

/// Something that may hold somewhere in a schema.
#[derive(Debug, Clone, Copy, PartialEq, Eq, Structural)]
pub enum SchemaProperty {
    /// A type is a timestamp without a time zone.
    UsesTimestampNtz,
    /// A type is a variant.
    UsesVariant,
    /// A field holds invariants in its metadata.
    HasInvariants,
}

/// The keys of the metadata of a field, in order.
pub open spec fn metadata_keys(metadata: Seq<(Seq<char>, MetadataValueView)>) -> Seq<Seq<char>> {
    metadata.map_values(|m: (Seq<char>, MetadataValueView)| m.0)
}

/// The value that the metadata of a field holds under `key`.
pub open spec fn annotation(metadata: Seq<(Seq<char>, MetadataValueView)>, key: Seq<char>)
    -> Option<MetadataValueView> {
    match first_index(metadata_keys(metadata), key) {
        Some(i) => Some(metadata[i].1),
        None => None,
    }
}

/// Whether the property holds of the type itself or of a type or field
/// within it.
pub open spec fn type_has(t: DataTypeView, p: SchemaProperty) -> bool
    decreases t,
{
    match t {
        DataTypeView::Primitive(primitive) => p == SchemaProperty::UsesTimestampNtz && primitive
            == PrimitiveType::TimestampNtz,
        DataTypeView::Variant => p == SchemaProperty::UsesVariant,
        DataTypeView::Array { element_type, .. } => type_has(*element_type, p),
        DataTypeView::MapOf { key_type, value_type, .. } => type_has(*key_type, p) || type_has(
            *value_type,
            p,
        ),
        DataTypeView::Struct(fields) => fields_have(fields, p),
    }
}

/// Whether the property holds of the field itself or within its type.
pub open spec fn field_has(f: StructFieldView, p: SchemaProperty) -> bool
    decreases f,
{
    (p == SchemaProperty::HasInvariants && annotation(f.metadata, INVARIANTS_KEY@) is Some)
        || type_has(f.data_type, p)
}

/// Whether the property holds of one of the fields or within its type.
pub open spec fn fields_have(fields: Seq<StructFieldView>, p: SchemaProperty) -> bool
    decreases fields,
{
    if fields.len() == 0 {
        false
    } else {
        fields_have(fields.drop_last(), p) || field_has(fields.last(), p)
    }
}

/// Whether a column of the schema, at any depth, is a timestamp without a
/// time zone.
pub open spec fn uses_timestamp_ntz(schema: SchemaView) -> bool {
    fields_have(schema, SchemaProperty::UsesTimestampNtz)
}

/// Whether a column of the schema, at any depth, is a variant.
pub open spec fn uses_variant(schema: SchemaView) -> bool {
    fields_have(schema, SchemaProperty::UsesVariant)
}

/// Whether a field of the schema, at any depth, holds invariants.
pub open spec fn has_invariants(schema: SchemaView) -> bool {
    fields_have(schema, SchemaProperty::HasInvariants)
}

/// The property holds of a list of fields exactly if it holds of one of them.
pub proof fn lemma_fields_have(fields: Seq<StructFieldView>, p: SchemaProperty)
    ensures
        fields_have(fields, p) <==> exists|i: int|
            0 <= i < fields.len() && field_has(#[trigger] fields[i], p),
    decreases fields.len(),
{
    if fields.len() > 0 {
        let front = fields.drop_last();
        lemma_fields_have(front, p);
        if fields_have(front, p) {
            let i = choose|i: int| 0 <= i < front.len() && field_has(#[trigger] front[i], p);
            assert(fields[i] == front[i]);
        } else if field_has(fields.last(), p) {
            assert(fields[fields.len() - 1] == fields.last());
        } else {
            assert forall|i: int| 0 <= i < fields.len() implies !field_has(
                #[trigger] fields[i],
                p,
            ) by {
                if i < front.len() {
                    assert(front[i] == fields[i]);
                }
            }
        }
    }
}

impl StructField {
    /// The value that the metadata of the field holds under `key`.
    pub fn annotation(&self, key: &str) -> (r: Option<&MetadataValue>)
        ensures
            match r {
                Some(v) => annotation(self@.metadata, key@) == Some(v@),
                None => annotation(self@.metadata, key@) is None,
            },
    {
        assert(keys_of(self.metadata@) =~= metadata_keys(self@.metadata));
        match find_key(&self.metadata, key) {
            Some(i) => Some(&self.metadata[i].1),
            None => None,
        }
    }

    /// Whether the property holds of the field itself or within its type.
    pub fn has(&self, p: SchemaProperty) -> (r: bool)
        ensures
            r == field_has(self@, p),
        decreases self,
    {
        let marked = match p {
            SchemaProperty::HasInvariants => self.annotation(INVARIANTS_KEY).is_some(),
            _ => false,
        };
        marked || self.data_type.has(p)
    }
}

impl DataType {
    /// Whether the property holds of the type itself or of a type or field
    /// within it.
    pub fn has(&self, p: SchemaProperty) -> (r: bool)
        ensures
            r == type_has(self@, p),
        decreases self,
    {
        match self {
            DataType::Primitive(primitive) => match (p, primitive) {
                (SchemaProperty::UsesTimestampNtz, PrimitiveType::TimestampNtz) => true,
                _ => false,
            },
            DataType::Variant => match p {
                SchemaProperty::UsesVariant => true,
                _ => false,
            },
            DataType::Array { element_type, .. } => element_type.has(p),
            DataType::MapOf { key_type, value_type, .. } => key_type.has(p) || value_type.has(p),
            DataType::Struct(fields) => {
                proof {
                    crate::schema::lemma_struct_view(*fields);
                }
                any_field_has(fields, p)
            },
        }
    }
}

/// Whether the property holds of one of the fields or within its type.
pub fn any_field_has(fields: &Vec<StructField>, p: SchemaProperty) -> (r: bool)
    ensures
        r == fields_have(fields_view(fields@), p),
    decreases fields,
{
    let ghost all = fields_view(fields@);
    let mut i: usize = 0;
    assert(all.take(0) =~= Seq::<StructFieldView>::empty());
    while i < fields.len()
        invariant
            i <= fields.len(),
            all == fields_view(fields@),
            !fields_have(all.take(i as int), p),
        decreases fields.len() - i,
    {
        proof {
            assert(all.take(i + 1).drop_last() =~= all.take(i as int));
            assert(all.take(i + 1).last() == fields@[i as int]@);
        }
        if fields[i].has(p) {
            proof {
                lemma_fields_have(all.take(i + 1), p);
                lemma_fields_have(all, p);
                let k = choose|k: int|
                    0 <= k < all.take(i + 1).len() && field_has(#[trigger] all.take(i + 1)[k], p);
                assert(all[k] == all.take(i + 1)[k]);
            }
            return true;
        }
        i += 1;
    }
    assert(all.take(fields.len() as int) =~= all);
    false
}

impl Schema {
    /// Whether the property holds somewhere in the schema.
    pub fn has(&self, p: SchemaProperty) -> (r: bool)
        ensures
            r == fields_have(self@, p),
    {
        any_field_has(&self.fields, p)
    }

    /// Whether a field of the schema, at any depth, holds invariants.
    pub fn has_invariants(&self) -> (r: bool)
        ensures
            r == has_invariants(self@),
    {
        self.has(SchemaProperty::HasInvariants)
    }
}

} // verus!
