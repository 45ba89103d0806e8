//! The logical schema of a table: a tree of typed, named fields.

pub mod decode;
pub mod query;

use vstd::prelude::*;

verus! {

/// A type without parts.
#[derive(Debug, Clone, Copy, PartialEq, Eq, Structural)]
pub enum PrimitiveType {
    String,
    Long,
    Integer,
    Short,
    Byte,
    Float,
    Double,
    Boolean,
    Binary,
    Date,
    Timestamp,
    /// A timestamp without a time zone.
    TimestampNtz,
    /// A decimal number with the given precision and scale.
    Decimal(u8, u8),
}

/// A value in the metadata of a field.
#[derive(Debug, PartialEq, Eq)]
pub enum MetadataValue {
    Number(i64),
    String(String),
    Boolean(bool),
    /// A value of any other shape. The value itself is not kept.
    Other,
}

/// The type of a field, of the elements of an array, or of the keys or values
/// of a map.
#[derive(Debug, PartialEq, Eq)]
pub enum DataType {
    Primitive(PrimitiveType),
    Array { element_type: Box<DataType>, contains_null: bool },
    Struct(Vec<StructField>),
    MapOf { key_type: Box<DataType>, value_type: Box<DataType>, value_contains_null: bool },
    /// A semi-structured value.
    Variant,
}

/// A named member of a struct type.
#[derive(Debug, PartialEq, Eq)]
pub struct StructField {
    pub name: String,
    pub data_type: DataType,
    pub nullable: bool,
    /// The metadata of the field: keys and values, each key once.
    pub metadata: Vec<(String, MetadataValue)>,
}

/// The schema of a table: the fields of its rows.
#[derive(Debug, PartialEq, Eq)]
pub struct Schema {
    pub fields: Vec<StructField>,
}

/// The mathematical value of a [`MetadataValue`].
pub enum MetadataValueView {
    Number(i64),
    String(Seq<char>),
    Boolean(bool),
    Other,
}

/// The mathematical value of a [`DataType`].
pub enum DataTypeView {
    Primitive(PrimitiveType),
    Array { element_type: Box<DataTypeView>, contains_null: bool },
    Struct(Seq<StructFieldView>),
    MapOf { key_type: Box<DataTypeView>, value_type: Box<DataTypeView>, value_contains_null: bool },
    Variant,
}

/// The mathematical value of a [`StructField`].
pub struct StructFieldView {
    pub name: Seq<char>,
    pub data_type: DataTypeView,
    pub nullable: bool,
    pub metadata: Seq<(Seq<char>, MetadataValueView)>,
}

/// The mathematical value of a [`Schema`]: its fields, in order.
pub type SchemaView = Seq<StructFieldView>;

impl View for MetadataValue {
    type V = MetadataValueView;

    open spec fn view(&self) -> MetadataValueView {
        match self {
            MetadataValue::Number(n) => MetadataValueView::Number(*n),
            MetadataValue::String(s) => MetadataValueView::String(s@),
            MetadataValue::Boolean(b) => MetadataValueView::Boolean(*b),
            MetadataValue::Other => MetadataValueView::Other,
        }
    }
}

/// The metadata of a field as sequences of characters and values.
pub open spec fn metadata_view(pairs: Seq<(String, MetadataValue)>) -> Seq<
    (Seq<char>, MetadataValueView),
> {
    pairs.map_values(|p: (String, MetadataValue)| (p.0@, p.1@))
}

/// The mathematical value of a data type.
pub open spec fn data_type_view(t: DataType) -> DataTypeView
    decreases t,
{
    match t {
        DataType::Primitive(p) => DataTypeView::Primitive(p),
        DataType::Array { element_type, contains_null } => DataTypeView::Array {
            element_type: Box::new(data_type_view(*element_type)),
            contains_null,
        },
        DataType::Struct(fields) => DataTypeView::Struct(
            Seq::new(
                fields@.len(),
                |i: int|
                    if 0 <= i < fields@.len() {
                        field_view(fields@[i])
                    } else {
                        arbitrary()
                    },
            ),
        ),
        DataType::MapOf { key_type, value_type, value_contains_null } => DataTypeView::MapOf {
            key_type: Box::new(data_type_view(*key_type)),
            value_type: Box::new(data_type_view(*value_type)),
            value_contains_null,
        },
        DataType::Variant => DataTypeView::Variant,
    }
}

/// The mathematical value of a field.
pub open spec fn field_view(f: StructField) -> StructFieldView
    decreases f,
{
    StructFieldView {
        name: f.name@,
        data_type: data_type_view(f.data_type),
        nullable: f.nullable,
        metadata: metadata_view(f.metadata@),
    }
}

impl View for DataType {
    type V = DataTypeView;

    open spec fn view(&self) -> DataTypeView {
        data_type_view(*self)
    }
}

impl View for StructField {
    type V = StructFieldView;

    open spec fn view(&self) -> StructFieldView {
        field_view(*self)
    }
}

/// The views of a sequence of fields, in order.
pub open spec fn fields_view(fields: Seq<StructField>) -> Seq<StructFieldView> {
    Seq::new(fields.len(), |i: int| fields[i]@)
}

impl View for Schema {
    type V = SchemaView;

    open spec fn view(&self) -> SchemaView {
        fields_view(self.fields@)
    }
}

/// The view of a struct type is the views of its fields.
pub proof fn lemma_struct_view(fields: Vec<StructField>)
    ensures
        DataType::Struct(fields)@ == DataTypeView::Struct(fields_view(fields@)),
{
    assert(DataType::Struct(fields)@->Struct_0 =~= fields_view(fields@));
}

} // verus!
