//! Column mapping: which mode a table is in, and whether the annotations of
//! its schema fit that mode.
//!
//! With column mapping, every field carries a physical name and a field id in
//! its metadata. Without it, no field may carry either.

use crate::actions::{Protocol, ProtocolView};
use crate::error::{unit_result_view, DeltaResult, Error, ErrorView};
use crate::schema::query::annotation;
use crate::schema::{
    fields_view, lemma_struct_view, DataType, DataTypeView, MetadataValue, MetadataValueView,
    Schema, SchemaView, StructField, StructFieldView,
};
use crate::table_features::ReaderFeature;
use crate::table_properties::{ColumnMappingMode, TableProperties};
use vstd::prelude::*;
use vstd::string::StringExecFns;

verus! {

/// The metadata key of a field's physical name.
pub const PHYSICAL_NAME_KEY: &'static str = "delta.columnMapping.physicalName";

/// The metadata key of a field's id.
pub const ID_KEY: &'static str = "delta.columnMapping.id";

/// The column mapping mode of a table. The mode that the properties ask for
/// counts at reader version 2, and at reader version 3 where the protocol
/// declares the column mapping feature; in every other case there is no
/// column mapping.
pub open spec fn spec_column_mapping_mode(protocol: ProtocolView, properties: TableProperties)
    -> ColumnMappingMode {
    match properties.column_mapping_mode {
        Some(mode) => if protocol.min_reader_version == 2 || (protocol.min_reader_version == 3
            && protocol.has_reader_feature("columnMapping"@)) {
            mode
        } else {
            ColumnMappingMode::Disabled
        },
        None => ColumnMappingMode::Disabled,
    }
}

/// The column mapping mode of a table with this protocol and these
/// properties.
pub fn column_mapping_mode(protocol: &Protocol, properties: &TableProperties) -> (r:
    ColumnMappingMode)
    ensures
        r == spec_column_mapping_mode(protocol@, *properties),
{
    match properties.column_mapping_mode {
        Some(mode) => {
            let version = protocol.min_reader_version();
            if version == 2 || (version == 3 && protocol.has_reader_feature(
                &ReaderFeature::ColumnMapping,
            )) {
                mode
            } else {
                ColumnMappingMode::Disabled
            }
        },
        None => ColumnMappingMode::Disabled,
    }
}

/// The path of a field: the path of what holds it, a dot, and its name.
pub open spec fn path_of(prefix: Seq<char>, name: Seq<char>) -> Seq<char> {
    if prefix.len() == 0 {
        name
    } else {
        prefix + "."@ + name
    }
}

/// What is wrong with one annotation of a field, if anything: present without
/// column mapping, or with column mapping absent or of the wrong kind. A
/// physical name is a string, a field id a number.
pub open spec fn annotation_fault(
    mode: ColumnMappingMode,
    metadata: Seq<(Seq<char>, MetadataValueView)>,
    key: Seq<char>,
    is_text: bool,
    path: Seq<char>,
) -> Option<Seq<char>> {
    match annotation(metadata, key) {
        None => if mode == ColumnMappingMode::Disabled {
            None
        } else {
            Some(
                "Column mapping is enabled but field '"@ + path + "' lacks the "@ + key
                    + " annotation"@,
            )
        },
        Some(value) => if mode == ColumnMappingMode::Disabled {
            Some(
                "Column mapping is not enabled but field '"@ + path + "' is annotated with "@
                    + key,
            )
        } else if is_text && !(value is String) {
            Some("The "@ + key + " annotation on field '"@ + path + "' must be a string"@)
        } else if !is_text && !(value is Number) {
            Some("The "@ + key + " annotation on field '"@ + path + "' must be a number"@)
        } else {
            None
        },
    }
}

/// The first fault within a type, if there is one.
pub open spec fn type_fault(t: DataTypeView, mode: ColumnMappingMode, path: Seq<char>) -> Option<
    Seq<char>,
>
    decreases t,
{
    match t {
        DataTypeView::Struct(fields) => fields_fault(fields, mode, path),
        DataTypeView::Array { element_type, .. } => type_fault(
            *element_type,
            mode,
            path_of(path, "<array element>"@),
        ),
        DataTypeView::MapOf { key_type, value_type, .. } => match type_fault(
            *key_type,
            mode,
            path_of(path, "<map key>"@),
        ) {
            Some(m) => Some(m),
            None => type_fault(*value_type, mode, path_of(path, "<map value>"@)),
        },
        _ => None,
    }
}

/// The first fault of a field: that of its physical name, else that of its
/// id, else the first fault within its type.
pub open spec fn field_fault(f: StructFieldView, mode: ColumnMappingMode, prefix: Seq<char>)
    -> Option<Seq<char>>
    decreases f,
{
    let path = path_of(prefix, f.name);
    match annotation_fault(mode, f.metadata, PHYSICAL_NAME_KEY@, true, path) {
        Some(m) => Some(m),
        None => match annotation_fault(mode, f.metadata, ID_KEY@, false, path) {
            Some(m) => Some(m),
            None => type_fault(f.data_type, mode, path),
        },
    }
}

/// The fault of the first field that has one.
pub open spec fn fields_fault(
    fields: Seq<StructFieldView>,
    mode: ColumnMappingMode,
    prefix: Seq<char>,
) -> Option<Seq<char>>
    decreases fields,
{
    if fields.len() == 0 {
        None
    } else {
        match fields_fault(fields.drop_last(), mode, prefix) {
            Some(m) => Some(m),
            None => field_fault(fields.last(), mode, prefix),
        }
    }
}

/// What [`validate_schema_column_mapping`] returns.
pub open spec fn spec_validate_column_mapping(schema: SchemaView, mode: ColumnMappingMode)
    -> Result<(), ErrorView> {
    match fields_fault(schema, mode, Seq::empty()) {
        Some(m) => Err(ErrorView::InvalidColumnMappingMode(m)),
        None => Ok(()),
    }
}

/// Whether the annotations of a field fit the mode: without column mapping
/// neither a physical name nor a field id; with it a physical name that is a
/// string and a field id that is a number.
pub open spec fn annotations_fit(
    mode: ColumnMappingMode,
    metadata: Seq<(Seq<char>, MetadataValueView)>,
) -> bool {
    if mode == ColumnMappingMode::Disabled {
        annotation(metadata, PHYSICAL_NAME_KEY@) is None && annotation(metadata, ID_KEY@) is None
    } else {
        annotation(metadata, PHYSICAL_NAME_KEY@) matches Some(MetadataValueView::String(_))
            && annotation(metadata, ID_KEY@) matches Some(MetadataValueView::Number(_))
    }
}

/// Whether the annotations of every field within a type fit the mode.
pub open spec fn type_fits(t: DataTypeView, mode: ColumnMappingMode) -> bool
    decreases t,
{
    match t {
        DataTypeView::Struct(fields) => fields_fit(fields, mode),
        DataTypeView::Array { element_type, .. } => type_fits(*element_type, mode),
        DataTypeView::MapOf { key_type, value_type, .. } => type_fits(*key_type, mode)
            && type_fits(*value_type, mode),
        _ => true,
    }
}

/// Whether the annotations of a field, and of every field within its type,
/// fit the mode.
pub open spec fn field_fits(f: StructFieldView, mode: ColumnMappingMode) -> bool
    decreases f,
{
    annotations_fit(mode, f.metadata) && type_fits(f.data_type, mode)
}

/// Whether the annotations of every one of the fields, and of every field
/// within their types, fit the mode.
pub open spec fn fields_fit(fields: Seq<StructFieldView>, mode: ColumnMappingMode) -> bool
    decreases fields,
{
    if fields.len() == 0 {
        true
    } else {
        fields_fit(fields.drop_last(), mode) && field_fits(fields.last(), mode)
    }
}

/// A type has no fault exactly if the annotations of every field within it
/// fit the mode, whatever the path of the type.
pub proof fn lemma_type_fault(t: DataTypeView, mode: ColumnMappingMode, path: Seq<char>)
    ensures
        type_fault(t, mode, path) is None <==> type_fits(t, mode),
    decreases t,
{
    match t {
        DataTypeView::Struct(fields) => {
            lemma_fields_fault(fields, mode, path);
        },
        DataTypeView::Array { element_type, .. } => {
            lemma_type_fault(*element_type, mode, path_of(path, "<array element>"@));
        },
        DataTypeView::MapOf { key_type, value_type, .. } => {
            lemma_type_fault(*key_type, mode, path_of(path, "<map key>"@));
            lemma_type_fault(*value_type, mode, path_of(path, "<map value>"@));
        },
        _ => {},
    }
}

/// A field has no fault exactly if its annotations, and those of every field
/// within its type, fit the mode.
pub proof fn lemma_field_fault(f: StructFieldView, mode: ColumnMappingMode, prefix: Seq<char>)
    ensures
        field_fault(f, mode, prefix) is None <==> field_fits(f, mode),
    decreases f,
{
    lemma_type_fault(f.data_type, mode, path_of(prefix, f.name));
}

/// A list of fields has no fault exactly if the annotations of every field,
/// at any depth, fit the mode.
pub proof fn lemma_fields_fault(
    fields: Seq<StructFieldView>,
    mode: ColumnMappingMode,
    prefix: Seq<char>,
)
    ensures
        fields_fault(fields, mode, prefix) is None <==> fields_fit(fields, mode),
    decreases fields,
{
    if fields.len() > 0 {
        lemma_fields_fault(fields.drop_last(), mode, prefix);
        lemma_field_fault(fields.last(), mode, prefix);
    }
}

/// The check of a schema succeeds exactly if the annotations of every field,
/// at any depth, fit the mode.
pub proof fn lemma_validate_column_mapping(schema: SchemaView, mode: ColumnMappingMode)
    ensures
        spec_validate_column_mapping(schema, mode) is Ok <==> fields_fit(schema, mode),
{
    lemma_fields_fault(schema, mode, Seq::empty());
}

/// Once a field has a fault, the fields after it do not change the outcome.
pub proof fn lemma_fields_fault_prefix(
    fields: Seq<StructFieldView>,
    mode: ColumnMappingMode,
    prefix: Seq<char>,
    k: int,
)
    requires
        0 <= k <= fields.len(),
        fields_fault(fields.take(k), mode, prefix) is Some,
    ensures
        fields_fault(fields, mode, prefix) == fields_fault(fields.take(k), mode, prefix),
    decreases fields.len(),
{
    if k == fields.len() {
        assert(fields.take(k) =~= fields);
    } else {
        assert(fields.drop_last().take(k) =~= fields.take(k));
        lemma_fields_fault_prefix(fields.drop_last(), mode, prefix, k);
    }
}

/// The text of an optional string.
pub open spec fn optional_text(s: Option<String>) -> Option<Seq<char>> {
    match s {
        Some(s) => Some(s@),
        None => None,
    }
}

fn path_string(prefix: &str, name: &str) -> (r: String)
    ensures
        r@ == path_of(prefix@, name@),
{
    if prefix.unicode_len() == 0 {
        String::from_str(name)
    } else {
        let mut path = String::from_str(prefix);
        path.append(".");
        path.append(name);
        path
    }
}

fn check_annotation(
    mode: ColumnMappingMode,
    field: &StructField,
    key: &str,
    is_text: bool,
    path: &str,
) -> (r: Option<String>)
    ensures
        optional_text(r) == annotation_fault(mode, field@.metadata, key@, is_text, path@),
{
    let disabled = match mode {
        ColumnMappingMode::Disabled => true,
        _ => false,
    };
    match field.annotation(key) {
        None => {
            if disabled {
                None
            } else {
                let mut m = String::from_str("Column mapping is enabled but field '");
                m.append(path);
                m.append("' lacks the ");
                m.append(key);
                m.append(" annotation");
                Some(m)
            }
        },
        Some(value) => {
            if disabled {
                let mut m = String::from_str("Column mapping is not enabled but field '");
                m.append(path);
                m.append("' is annotated with ");
                m.append(key);
                Some(m)
            } else {
                let fits = match value {
                    MetadataValue::String(_) => is_text,
                    MetadataValue::Number(_) => !is_text,
                    _ => false,
                };
                if fits {
                    None
                } else {
                    let mut m = String::from_str("The ");
                    m.append(key);
                    m.append(" annotation on field '");
                    m.append(path);
                    if is_text {
                        m.append("' must be a string");
                    } else {
                        m.append("' must be a number");
                    }
                    Some(m)
                }
            }
        },
    }
}

fn check_type(t: &DataType, mode: ColumnMappingMode, path: &str) -> (r: Option<String>)
    ensures
        optional_text(r) == type_fault(t@, mode, path@),
    decreases t,
{
    match t {
        DataType::Struct(fields) => {
            proof {
                lemma_struct_view(*fields);
            }
            check_fields(fields, mode, path)
        },
        DataType::Array { element_type, .. } => {
            let inner = path_string(path, "<array element>");
            check_type(element_type, mode, inner.as_str())
        },
        DataType::MapOf { key_type, value_type, .. } => {
            let key_path = path_string(path, "<map key>");
            match check_type(key_type, mode, key_path.as_str()) {
                Some(m) => Some(m),
                None => {
                    let value_path = path_string(path, "<map value>");
                    check_type(value_type, mode, value_path.as_str())
                },
            }
        },
        _ => None,
    }
}

fn check_field(f: &StructField, mode: ColumnMappingMode, prefix: &str) -> (r: Option<String>)
    ensures
        optional_text(r) == field_fault(f@, mode, prefix@),
    decreases f,
{
    let path = path_string(prefix, f.name.as_str());
    match check_annotation(mode, f, PHYSICAL_NAME_KEY, true, path.as_str()) {
        Some(m) => Some(m),
        None => match check_annotation(mode, f, ID_KEY, false, path.as_str()) {
            Some(m) => Some(m),
            None => check_type(&f.data_type, mode, path.as_str()),
        },
    }
}

fn check_fields(fields: &Vec<StructField>, mode: ColumnMappingMode, prefix: &str) -> (r: Option<
    String,
>)
    ensures
        optional_text(r) == fields_fault(fields_view(fields@), mode, prefix@),
    decreases fields,
{
    let ghost all = fields_view(fields@);
    let mut i: usize = 0;
    assert(all.take(0) =~= Seq::<StructFieldView>::empty());
    while i < fields.len()
        invariant
            i <= fields.len(),
            all == fields_view(fields@),
            fields_fault(all.take(i as int), mode, prefix@) is None,
        decreases fields.len() - i,
    {
        proof {
            assert(all.take(i + 1).drop_last() =~= all.take(i as int));
            assert(all.take(i + 1).last() == fields@[i as int]@);
        }
        match check_field(&fields[i], mode, prefix) {
            Some(m) => {
                proof {
                    lemma_fields_fault_prefix(all, mode, prefix@, i + 1);
                }
                return Some(m);
            },
            None => {},
        }
        i += 1;
    }
    assert(all.take(fields.len() as int) =~= all);
    None
}

/// Checks that the annotations of every field of the schema, at any depth,
/// fit the column mapping mode. The error names the first field that has a
/// fault, by its path.
pub fn validate_schema_column_mapping(schema: &Schema, mode: ColumnMappingMode) -> (r: DeltaResult<
    (),
>)
    ensures
        unit_result_view(r) == spec_validate_column_mapping(schema@, mode),
{
    proof {
        reveal_strlit("");
        assert(""@ =~= Seq::<char>::empty());
    }
    match check_fields(&schema.fields, mode, "") {
        Some(m) => Err(Error::InvalidColumnMappingMode(m)),
        None => Ok(()),
    }
}

} // verus!
