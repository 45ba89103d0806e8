//! Reading a schema out of its JSON form.
//!
//! A type is written as its name, or as an object whose member `type` is
//! `struct`, `array` or `map`. A struct has `fields`; a field has `name`,
//! `type`, `nullable` and `metadata`; an array has `elementType` and
//! `containsNull`; a map has `keyType`, `valueType` and `valueContainsNull`.
//! Members under other keys are ignored.

use crate::error::{result_view, DeltaResult, Error, ErrorView};
use crate::json::{
    find_member, items_view, lemma_array_view, lemma_member_decreases, lemma_object_view, member,
    members_view, Json, JsonView,
};
use crate::schema::{
    fields_view, lemma_struct_view, metadata_view, DataType, DataTypeView, MetadataValue,
    MetadataValueView, PrimitiveType, Schema, SchemaView, StructField, StructFieldView,
};
use crate::text::{
    all_digits, decimal_value, find_comma, is_digit, lemma_ascii_bytes, lemma_digits_are_ascii,
    parse_digits, str_eq,
};
use vstd::prelude::*;
use vstd::string::{is_ascii, StrSliceExecFns, StringSliceAdditionalSpecFns};
use vstd::utf8::is_ascii_chars;

verus! {

/// The message for a type name that names no type.
pub const UNKNOWN_TYPE_NAME: &'static str = "unknown type name";

/// The message for a JSON value that is no type at all.
pub const NOT_A_TYPE: &'static str = "a type is a name or an object with a member type";

/// The message for an object whose member `type` names no kind of type.
pub const UNKNOWN_TYPE_KIND: &'static str = "an object type is a struct, an array or a map";

/// The message for a struct type without its fields.
pub const BAD_STRUCT: &'static str = "a struct type has an array of fields";

/// The message for an array type that lacks a member.
pub const BAD_ARRAY: &'static str =
    "an array type has an element type and a flag containsNull";

/// The message for a map type that lacks a member.
pub const BAD_MAP: &'static str =
    "a map type has a key type, a value type and a flag valueContainsNull";

/// The message for a field that lacks a member.
pub const BAD_FIELD: &'static str =
    "a field is an object with a name, a type, a flag nullable and metadata";

/// The message for a schema that is a type, but no struct.
pub const NOT_A_STRUCT: &'static str = "a schema is a struct type";

/// Whether the comma of a decimal type's parameters stands at `c`: digits
/// before it, digits after it.
pub open spec fn decimal_split(inner: Seq<char>, c: int) -> bool {
    &&& 0 <= c < inner.len()
    &&& inner[c] == ','
    &&& all_digits(inner.take(c))
    &&& all_digits(inner.skip(c + 1))
}

/// The precision and scale that a name of the form `decimal(p,s)` gives: `p`
/// from 1 to 38, `s` at most `p`, both written in digits only.
pub open spec fn spec_decimal_type(name: Seq<char>) -> Option<(u8, u8)> {
    if name.len() >= 9 && name.subrange(0, 8) == "decimal("@ && name.last() == ')' {
        let inner = name.subrange(8, name.len() - 1);
        if exists|c: int| decimal_split(inner, c) {
            let c = choose|c: int| decimal_split(inner, c);
            let p = inner.take(c);
            let s = inner.skip(c + 1);
            if p.len() > 0 && s.len() > 0 && 1 <= decimal_value(p) <= 38 && decimal_value(s)
                <= decimal_value(p) {
                Some((decimal_value(p) as u8, decimal_value(s) as u8))
            } else {
                None
            }
        } else {
            None
        }
    } else {
        None
    }
}

/// The type that a type name stands for.
pub open spec fn type_of_name(name: Seq<char>) -> Option<DataTypeView> {
    if name == "string"@ {
        Some(DataTypeView::Primitive(PrimitiveType::String))
    } else if name == "long"@ {
        Some(DataTypeView::Primitive(PrimitiveType::Long))
    } else if name == "integer"@ {
        Some(DataTypeView::Primitive(PrimitiveType::Integer))
    } else if name == "short"@ {
        Some(DataTypeView::Primitive(PrimitiveType::Short))
    } else if name == "byte"@ {
        Some(DataTypeView::Primitive(PrimitiveType::Byte))
    } else if name == "float"@ {
        Some(DataTypeView::Primitive(PrimitiveType::Float))
    } else if name == "double"@ {
        Some(DataTypeView::Primitive(PrimitiveType::Double))
    } else if name == "boolean"@ {
        Some(DataTypeView::Primitive(PrimitiveType::Boolean))
    } else if name == "binary"@ {
        Some(DataTypeView::Primitive(PrimitiveType::Binary))
    } else if name == "date"@ {
        Some(DataTypeView::Primitive(PrimitiveType::Date))
    } else if name == "timestamp"@ {
        Some(DataTypeView::Primitive(PrimitiveType::Timestamp))
    } else if name == "timestamp_ntz"@ {
        Some(DataTypeView::Primitive(PrimitiveType::TimestampNtz))
    } else if name == "variant"@ {
        Some(DataTypeView::Variant)
    } else {
        match spec_decimal_type(name) {
            Some((p, s)) => Some(DataTypeView::Primitive(PrimitiveType::Decimal(p, s))),
            None => None,
        }
    }
}

/// The metadata value that a JSON value stands for.
pub open spec fn spec_metadata_value(j: JsonView) -> MetadataValueView {
    match j {
        JsonView::Number(Some(n)) => MetadataValueView::Number(n),
        JsonView::String(s) => MetadataValueView::String(s),
        JsonView::Bool(b) => MetadataValueView::Boolean(b),
        _ => MetadataValueView::Other,
    }
}

/// The metadata that the members of a JSON object stand for.
pub open spec fn spec_metadata(members: Seq<(Seq<char>, JsonView)>) -> Seq<
    (Seq<char>, MetadataValueView),
> {
    members.map_values(|m: (Seq<char>, JsonView)| (m.0, spec_metadata_value(m.1)))
}

/// The error of this module with the given message.
pub open spec fn fault<T>(msg: &str) -> Result<T, ErrorView> {
    Err(ErrorView::Schema(msg@))
}

/// The type that a JSON value stands for, or why it stands for none.
pub open spec fn spec_data_type(j: JsonView) -> Result<DataTypeView, ErrorView>
    decreases j,
{
    match j {
        JsonView::String(name) => match type_of_name(name) {
            Some(t) => Ok(t),
            None => fault(UNKNOWN_TYPE_NAME),
        },
        JsonView::Object(members) => match member(members, "type"@) {
            Some(JsonView::String(kind)) => {
                if kind == "struct"@ {
                    match member(members, "fields"@) {
                        Some(JsonView::Array(items)) => {
                            proof {
                                lemma_member_decreases(members, "fields"@);
                            }
                            match spec_fields(items) {
                                Ok(fields) => Ok(DataTypeView::Struct(fields)),
                                Err(e) => Err(e),
                            }
                        },
                        _ => fault(BAD_STRUCT),
                    }
                } else if kind == "array"@ {
                    match (member(members, "elementType"@), member(members, "containsNull"@)) {
                        (Some(element), Some(JsonView::Bool(contains_null))) => {
                            proof {
                                lemma_member_decreases(members, "elementType"@);
                            }
                            match spec_data_type(element) {
                                Ok(t) => Ok(
                                    DataTypeView::Array { element_type: Box::new(t), contains_null },
                                ),
                                Err(e) => Err(e),
                            }
                        },
                        _ => fault(BAD_ARRAY),
                    }
                } else if kind == "map"@ {
                    match (
                        member(members, "keyType"@),
                        member(members, "valueType"@),
                        member(members, "valueContainsNull"@),
                    ) {
                        (Some(key), Some(value), Some(JsonView::Bool(value_contains_null))) => {
                            proof {
                                lemma_member_decreases(members, "keyType"@);
                                lemma_member_decreases(members, "valueType"@);
                            }
                            match spec_data_type(key) {
                                Ok(k) => match spec_data_type(value) {
                                    Ok(v) => Ok(
                                        DataTypeView::MapOf {
                                            key_type: Box::new(k),
                                            value_type: Box::new(v),
                                            value_contains_null,
                                        },
                                    ),
                                    Err(e) => Err(e),
                                },
                                Err(e) => Err(e),
                            }
                        },
                        _ => fault(BAD_MAP),
                    }
                } else {
                    fault(UNKNOWN_TYPE_KIND)
                }
            },
            _ => fault(NOT_A_TYPE),
        },
        _ => fault(NOT_A_TYPE),
    }
}

/// The field that a JSON value stands for, or why it stands for none.
pub open spec fn spec_field(j: JsonView) -> Result<StructFieldView, ErrorView>
    decreases j,
{
    match j {
        JsonView::Object(members) => match (
            member(members, "name"@),
            member(members, "type"@),
            member(members, "nullable"@),
            member(members, "metadata"@),
        ) {
            (
                Some(JsonView::String(name)),
                Some(t),
                Some(JsonView::Bool(nullable)),
                Some(JsonView::Object(metadata)),
            ) => {
                proof {
                    lemma_member_decreases(members, "type"@);
                }
                match spec_data_type(t) {
                    Ok(data_type) => Ok(
                        StructFieldView {
                            name,
                            data_type,
                            nullable,
                            metadata: spec_metadata(metadata),
                        },
                    ),
                    Err(e) => Err(e),
                }
            },
            _ => fault(BAD_FIELD),
        },
        _ => fault(BAD_FIELD),
    }
}

/// The fields that the items of a JSON array stand for, or the fault of the
/// first item that stands for none.
pub open spec fn spec_fields(items: Seq<JsonView>) -> Result<Seq<StructFieldView>, ErrorView>
    decreases items,
{
    if items.len() == 0 {
        Ok(Seq::empty())
    } else {
        match spec_fields(items.drop_last()) {
            Ok(fields) => match spec_field(items.last()) {
                Ok(f) => Ok(fields.push(f)),
                Err(e) => Err(e),
            },
            Err(e) => Err(e),
        }
    }
}

/// The schema that a JSON value stands for, or why it stands for none.
pub open spec fn spec_schema(j: JsonView) -> Result<SchemaView, ErrorView> {
    match spec_data_type(j) {
        Ok(DataTypeView::Struct(fields)) => Ok(fields),
        Ok(_) => fault(NOT_A_STRUCT),
        Err(e) => Err(e),
    }
}

/// At most one place splits the parameters of a decimal type: that of the
/// first comma.
proof fn lemma_decimal_split_unique(inner: Seq<char>, c: int, other: int)
    requires
        0 <= c < inner.len(),
        inner[c] == ',',
        forall|k: int| 0 <= k < c ==> inner[k] != ',',
        decimal_split(inner, other),
    ensures
        other == c,
{
    if other > c {
        assert(inner.take(other)[c] == inner[c]);
        assert(!is_digit(inner.take(other)[c]));
    }
}

/// A name with a character outside ASCII is no decimal type.
proof fn lemma_decimal_type_is_ascii(name: Seq<char>)
    requires
        spec_decimal_type(name) is Some,
    ensures
        is_ascii_chars(name),
{
    reveal_strlit("decimal(");
    let inner = name.subrange(8, name.len() - 1);
    let c = choose|c: int| decimal_split(inner, c);
    lemma_digits_are_ascii(inner.take(c));
    lemma_digits_are_ascii(inner.skip(c + 1));
    assert forall|i: int| 0 <= i < name.len() implies '\0' <= #[trigger] name[i] <= '\u{7f}' by {
        if i < 8 {
            assert(name.subrange(0, 8)[i] == name[i]);
        } else if i < name.len() - 1 {
            let k = i - 8;
            assert(inner[k] == name[i]);
            if k < c {
                assert(inner.take(c)[k] == inner[k]);
            } else if k > c {
                assert(inner.skip(c + 1)[k - c - 1] == inner[k]);
            }
        }
    }
}

/// Reads the precision and scale out of a name of the form `decimal(p,s)`.
pub fn decimal_type(name: &str) -> (r: Option<(u8, u8)>)
    ensures
        r == spec_decimal_type(name@),
{
    if !name.is_ascii() {
        proof {
            if spec_decimal_type(name@) is Some {
                lemma_decimal_type_is_ascii(name@);
            }
        }
        return None;
    }
    proof {
        lemma_ascii_bytes(name);
    }
    let n = name.as_bytes().len();
    if n < 9 {
        return None;
    }
    if !str_eq(name.substring_ascii(0, 8), "decimal(") {
        return None;
    }
    let last = name.get_ascii(n - 1);
    assert('\0' <= name@[n - 1] <= '\u{7f}') by {
        assert(name.spec_bytes()[n - 1] == name@[n - 1] as u8);
    }
    if last != 41u8 {
        return None;
    }
    let inner = name.substring_ascii(8, n - 1);
    let m = n - 9;
    match find_comma(inner) {
        None => {
            assert forall|c: int| !decimal_split(inner@, c) by {}
            None
        },
        Some(c) => {
            let p_text = inner.substring_ascii(0, c);
            let s_text = inner.substring_ascii(c + 1, m);
            assert(p_text@ == inner@.take(c as int));
            assert(s_text@ == inner@.skip(c + 1));
            proof {
                assert forall|other: int| decimal_split(inner@, other) implies other == c by {
                    lemma_decimal_split_unique(inner@, c as int, other);
                }
            }
            match (parse_digits(p_text, 38), parse_digits(s_text, 38)) {
                (Some(p), Some(s)) => {
                    assert(decimal_split(inner@, c as int));
                    if 1 <= p && s <= p {
                        Some((p as u8, s as u8))
                    } else {
                        None
                    }
                },
                _ => None,
            }
        },
    }
}

/// The view of an optional data type.
pub open spec fn option_type_view(t: Option<DataType>) -> Option<DataTypeView> {
    match t {
        Some(t) => Some(t@),
        None => None,
    }
}

/// The type that a type name stands for.
pub fn data_type_of_name(name: &str) -> (r: Option<DataType>)
    ensures
        option_type_view(r) == type_of_name(name@),
{
    if str_eq(name, "string") {
        Some(DataType::Primitive(PrimitiveType::String))
    } else if str_eq(name, "long") {
        Some(DataType::Primitive(PrimitiveType::Long))
    } else if str_eq(name, "integer") {
        Some(DataType::Primitive(PrimitiveType::Integer))
    } else if str_eq(name, "short") {
        Some(DataType::Primitive(PrimitiveType::Short))
    } else if str_eq(name, "byte") {
        Some(DataType::Primitive(PrimitiveType::Byte))
    } else if str_eq(name, "float") {
        Some(DataType::Primitive(PrimitiveType::Float))
    } else if str_eq(name, "double") {
        Some(DataType::Primitive(PrimitiveType::Double))
    } else if str_eq(name, "boolean") {
        Some(DataType::Primitive(PrimitiveType::Boolean))
    } else if str_eq(name, "binary") {
        Some(DataType::Primitive(PrimitiveType::Binary))
    } else if str_eq(name, "date") {
        Some(DataType::Primitive(PrimitiveType::Date))
    } else if str_eq(name, "timestamp") {
        Some(DataType::Primitive(PrimitiveType::Timestamp))
    } else if str_eq(name, "timestamp_ntz") {
        Some(DataType::Primitive(PrimitiveType::TimestampNtz))
    } else if str_eq(name, "variant") {
        Some(DataType::Variant)
    } else {
        match decimal_type(name) {
            Some((p, s)) => Some(DataType::Primitive(PrimitiveType::Decimal(p, s))),
            None => None,
        }
    }
}

/// The metadata value that a JSON value stands for.
pub fn metadata_value(j: &Json) -> (r: MetadataValue)
    ensures
        r@ == spec_metadata_value(j@),
{
    match j {
        Json::Number(Some(n)) => MetadataValue::Number(*n),
        Json::String(s) => MetadataValue::String(s.clone()),
        Json::Bool(b) => MetadataValue::Boolean(*b),
        _ => MetadataValue::Other,
    }
}

/// The metadata that the members of a JSON object stand for.
pub fn metadata_of(members: &Vec<(String, Json)>) -> (r: Vec<(String, MetadataValue)>)
    ensures
        metadata_view(r@) == spec_metadata(members_view(members@)),
{
    let mut out: Vec<(String, MetadataValue)> = Vec::new();
    let mut i: usize = 0;
    while i < members.len()
        invariant
            i <= members.len(),
            out@.len() == i,
            forall|k: int|
                0 <= k < i ==> (#[trigger] out@[k]).0@ == members@[k].0@ && out@[k].1@
                    == spec_metadata_value(members@[k].1@),
        decreases members.len() - i,
    {
        let value = metadata_value(&members[i].1);
        out.push((members[i].0.clone(), value));
        i += 1;
    }
    assert(metadata_view(out@) =~= spec_metadata(members_view(members@)));
    out
}

/// The value of the member `key` of an object.
pub fn get_member<'a>(members: &'a Vec<(String, Json)>, key: &str) -> (r: Option<&'a Json>)
    ensures
        match r {
            Some(v) => member(members_view(members@), key@) == Some(v@) && decreases_to!(members => v),
            None => member(members_view(members@), key@) is None,
        },
{
    match find_member(members, key) {
        Some(i) => Some(&members[i].1),
        None => None,
    }
}

/// The flag that an object holds under `key`.
pub open spec fn flag(members: Seq<(Seq<char>, JsonView)>, key: Seq<char>) -> Option<bool> {
    match member(members, key) {
        Some(JsonView::Bool(b)) => Some(b),
        _ => None,
    }
}

/// The flag that an object holds under `key`.
pub fn get_flag(members: &Vec<(String, Json)>, key: &str) -> (r: Option<bool>)
    ensures
        r == flag(members_view(members@), key@),
{
    match get_member(members, key) {
        Some(Json::Bool(b)) => Some(*b),
        _ => None,
    }
}

/// Once an item has a fault, the items after it do not change the outcome.
pub proof fn lemma_first_fault_decides(items: Seq<JsonView>, k: int)
    requires
        0 <= k <= items.len(),
        spec_fields(items.take(k)) is Err,
    ensures
        spec_fields(items) == spec_fields(items.take(k)),
    decreases items.len(),
{
    if k == items.len() {
        assert(items.take(k) =~= items);
    } else {
        assert(items.drop_last().take(k) =~= items.take(k));
        lemma_first_fault_decides(items.drop_last(), k);
    }
}

/// The type that a JSON value stands for, or why it stands for none.
pub fn data_type_from_json(j: &Json) -> (r: DeltaResult<DataType>)
    ensures
        result_view(r) == spec_data_type(j@),
    decreases j,
{
    match j {
        Json::String(name) => match data_type_of_name(name.as_str()) {
            Some(t) => Ok(t),
            None => Err(Error::schema(UNKNOWN_TYPE_NAME)),
        },
        Json::Object(members) => {
            proof {
                lemma_object_view(*members);
            }
            let kind: &str = match get_member(members, "type") {
                Some(Json::String(k)) => k.as_str(),
                _ => {
                    return Err(Error::schema(NOT_A_TYPE));
                },
            };
            if str_eq(kind, "struct") {
                match get_member(members, "fields") {
                    Some(Json::Array(items)) => {
                        proof {
                            lemma_array_view(*items);
                        }
                        match fields_from_json(items) {
                            Ok(fields) => {
                                proof {
                                    lemma_struct_view(fields);
                                }
                                Ok(DataType::Struct(fields))
                            },
                            Err(e) => Err(e),
                        }
                    },
                    _ => Err(Error::schema(BAD_STRUCT)),
                }
            } else if str_eq(kind, "array") {
                match (get_member(members, "elementType"), get_flag(members, "containsNull")) {
                    (Some(element), Some(contains_null)) => match data_type_from_json(element) {
                        Ok(t) => Ok(DataType::Array { element_type: Box::new(t), contains_null }),
                        Err(e) => Err(e),
                    },
                    _ => Err(Error::schema(BAD_ARRAY)),
                }
            } else if str_eq(kind, "map") {
                match (
                    get_member(members, "keyType"),
                    get_member(members, "valueType"),
                    get_flag(members, "valueContainsNull"),
                ) {
                    (Some(key), Some(value), Some(value_contains_null)) => {
                        match data_type_from_json(key) {
                            Ok(k) => match data_type_from_json(value) {
                                Ok(v) => Ok(
                                    DataType::MapOf {
                                        key_type: Box::new(k),
                                        value_type: Box::new(v),
                                        value_contains_null,
                                    },
                                ),
                                Err(e) => Err(e),
                            },
                            Err(e) => Err(e),
                        }
                    },
                    _ => Err(Error::schema(BAD_MAP)),
                }
            } else {
                Err(Error::schema(UNKNOWN_TYPE_KIND))
            }
        },
        _ => Err(Error::schema(NOT_A_TYPE)),
    }
}

/// The field that a JSON value stands for, or why it stands for none.
pub fn field_from_json(j: &Json) -> (r: DeltaResult<StructField>)
    ensures
        result_view(r) == spec_field(j@),
    decreases j,
{
    match j {
        Json::Object(members) => {
            proof {
                lemma_object_view(*members);
            }
            match (
                get_member(members, "name"),
                get_member(members, "type"),
                get_flag(members, "nullable"),
                get_member(members, "metadata"),
            ) {
                (Some(Json::String(name)), Some(t), Some(nullable), Some(Json::Object(metadata))) => {
                    proof {
                        lemma_object_view(*metadata);
                    }
                    match data_type_from_json(t) {
                        Ok(data_type) => Ok(
                            StructField {
                                name: name.clone(),
                                data_type,
                                nullable,
                                metadata: metadata_of(metadata),
                            },
                        ),
                        Err(e) => Err(e),
                    }
                },
                _ => Err(Error::schema(BAD_FIELD)),
            }
        },
        _ => Err(Error::schema(BAD_FIELD)),
    }
}

/// The fields that the items of a JSON array stand for, or the fault of the
/// first item that stands for none.
pub fn fields_from_json(items: &Vec<Json>) -> (r: DeltaResult<Vec<StructField>>)
    ensures
        match r {
            Ok(fields) => spec_fields(items_view(items@)) == Ok::<Seq<StructFieldView>, ErrorView>(
                fields_view(fields@),
            ),
            Err(e) => spec_fields(items_view(items@)) == Err::<Seq<StructFieldView>, ErrorView>(e@),
        },
    decreases items,
{
    let ghost all = items_view(items@);
    let mut fields: Vec<StructField> = Vec::new();
    let mut i: usize = 0;
    assert(all.take(0) =~= Seq::<JsonView>::empty());
    assert(fields_view(fields@) =~= Seq::<StructFieldView>::empty());
    while i < items.len()
        invariant
            i <= items.len(),
            all == items_view(items@),
            spec_fields(all.take(i as int)) == Ok::<Seq<StructFieldView>, ErrorView>(
                fields_view(fields@),
            ),
        decreases items.len() - i,
    {
        proof {
            assert(all.take(i + 1).drop_last() =~= all.take(i as int));
            assert(all.take(i + 1).last() == items@[i as int]@);
        }
        match field_from_json(&items[i]) {
            Ok(f) => {
                let ghost before = fields_view(fields@);
                fields.push(f);
                assert(fields_view(fields@) =~= before.push(f@));
            },
            Err(e) => {
                proof {
                    lemma_first_fault_decides(all, i + 1);
                }
                return Err(e);
            },
        }
        i += 1;
    }
    assert(all.take(items.len() as int) =~= all);
    Ok(fields)
}

impl Schema {
    /// The schema that a JSON value stands for, or why it stands for none.
    pub fn from_json(j: &Json) -> (r: DeltaResult<Schema>)
        ensures
            result_view(r) == spec_schema(j@),
    {
        match data_type_from_json(j) {
            Ok(DataType::Struct(fields)) => {
                proof {
                    lemma_struct_view(fields);
                }
                Ok(Schema { fields })
            },
            Ok(_) => Err(Error::schema(NOT_A_STRUCT)),
            Err(e) => Err(e),
        }
    }
}

} // verus!
