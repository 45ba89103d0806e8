use delta_kernel::actions::Metadata;
use delta_kernel::column_mapping::validate_schema_column_mapping;
use delta_kernel::error::Error;
use delta_kernel::json::{find_member, parse_json, Json};
use delta_kernel::schema::decode::{
    data_type_from_json, data_type_of_name, decimal_type, field_from_json, get_flag, get_member,
    metadata_value,
};
use delta_kernel::schema::query::SchemaProperty;
use delta_kernel::schema::{DataType, MetadataValue, PrimitiveType, Schema, StructField};
use delta_kernel::table_properties::ColumnMappingMode;

fn schema(text: &str) -> Result<Schema, Error> {
    Metadata { schema_string: text.to_string(), ..Default::default() }.parse_schema()
}

fn field(name: &str, data_type: DataType) -> StructField {
    StructField { name: name.to_string(), data_type, nullable: true, metadata: Vec::new() }
}

fn schema_fault(text: &str) -> String {
    match schema(text) {
        Err(Error::Schema(msg)) => msg,
        other => panic!("unexpected result: {:?}", other),
    }
}

#[test]
fn json_values_are_converted() {
    assert_eq!(parse_json("null").unwrap(), Json::Null);
    assert_eq!(parse_json("true").unwrap(), Json::Bool(true));
    assert_eq!(parse_json(" 17 ").unwrap(), Json::Number(Some(17)));
    assert_eq!(parse_json("-9223372036854775808").unwrap(), Json::Number(Some(i64::MIN)));
    assert_eq!(parse_json("9223372036854775808").unwrap(), Json::Number(None));
    assert_eq!(parse_json("1.5").unwrap(), Json::Number(None));
    assert_eq!(parse_json("1.0").unwrap(), Json::Number(None));
    assert_eq!(parse_json("\"a\\u00e9\\n\"").unwrap(), Json::String("aé\n".to_string()));
    assert_eq!(
        parse_json("[1, [], \"x\"]").unwrap(),
        Json::Array(vec![
            Json::Number(Some(1)),
            Json::Array(Vec::new()),
            Json::String("x".to_string())
        ])
    );
}

#[test]
fn json_objects_hold_each_key_once() {
    assert_eq!(
        parse_json(r#"{"b": 1, "a": {"c": null}, "b": 2}"#).unwrap(),
        Json::Object(vec![
            ("a".to_string(), Json::Object(vec![("c".to_string(), Json::Null)])),
            ("b".to_string(), Json::Number(Some(2))),
        ])
    );
}

#[test]
fn json_faults_are_reported() {
    for text in ["", "{", "[1,]", "{\"a\":1,}", "nul", "1 2", "'a'"] {
        assert!(matches!(parse_json(text), Err(Error::MalformedJson(_))), "{text}");
    }
}

#[test]
fn members_are_found_by_key() {
    let members = match parse_json(r#"{"x": true, "y": 3}"#).unwrap() {
        Json::Object(members) => members,
        other => panic!("unexpected value: {:?}", other),
    };
    assert_eq!(find_member(&members, "y"), Some(1));
    assert_eq!(find_member(&members, "z"), None);
    assert_eq!(get_member(&members, "y"), Some(&Json::Number(Some(3))));
    assert_eq!(get_member(&members, "z"), None);
    assert_eq!(get_flag(&members, "x"), Some(true));
    assert_eq!(get_flag(&members, "y"), None);
    assert_eq!(get_flag(&members, "z"), None);
}

#[test]
fn primitive_types_by_name() {
    let all = [
        ("string", PrimitiveType::String),
        ("long", PrimitiveType::Long),
        ("integer", PrimitiveType::Integer),
        ("short", PrimitiveType::Short),
        ("byte", PrimitiveType::Byte),
        ("float", PrimitiveType::Float),
        ("double", PrimitiveType::Double),
        ("boolean", PrimitiveType::Boolean),
        ("binary", PrimitiveType::Binary),
        ("date", PrimitiveType::Date),
        ("timestamp", PrimitiveType::Timestamp),
        ("timestamp_ntz", PrimitiveType::TimestampNtz),
        ("decimal(10,2)", PrimitiveType::Decimal(10, 2)),
    ];
    for (name, primitive) in all {
        assert_eq!(data_type_of_name(name), Some(DataType::Primitive(primitive)));
    }
    assert_eq!(data_type_of_name("variant"), Some(DataType::Variant));
    assert_eq!(data_type_of_name("Integer"), None);
    assert_eq!(data_type_of_name("int"), None);
    assert_eq!(data_type_of_name(""), None);
}

#[test]
fn decimal_types() {
    assert_eq!(decimal_type("decimal(10,2)"), Some((10, 2)));
    assert_eq!(decimal_type("decimal(1,0)"), Some((1, 0)));
    assert_eq!(decimal_type("decimal(38,38)"), Some((38, 38)));
    assert_eq!(decimal_type("decimal(038,007)"), Some((38, 7)));
    assert_eq!(decimal_type("decimal(39,2)"), None);
    assert_eq!(decimal_type("decimal(0,0)"), None);
    assert_eq!(decimal_type("decimal(5,6)"), None);
    assert_eq!(decimal_type("decimal(10, 2)"), None);
    assert_eq!(decimal_type("decimal(10)"), None);
    assert_eq!(decimal_type("decimal(10,)"), None);
    assert_eq!(decimal_type("decimal(,2)"), None);
    assert_eq!(decimal_type("decimal(10,2,3)"), None);
    assert_eq!(decimal_type("decimal(10,2"), None);
    assert_eq!(decimal_type("decimal10,2)"), None);
    assert_eq!(decimal_type("Decimal(10,2)"), None);
    assert_eq!(decimal_type("decimal(1é,2)"), None);
    assert_eq!(decimal_type("decimal()"), None);
    assert_eq!(decimal_type(""), None);
}

#[test]
fn nested_schema_is_read() {
    let text = r#"{
        "type": "struct",
        "fields": [
            {"name": "id", "type": "long", "nullable": false,
             "metadata": {"delta.columnMapping.id": 4, "comment": "key", "flag": true, "odd": [1]}},
            {"name": "tags", "type": {"type": "array", "elementType": "string", "containsNull": false},
             "nullable": true, "metadata": {}},
            {"name": "attrs", "type": {"type": "map", "keyType": "string",
                "valueType": {"type": "struct", "fields": [
                    {"name": "amount", "type": "decimal(12,4)", "nullable": true, "metadata": {}}]},
                "valueContainsNull": true},
             "nullable": true, "metadata": {}}
        ]
    }"#;
    let parsed = schema(text).unwrap();
    let expected = Schema {
        fields: vec![
            StructField {
                name: "id".to_string(),
                data_type: DataType::Primitive(PrimitiveType::Long),
                nullable: false,
                metadata: vec![
                    ("comment".to_string(), MetadataValue::String("key".to_string())),
                    ("delta.columnMapping.id".to_string(), MetadataValue::Number(4)),
                    ("flag".to_string(), MetadataValue::Boolean(true)),
                    ("odd".to_string(), MetadataValue::Other),
                ],
            },
            field(
                "tags",
                DataType::Array {
                    element_type: Box::new(DataType::Primitive(PrimitiveType::String)),
                    contains_null: false,
                },
            ),
            field(
                "attrs",
                DataType::MapOf {
                    key_type: Box::new(DataType::Primitive(PrimitiveType::String)),
                    value_type: Box::new(DataType::Struct(vec![field(
                        "amount",
                        DataType::Primitive(PrimitiveType::Decimal(12, 4)),
                    )])),
                    value_contains_null: true,
                },
            ),
        ],
    };
    assert_eq!(parsed, expected);
    assert_eq!(
        parsed.fields[0].annotation("comment"),
        Some(&MetadataValue::String("key".to_string()))
    );
    assert_eq!(parsed.fields[0].annotation("missing"), None);
}

#[test]
fn empty_struct_is_a_schema() {
    assert_eq!(schema(r#"{"type":"struct","fields":[]}"#).unwrap(), Schema { fields: Vec::new() });
}

#[test]
fn schema_faults() {
    assert_eq!(schema_fault("\"long\""), "a schema is a struct type");
    assert_eq!(
        schema_fault(r#"{"type":"array","elementType":"long","containsNull":true}"#),
        "a schema is a struct type"
    );
    assert_eq!(schema_fault("17"), "a type is a name or an object with a member type");
    assert_eq!(schema_fault("{}"), "a type is a name or an object with a member type");
    assert_eq!(schema_fault(r#"{"type":3}"#), "a type is a name or an object with a member type");
    assert_eq!(
        schema_fault(r#"{"type":"tuple"}"#),
        "an object type is a struct, an array or a map"
    );
    assert_eq!(schema_fault(r#"{"type":"struct"}"#), "a struct type has an array of fields");
    assert_eq!(
        schema_fault(r#"{"type":"struct","fields":{}}"#),
        "a struct type has an array of fields"
    );
    assert_eq!(
        schema_fault(r#"{"type":"struct","fields":[3]}"#),
        "a field is an object with a name, a type, a flag nullable and metadata"
    );
    assert_eq!(
        schema_fault(r#"{"type":"struct","fields":[{"name":"a","type":"long","nullable":true}]}"#),
        "a field is an object with a name, a type, a flag nullable and metadata"
    );
    assert_eq!(
        schema_fault(
            r#"{"type":"struct","fields":[{"name":"a","type":"long","nullable":"yes","metadata":{}}]}"#
        ),
        "a field is an object with a name, a type, a flag nullable and metadata"
    );
    assert_eq!(
        schema_fault(
            r#"{"type":"struct","fields":[{"name":"a","type":"number","nullable":true,"metadata":{}}]}"#
        ),
        "unknown type name"
    );
}

#[test]
fn the_first_faulty_field_decides() {
    let text = r#"{"type":"struct","fields":[
        {"name":"a","type":"long","nullable":true,"metadata":{}},
        {"name":"b","type":{"type":"array","elementType":"long"},"nullable":true,"metadata":{}},
        {"name":"c","type":"nothing","nullable":true,"metadata":{}}]}"#;
    assert_eq!(schema_fault(text), "an array type has an element type and a flag containsNull");
}

#[test]
fn map_faults() {
    let bad = parse_json(r#"{"type":"map","keyType":"long","valueType":"long"}"#).unwrap();
    match data_type_from_json(&bad) {
        Err(Error::Schema(msg)) => assert_eq!(
            msg,
            "a map type has a key type, a value type and a flag valueContainsNull"
        ),
        other => panic!("unexpected result: {:?}", other),
    }
    let bad_key = parse_json(
        r#"{"type":"map","keyType":"k","valueType":{"type":"x"},"valueContainsNull":true}"#,
    )
    .unwrap();
    match data_type_from_json(&bad_key) {
        Err(Error::Schema(msg)) => assert_eq!(msg, "unknown type name"),
        other => panic!("unexpected result: {:?}", other),
    }
}

#[test]
fn fields_and_metadata_values() {
    let json = parse_json(r#"{"name":"a","type":"date","nullable":false,"metadata":{"k":null}}"#)
        .unwrap();
    assert_eq!(
        field_from_json(&json).unwrap(),
        StructField {
            name: "a".to_string(),
            data_type: DataType::Primitive(PrimitiveType::Date),
            nullable: false,
            metadata: vec![("k".to_string(), MetadataValue::Other)],
        }
    );
    assert_eq!(metadata_value(&Json::Number(Some(-3))), MetadataValue::Number(-3));
    assert_eq!(metadata_value(&Json::Number(None)), MetadataValue::Other);
    assert_eq!(metadata_value(&Json::Null), MetadataValue::Other);
    assert_eq!(metadata_value(&Json::Bool(false)), MetadataValue::Boolean(false));
}

#[test]
fn schema_properties_are_found_at_any_depth() {
    let plain = schema(r#"{"type":"struct","fields":[{"name":"a","type":"timestamp","nullable":true,"metadata":{}}]}"#).unwrap();
    assert!(!plain.has(SchemaProperty::UsesTimestampNtz));
    assert!(!plain.has(SchemaProperty::UsesVariant));
    assert!(!plain.has_invariants());
    assert!(!Schema { fields: Vec::new() }.has(SchemaProperty::UsesVariant));

    let deep = schema(r#"{"type":"struct","fields":[
        {"name":"a","type":"long","nullable":true,"metadata":{}},
        {"name":"b","type":{"type":"map","keyType":"timestamp_ntz","valueType":
            {"type":"array","elementType":{"type":"struct","fields":[
                {"name":"c","type":"variant","nullable":true,"metadata":{"delta.invariants":"x"}}]},
             "containsNull":true},"valueContainsNull":true},"nullable":true,"metadata":{}}]}"#)
    .unwrap();
    assert!(deep.has(SchemaProperty::UsesTimestampNtz));
    assert!(deep.has(SchemaProperty::UsesVariant));
    assert!(deep.has(SchemaProperty::HasInvariants));
    assert!(deep.has_invariants());
    assert!(!deep.fields[0].has(SchemaProperty::UsesVariant));
    assert!(deep.fields[1].has(SchemaProperty::UsesVariant));
    assert!(deep.fields[1].data_type.has(SchemaProperty::HasInvariants));
}

fn mapping_fault(text: &str, mode: ColumnMappingMode) -> String {
    match validate_schema_column_mapping(&schema(text).unwrap(), mode) {
        Err(Error::InvalidColumnMappingMode(msg)) => msg,
        other => panic!("unexpected result: {:?}", other),
    }
}

const ANNOTATED: &str = r#"{"type":"struct","fields":[
    {"name":"a","type":{"type":"struct","fields":[
        {"name":"b","type":"long","nullable":true,
         "metadata":{"delta.columnMapping.id":2,"delta.columnMapping.physicalName":"col-2"}}]},
     "nullable":true,
     "metadata":{"delta.columnMapping.id":1,"delta.columnMapping.physicalName":"col-1"}}]}"#;

#[test]
fn column_mapping_accepts_consistent_schemas() {
    let annotated = schema(ANNOTATED).unwrap();
    assert!(validate_schema_column_mapping(&annotated, ColumnMappingMode::Id).is_ok());
    assert!(validate_schema_column_mapping(&annotated, ColumnMappingMode::Name).is_ok());
    let bare = schema(r#"{"type":"struct","fields":[{"name":"a","type":"long","nullable":true,"metadata":{"comment":"c"}}]}"#).unwrap();
    assert!(validate_schema_column_mapping(&bare, ColumnMappingMode::Disabled).is_ok());
    let empty = Schema { fields: Vec::new() };
    assert!(validate_schema_column_mapping(&empty, ColumnMappingMode::Name).is_ok());
}

#[test]
fn column_mapping_names_the_offending_field() {
    assert_eq!(
        mapping_fault(ANNOTATED, ColumnMappingMode::Disabled),
        "Column mapping is not enabled but field 'a' is annotated with delta.columnMapping.physicalName"
    );
    let inner_bare = r#"{"type":"struct","fields":[
        {"name":"a","type":{"type":"struct","fields":[
            {"name":"b","type":"long","nullable":true,
             "metadata":{"delta.columnMapping.physicalName":"col-2"}}]},
         "nullable":true,
         "metadata":{"delta.columnMapping.id":1,"delta.columnMapping.physicalName":"col-1"}}]}"#;
    assert_eq!(
        mapping_fault(inner_bare, ColumnMappingMode::Name),
        "Column mapping is enabled but field 'a.b' lacks the delta.columnMapping.id annotation"
    );
}

#[test]
fn column_mapping_checks_the_kind_of_annotation() {
    let text_id = r#"{"type":"struct","fields":[{"name":"a","type":"long","nullable":true,
        "metadata":{"delta.columnMapping.id":"1","delta.columnMapping.physicalName":"col-1"}}]}"#;
    assert_eq!(
        mapping_fault(text_id, ColumnMappingMode::Id),
        "The delta.columnMapping.id annotation on field 'a' must be a number"
    );
    let number_name = r#"{"type":"struct","fields":[{"name":"a","type":"long","nullable":true,
        "metadata":{"delta.columnMapping.id":1,"delta.columnMapping.physicalName":7}}]}"#;
    assert_eq!(
        mapping_fault(number_name, ColumnMappingMode::Id),
        "The delta.columnMapping.physicalName annotation on field 'a' must be a string"
    );
}

#[test]
fn column_mapping_looks_into_arrays_and_maps() {
    let in_array = r#"{"type":"struct","fields":[{"name":"a","type":{"type":"array","elementType":
        {"type":"struct","fields":[{"name":"b","type":"long","nullable":true,"metadata":{}}]},
        "containsNull":true},"nullable":true,
        "metadata":{"delta.columnMapping.id":1,"delta.columnMapping.physicalName":"col-1"}}]}"#;
    assert_eq!(
        mapping_fault(in_array, ColumnMappingMode::Name),
        "Column mapping is enabled but field 'a.<array element>.b' lacks the delta.columnMapping.physicalName annotation"
    );
    let in_map = r#"{"type":"struct","fields":[{"name":"m","type":{"type":"map","keyType":"string",
        "valueType":{"type":"struct","fields":[{"name":"v","type":"long","nullable":true,
            "metadata":{"delta.columnMapping.id":3}}]},
        "valueContainsNull":true},"nullable":true,"metadata":{}}]}"#;
    assert_eq!(
        mapping_fault(in_map, ColumnMappingMode::Disabled),
        "Column mapping is not enabled but field 'm.<map value>.v' is annotated with delta.columnMapping.id"
    );
}
