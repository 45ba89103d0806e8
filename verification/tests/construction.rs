use delta_kernel::actions::{Metadata, Protocol};
use delta_kernel::error::Error;
use delta_kernel::json::{parse_json, Json};
use delta_kernel::schema::{DataType, PrimitiveType, Schema, StructField};
use delta_kernel::table_configuration::{resolve, Resolved, TableConfiguration};
use delta_kernel::table_properties::TableProperties;
use delta_kernel::table_properties::ColumnMappingMode;
use std::sync::Arc;
use url::Url;

const PLAIN: &str = r#"{"type":"struct","fields":[{"name":"value","type":"integer","nullable":true,"metadata":{}}]}"#;

const MAPPED: &str = r#"{"type":"struct","fields":[{"name":"value","type":"integer","nullable":true,"metadata":{"delta.columnMapping.id":1,"delta.columnMapping.physicalName":"col-1"}}]}"#;

fn names(list: &[&str]) -> Option<Vec<String>> {
    Some(list.iter().map(|s| s.to_string()).collect())
}

fn metadata(schema: &str, configuration: &[(&str, &str)]) -> Metadata {
    Metadata {
        schema_string: schema.to_string(),
        configuration: configuration
            .iter()
            .map(|(k, v)| (k.to_string(), v.to_string()))
            .collect(),
        ..Default::default()
    }
}

fn root() -> Url {
    Url::try_from("file:///").unwrap()
}

fn modern(reader: &[&str], writer: &[&str]) -> Protocol {
    Protocol::try_new(3, 7, names(reader), names(writer)).unwrap()
}

#[test]
fn construction_succeeds_when_every_check_passes() {
    let config =
        TableConfiguration::try_new(metadata(PLAIN, &[]), modern(&[], &[]), root(), 12).unwrap();
    assert_eq!(config.version(), 12);
    assert_eq!(config.table_root(), &root());
    assert_eq!(config.column_mapping_mode(), ColumnMappingMode::Disabled);
    assert_eq!(config.schema().fields.len(), 1);
    assert_eq!(config.schema().fields[0].name, "value");
}

#[test]
fn construction_accepts_legacy_protocol() {
    let protocol = Protocol::try_new(1, 2, None, None).unwrap();
    let config = TableConfiguration::try_new(metadata(PLAIN, &[]), protocol, root(), 0);
    assert!(config.is_ok());
}

#[test]
fn construction_fails_on_unsupported_reader_version() {
    let protocol = Protocol::try_new(4, 7, None, names(&[])).unwrap();
    let result = TableConfiguration::try_new(metadata(PLAIN, &[]), protocol, root(), 0);
    match result {
        Err(Error::Unsupported(msg)) => assert_eq!(msg, "Unsupported minimum reader version"),
        other => panic!("unexpected result: {:?}", other),
    }
}

#[test]
fn construction_fails_on_reader_features_below_version_three() {
    let protocol = Protocol::try_new(2, 7, names(&["deletionVectors"]), names(&[])).unwrap();
    let result = TableConfiguration::try_new(metadata(PLAIN, &[]), protocol, root(), 0);
    match result {
        Err(Error::InvalidProtocol(msg)) => assert_eq!(
            msg,
            "Reader features must not be present when minimum reader version = 1 or 2"
        ),
        other => panic!("unexpected result: {:?}", other),
    }
}

#[test]
fn construction_fails_on_unknown_reader_feature_alone() {
    let result = TableConfiguration::try_new(
        metadata(PLAIN, &[]),
        modern(&["deletionVectors", "mystery"], &["deletionVectors"]),
        root(),
        0,
    );
    match result {
        Err(Error::Unsupported(msg)) => assert_eq!(
            msg,
            "Unknown ReaderFeatures: \"mystery\". Supported ReaderFeatures: \"columnMapping\", \"deletionVectors\", \"timestampNtz\", \"typeWidening\", \"typeWidening-preview\", \"vacuumProtocolCheck\", \"v2Checkpoint\", \"variantType\", \"variantType-preview\""
        ),
        other => panic!("unexpected result: {:?}", other),
    }
}

#[test]
fn construction_fails_on_unknown_writer_feature_alone() {
    let result = TableConfiguration::try_new(
        metadata(PLAIN, &[]),
        modern(&[], &["appendOnly", "mystery", "enigma"]),
        root(),
        0,
    );
    match result {
        Err(Error::Unsupported(msg)) => {
            assert!(msg.starts_with("Unknown WriterFeatures: \"mystery\", \"enigma\". Supported WriterFeatures: \"appendOnly\", \"invariants\""));
            assert!(msg.ends_with("\"variantType\", \"variantType-preview\""));
        }
        other => panic!("unexpected result: {:?}", other),
    }
}

#[test]
fn construction_fails_on_text_that_is_not_json() {
    let result =
        TableConfiguration::try_new(metadata("{not json", &[]), modern(&[], &[]), root(), 0);
    assert!(matches!(result, Err(Error::MalformedJson(_))));
    let result = TableConfiguration::try_new(metadata("", &[]), modern(&[], &[]), root(), 0);
    assert!(matches!(result, Err(Error::MalformedJson(_))));
}

#[test]
fn construction_fails_on_json_that_is_no_schema() {
    let result = TableConfiguration::try_new(metadata("[1,2]", &[]), modern(&[], &[]), root(), 0);
    match result {
        Err(Error::Schema(msg)) => {
            assert_eq!(msg, "a type is a name or an object with a member type")
        }
        other => panic!("unexpected result: {:?}", other),
    }
    let result =
        TableConfiguration::try_new(metadata("\"integer\"", &[]), modern(&[], &[]), root(), 0);
    match result {
        Err(Error::Schema(msg)) => assert_eq!(msg, "a schema is a struct type"),
        other => panic!("unexpected result: {:?}", other),
    }
}

#[test]
fn construction_fails_on_annotations_without_column_mapping() {
    let result = TableConfiguration::try_new(metadata(MAPPED, &[]), modern(&[], &[]), root(), 0);
    match result {
        Err(Error::InvalidColumnMappingMode(msg)) => assert_eq!(
            msg,
            "Column mapping is not enabled but field 'value' is annotated with delta.columnMapping.physicalName"
        ),
        other => panic!("unexpected result: {:?}", other),
    }
}

#[test]
fn construction_fails_on_column_mapping_without_annotations() {
    let result = TableConfiguration::try_new(
        metadata(PLAIN, &[("delta.columnMapping.mode", "name")]),
        modern(&["columnMapping"], &["columnMapping"]),
        root(),
        0,
    );
    match result {
        Err(Error::InvalidColumnMappingMode(msg)) => assert_eq!(
            msg,
            "Column mapping is enabled but field 'value' lacks the delta.columnMapping.physicalName annotation"
        ),
        other => panic!("unexpected result: {:?}", other),
    }
}

#[test]
fn construction_succeeds_with_column_mapping_and_annotations() {
    let config = TableConfiguration::try_new(
        metadata(MAPPED, &[("delta.columnMapping.mode", "id")]),
        modern(&["columnMapping"], &["columnMapping"]),
        root(),
        0,
    )
    .unwrap();
    assert_eq!(config.column_mapping_mode(), ColumnMappingMode::Id);
}

#[test]
fn schema_check_comes_before_feature_check() {
    // Text that is no JSON, and a protocol that cannot be read.
    let result = TableConfiguration::try_new(
        metadata("{not json", &[]),
        modern(&["mystery"], &[]),
        root(),
        0,
    );
    assert!(matches!(result, Err(Error::MalformedJson(_))));
    // JSON that is no schema, and a protocol that cannot be read.
    let result = TableConfiguration::try_new(
        metadata("[1,2]", &[]),
        Protocol::try_new(4, 7, None, names(&["mystery"])).unwrap(),
        root(),
        0,
    );
    match result {
        Err(Error::Schema(msg)) => {
            assert_eq!(msg, "a type is a name or an object with a member type")
        }
        other => panic!("unexpected result: {:?}", other),
    }
    // A schema, and a protocol that cannot be read: the protocol's error.
    let result = TableConfiguration::try_new(
        metadata(PLAIN, &[]),
        Protocol::try_new(4, 7, None, names(&["mystery"])).unwrap(),
        root(),
        0,
    );
    match result {
        Err(Error::Unsupported(msg)) => assert_eq!(msg, "Unsupported minimum reader version"),
        other => panic!("unexpected result: {:?}", other),
    }
}

#[test]
fn feature_check_comes_before_the_checks_of_the_schema() {
    // Annotations without column mapping, and an unknown reader feature.
    let result = TableConfiguration::try_new(
        metadata(MAPPED, &[]),
        modern(&["mystery"], &[]),
        root(),
        0,
    );
    assert!(matches!(result, Err(Error::Unsupported(_))));
    let document = parse_json(MAPPED).unwrap();
    assert!(matches!(
        resolve(&document, &metadata("", &[]), &modern(&[], &["mystery"])),
        Err(Error::Unsupported(_))
    ));
    assert!(matches!(
        resolve(&Json::Null, &metadata("", &[]), &modern(&["mystery"], &[])),
        Err(Error::Schema(_))
    ));
}

#[test]
fn nested_timestamp_ntz_needs_the_feature() {
    let schema = r#"{"type":"struct","fields":[{"name":"a","type":{"type":"array","elementType":{"type":"struct","fields":[{"name":"ts","type":"timestamp_ntz","nullable":true,"metadata":{}}]},"containsNull":true},"nullable":true,"metadata":{}}]}"#;
    let result = TableConfiguration::try_new(
        metadata(schema, &[]),
        modern(&["timestampNtz"], &[]),
        root(),
        0,
    );
    assert!(matches!(result, Err(Error::Unsupported(_))));
    let result = TableConfiguration::try_new(
        metadata(schema, &[]),
        modern(&["timestampNtz"], &["timestampNtz"]),
        root(),
        0,
    );
    assert!(result.is_ok());
}

#[test]
fn variant_in_a_map_value_needs_the_feature() {
    let schema = r#"{"type":"struct","fields":[{"name":"m","type":{"type":"map","keyType":"string","valueType":"variant","valueContainsNull":false},"nullable":false,"metadata":{}}]}"#;
    let result = TableConfiguration::try_new(
        metadata(schema, &[]),
        modern(&[], &["variantType"]),
        root(),
        0,
    );
    assert!(matches!(result, Err(Error::Unsupported(_))));
    let result = TableConfiguration::try_new(
        metadata(schema, &[]),
        modern(&["variantType"], &["variantType"]),
        root(),
        0,
    );
    assert!(result.is_ok());
}

#[test]
fn update_without_changes_keeps_everything_but_the_version() {
    let config = TableConfiguration::try_new(
        metadata(PLAIN, &[("delta.enableDeletionVectors", "true")]),
        modern(&["deletionVectors"], &["deletionVectors"]),
        root(),
        3,
    )
    .unwrap();
    let next = TableConfiguration::try_new_from(&config, None, None, 9).unwrap();
    assert_eq!(next.version(), 9);
    assert_eq!(config.version(), 3);
    assert_eq!(next.metadata(), config.metadata());
    assert_eq!(next.protocol(), config.protocol());
    assert_eq!(next.schema(), config.schema());
    assert!(Arc::ptr_eq(&next.schema(), &config.schema()));
    assert_eq!(next.table_properties(), config.table_properties());
    assert_eq!(next.column_mapping_mode(), config.column_mapping_mode());
    assert_eq!(next.table_root(), config.table_root());
    assert!(next.is_deletion_vector_enabled());
}

#[test]
fn update_with_new_metadata_is_checked_again() {
    let config =
        TableConfiguration::try_new(metadata(PLAIN, &[]), modern(&[], &[]), root(), 0).unwrap();
    let result =
        TableConfiguration::try_new_from(&config, Some(metadata("nonsense", &[])), None, 1);
    assert!(matches!(result, Err(Error::MalformedJson(_))));
    assert_eq!(config.version(), 0);
    let next = TableConfiguration::try_new_from(
        &config,
        Some(metadata(PLAIN, &[("delta.appendOnly", "true")])),
        None,
        1,
    )
    .unwrap();
    assert_eq!(next.table_properties().append_only, Some(true));
    assert_eq!(next.protocol(), config.protocol());
}

#[test]
fn update_with_new_protocol_is_checked_again() {
    let schema = r#"{"type":"struct","fields":[{"name":"v","type":"variant","nullable":true,"metadata":{}}]}"#;
    let config = TableConfiguration::try_new(
        metadata(schema, &[]),
        modern(&["variantType"], &["variantType"]),
        root(),
        0,
    )
    .unwrap();
    let result = TableConfiguration::try_new_from(&config, None, Some(modern(&[], &[])), 1);
    assert!(matches!(result, Err(Error::Unsupported(_))));
    let next = TableConfiguration::try_new_from(
        &config,
        None,
        Some(modern(&["variantType", "v2Checkpoint"], &["variantType", "v2Checkpoint"])),
        1,
    )
    .unwrap();
    assert!(next.is_v2_checkpoint_write_supported());
    assert!(!config.is_v2_checkpoint_write_supported());
    assert_eq!(next.metadata(), config.metadata());
}

#[test]
fn clone_is_equal() {
    let config =
        TableConfiguration::try_new(metadata(PLAIN, &[]), modern(&[], &[]), root(), 5).unwrap();
    let copy = config.clone();
    assert_eq!(copy, config);
    config.validated();
}

#[test]
fn resolve_reads_schema_properties_and_mode() {
    let document = parse_json(MAPPED).unwrap();
    let resolved = resolve(
        &document,
        &metadata("ignored", &[("delta.columnMapping.mode", "name"), ("delta.appendOnly", "true")]),
        &modern(&["columnMapping"], &["columnMapping"]),
    )
    .unwrap();
    assert_eq!(
        resolved,
        Resolved {
            schema: Schema {
                fields: vec![StructField {
                    name: "value".to_string(),
                    data_type: DataType::Primitive(PrimitiveType::Integer),
                    nullable: true,
                    metadata: vec![
                        (
                            "delta.columnMapping.id".to_string(),
                            delta_kernel::schema::MetadataValue::Number(1)
                        ),
                        (
                            "delta.columnMapping.physicalName".to_string(),
                            delta_kernel::schema::MetadataValue::String("col-1".to_string())
                        ),
                    ],
                }],
            },
            table_properties: TableProperties {
                append_only: Some(true),
                column_mapping_mode: Some(ColumnMappingMode::Name),
                ..Default::default()
            },
            column_mapping_mode: ColumnMappingMode::Name,
        }
    );
}

#[test]
fn resolve_reports_the_first_fault() {
    let not_a_schema = Json::Array(Vec::new());
    assert!(matches!(
        resolve(&not_a_schema, &metadata("", &[]), &modern(&[], &[])),
        Err(Error::Schema(_))
    ));
    let both = parse_json(r#"{"type":"struct","fields":[
        {"name":"t","type":"timestamp_ntz","nullable":true,"metadata":{"delta.columnMapping.id":1}},
        {"name":"v","type":"variant","nullable":true,"metadata":{}}]}"#)
    .unwrap();
    assert!(matches!(
        resolve(&both, &metadata("", &[]), &modern(&[], &[])),
        Err(Error::InvalidColumnMappingMode(_))
    ));
    let types_only = parse_json(r#"{"type":"struct","fields":[
        {"name":"v","type":"variant","nullable":true,"metadata":{}},
        {"name":"t","type":"timestamp_ntz","nullable":true,"metadata":{}}]}"#)
    .unwrap();
    match resolve(&types_only, &metadata("", &[]), &modern(&[], &[])) {
        Err(Error::Unsupported(msg)) => assert!(msg.contains("TIMESTAMP_NTZ")),
        other => panic!("unexpected result: {:?}", other),
    }
    match resolve(
        &types_only,
        &metadata("", &[]),
        &modern(&["timestampNtz"], &["timestampNtz"]),
    ) {
        Err(Error::Unsupported(msg)) => assert!(msg.contains("VARIANT")),
        other => panic!("unexpected result: {:?}", other),
    }
}
