use delta_kernel::actions::{Metadata, Protocol};
use delta_kernel::error::Error;
use delta_kernel::table_configuration::TableConfiguration;
use delta_kernel::table_features::{ReaderFeature, WriterFeature};
use delta_kernel::table_properties::TableProperties;
use url::Url;

const INTEGER_SCHEMA: &str = r#"{"type":"struct","fields":[{"name":"value","type":"integer","nullable":true,"metadata":{}}]}"#;

fn assert_result_error_with_message<T>(res: Result<T, Error>, message: &str) {
    match res {
        Ok(_) => panic!("Expected error, but got Ok result"),
        Err(error) => {
            let error_str = error.to_string();
            assert!(
                error_str.contains(message),
                "Error message does not contain the expected message.\nExpected message:\t{message}\nActual message:\t\t{error_str}"
            );
        }
    }
}

fn pair(key: &str, value: &str) -> (String, String) {
    (key.to_string(), value.to_string())
}

#[test]
fn dv_supported_not_enabled() {
    let metadata = Metadata {
        configuration: vec![pair("delta.enableChangeDataFeed", "true")],
        schema_string: INTEGER_SCHEMA.to_string(),
        ..Default::default()
    };
    let protocol = Protocol::try_new(
        3,
        7,
        Some(vec![ReaderFeature::DeletionVectors.to_string()]),
        Some(vec![WriterFeature::DeletionVectors.to_string()]),
    )
    .unwrap();
    let table_root = Url::try_from("file:///").unwrap();
    let table_config = TableConfiguration::try_new(metadata, protocol, table_root, 0).unwrap();
    assert!(table_config.is_deletion_vector_supported());
    assert!(!table_config.is_deletion_vector_enabled());
}

#[test]
fn dv_enabled() {
    let metadata = Metadata {
        configuration: vec![
            pair("delta.enableChangeDataFeed", "true"),
            pair("delta.enableDeletionVectors", "true"),
        ],
        schema_string: INTEGER_SCHEMA.to_string(),
        ..Default::default()
    };
    let protocol = Protocol::try_new(
        3,
        7,
        Some(vec![ReaderFeature::DeletionVectors.to_string()]),
        Some(vec![WriterFeature::DeletionVectors.to_string()]),
    )
    .unwrap();
    let table_root = Url::try_from("file:///").unwrap();
    let table_config = TableConfiguration::try_new(metadata, protocol, table_root, 0).unwrap();
    assert!(table_config.is_deletion_vector_supported());
    assert!(table_config.is_deletion_vector_enabled());
}

#[test]
fn ict_supported_and_enabled() {
    let metadata = Metadata {
        schema_string: INTEGER_SCHEMA.to_string(),
        configuration: vec![
            pair("delta.enableInCommitTimestamps", "true"),
            pair("delta.inCommitTimestampEnablementVersion", "5"),
            pair("delta.inCommitTimestampEnablementTimestamp", "100"),
        ],
        ..Default::default()
    };
    let protocol = Protocol::try_new(
        3,
        7,
        Some(vec![]),
        Some(vec![WriterFeature::InCommitTimestamp.to_string()]),
    )
    .unwrap();
    let table_root = Url::try_from("file:///").unwrap();
    let table_config = TableConfiguration::try_new(metadata, protocol, table_root, 0).unwrap();
    assert!(table_config.is_in_commit_timestamps_supported());
    assert!(table_config.is_in_commit_timestamps_enabled());
    let enablement = table_config.in_commit_timestamp_enablement().unwrap();
    assert_eq!(enablement, Some((5, 100)))
}

#[test]
fn ict_supported_and_enabled_without_enablement_info() {
    let metadata = Metadata {
        schema_string: INTEGER_SCHEMA.to_string(),
        configuration: vec![pair("delta.enableInCommitTimestamps", "true")],
        ..Default::default()
    };
    let protocol = Protocol::try_new(
        3,
        7,
        Some(vec![]),
        Some(vec![WriterFeature::InCommitTimestamp.to_string()]),
    )
    .unwrap();
    let table_root = Url::try_from("file:///").unwrap();
    let table_config = TableConfiguration::try_new(metadata, protocol, table_root, 0).unwrap();
    assert!(table_config.is_in_commit_timestamps_supported());
    assert!(table_config.is_in_commit_timestamps_enabled());
    assert!(matches!(
        table_config.in_commit_timestamp_enablement(),
        Err(Error::Generic(msg)) if msg.contains("Enablement version and timestamp are not present.")));
}

#[test]
fn ict_supported_and_not_enabled() {
    let metadata = Metadata {
        schema_string: INTEGER_SCHEMA.to_string(),
        ..Default::default()
    };
    let protocol = Protocol::try_new(
        3,
        7,
        Some(vec![]),
        Some(vec![WriterFeature::InCommitTimestamp.to_string()]),
    )
    .unwrap();
    let table_root = Url::try_from("file:///").unwrap();
    let table_config = TableConfiguration::try_new(metadata, protocol, table_root, 0).unwrap();
    assert!(table_config.is_in_commit_timestamps_supported());
    assert!(!table_config.is_in_commit_timestamps_enabled());
}

#[test]
fn fails_on_unsupported_feature() {
    let metadata = Metadata {
        schema_string: INTEGER_SCHEMA.to_string(),
        ..Default::default()
    };
    let protocol = Protocol::try_new(
        3,
        7,
        Some(vec!["unknown".to_string()]),
        Some(vec!["unknown".to_string()]),
    )
    .unwrap();
    let table_root = Url::try_from("file:///").unwrap();
    TableConfiguration::try_new(metadata, protocol, table_root, 0)
        .expect_err("Unknown feature is not supported in kernel");
}

#[test]
fn dv_not_supported() {
    let metadata = Metadata {
        configuration: vec![pair("delta.enableChangeDataFeed", "true")],
        schema_string: INTEGER_SCHEMA.to_string(),
        ..Default::default()
    };
    let protocol = Protocol::try_new(
        3,
        7,
        Some(vec![ReaderFeature::TimestampWithoutTimezone.to_string()]),
        Some(vec![WriterFeature::TimestampWithoutTimezone.to_string()]),
    )
    .unwrap();
    let table_root = Url::try_from("file:///").unwrap();
    let table_config = TableConfiguration::try_new(metadata, protocol, table_root, 0).unwrap();
    assert!(!table_config.is_deletion_vector_supported());
    assert!(!table_config.is_deletion_vector_enabled());
}

#[test]
fn test_try_new_from() {
    let schema_string = INTEGER_SCHEMA.to_string();
    let metadata = Metadata {
        configuration: vec![pair("delta.enableChangeDataFeed", "true")],
        schema_string: schema_string.clone(),
        ..Default::default()
    };
    let protocol = Protocol::try_new(
        3,
        7,
        Some(vec![ReaderFeature::DeletionVectors.to_string()]),
        Some(vec![WriterFeature::DeletionVectors.to_string()]),
    )
    .unwrap();
    let table_root = Url::try_from("file:///").unwrap();
    let table_config = TableConfiguration::try_new(metadata, protocol, table_root, 0).unwrap();

    let new_metadata = Metadata {
        configuration: vec![
            pair("delta.enableChangeDataFeed", "false"),
            pair("delta.enableDeletionVectors", "true"),
        ],
        schema_string,
        ..Default::default()
    };
    let new_protocol = Protocol::try_new(
        3,
        7,
        Some(vec![
            ReaderFeature::DeletionVectors.to_string(),
            ReaderFeature::V2Checkpoint.to_string(),
        ]),
        Some(vec![
            WriterFeature::DeletionVectors.to_string(),
            WriterFeature::V2Checkpoint.to_string(),
            WriterFeature::AppendOnly.to_string(),
        ]),
    )
    .unwrap();
    let new_version = 1;
    let new_table_config = TableConfiguration::try_new_from(
        &table_config,
        Some(new_metadata.clone()),
        Some(new_protocol.clone()),
        new_version,
    )
    .unwrap();

    assert_eq!(new_table_config.version(), new_version);
    assert_eq!(new_table_config.metadata(), &new_metadata);
    assert_eq!(new_table_config.protocol(), &new_protocol);
    assert_eq!(new_table_config.schema(), table_config.schema());
    assert_eq!(
        new_table_config.table_properties(),
        &TableProperties {
            enable_change_data_feed: Some(false),
            enable_deletion_vectors: Some(true),
            ..Default::default()
        }
    );
    assert_eq!(
        new_table_config.column_mapping_mode(),
        table_config.column_mapping_mode()
    );
    assert_eq!(new_table_config.table_root(), table_config.table_root());
}

#[test]
fn test_timestamp_ntz_validation_integration() {
    // Schema with TIMESTAMP_NTZ column
    let schema_string = r#"{"type":"struct","fields":[{"name":"ts","type":"timestamp_ntz","nullable":true,"metadata":{}}]}"#.to_string();
    let metadata = Metadata {
        schema_string,
        ..Default::default()
    };

    let protocol_without_timestamp_ntz_features =
        Protocol::try_new(3, 7, Some(vec![]), Some(vec![])).unwrap();

    let protocol_with_timestamp_ntz_features = Protocol::try_new(
        3,
        7,
        Some(vec![ReaderFeature::TimestampWithoutTimezone.to_string()]),
        Some(vec![WriterFeature::TimestampWithoutTimezone.to_string()]),
    )
    .unwrap();

    let table_root = Url::try_from("file:///").unwrap();

    let result = TableConfiguration::try_new(
        metadata.clone(),
        protocol_without_timestamp_ntz_features,
        table_root.clone(),
        0,
    );
    assert_result_error_with_message(result, "Unsupported: Table contains TIMESTAMP_NTZ columns but does not have the required 'timestampNtz' feature in reader and writer features");

    let result = TableConfiguration::try_new(
        metadata,
        protocol_with_timestamp_ntz_features,
        table_root,
        0,
    );
    assert!(
        result.is_ok(),
        "Should succeed when TIMESTAMP_NTZ is used with required features"
    );
}

#[test]
fn test_variant_validation_integration() {
    // Schema with VARIANT column
    let schema_string = r#"{"type":"struct","fields":[{"name":"v","type":"variant","nullable":true,"metadata":{}}]}"#.to_string();
    let metadata = Metadata {
        schema_string,
        ..Default::default()
    };

    let protocol_without_variant_features =
        Protocol::try_new(3, 7, Some(vec![]), Some(vec![])).unwrap();

    let protocol_with_variant_features = Protocol::try_new(
        3,
        7,
        Some(vec![ReaderFeature::VariantType.to_string()]),
        Some(vec![WriterFeature::VariantType.to_string()]),
    )
    .unwrap();

    let table_root = Url::try_from("file:///").unwrap();

    let result: Result<TableConfiguration, Error> = TableConfiguration::try_new(
        metadata.clone(),
        protocol_without_variant_features,
        table_root.clone(),
        0,
    );
    assert_result_error_with_message(result, "Unsupported: Table contains VARIANT columns but does not have the required 'variantType' feature in reader and writer features");

    let result =
        TableConfiguration::try_new(metadata, protocol_with_variant_features, table_root, 0);
    assert!(
        result.is_ok(),
        "Should succeed when VARIANT is used with required features"
    );
}
