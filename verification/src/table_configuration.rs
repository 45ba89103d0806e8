//! [`TableConfiguration`]: the checked configuration of one version of a
//! table, and the questions it answers about table features.
//!
//! A protocol, a schema and a set of table properties mean little one by one:
//! whether deletion vectors may be written, say, depends on the reader and
//! writer features of the protocol and on a table property. A
//! [`TableConfiguration`] holds them together. It can only be built by
//! [`TableConfiguration::try_new`] and [`TableConfiguration::try_new_from`],
//! which check that the parts fit one another, so every value of the type is
//! a table version that this implementation can read.

use crate::actions::{spec_parse_schema, Metadata, MetadataView, Protocol, ProtocolView};
use crate::column_mapping::{
    column_mapping_mode, spec_column_mapping_mode, spec_validate_column_mapping,
    validate_schema_column_mapping,
};
use crate::error::{result_view, unit_result_view, DeltaResult, Error, ErrorView};
use crate::json::{parse_json, spec_parse_json, Json, JsonView};
use crate::schema::decode::spec_schema;
use crate::feature_validation::{
    spec_validate_timestamp_ntz, spec_validate_variant, validate_timestamp_ntz_feature_support,
    validate_variant_type_feature_support,
};
use crate::schema::query::has_invariants;
use crate::schema::{Schema, SchemaView};
use crate::table_features::{
    all_features_supported, all_supported, names, ReaderFeature, WriterFeature,
};
use crate::table_properties::{spec_table_properties, ColumnMappingMode, TableProperties};
use std::sync::Arc;
use url::Url;
use vstd::prelude::*;

verus! {

/// The number of a table version.
pub type Version = u64;

/// A schema that several holders share.
pub type SchemaRef = Arc<Schema>;

/// The message for a write to a table whose schema holds invariants.
pub const INVARIANTS_UNSUPPORTED: &'static str = "Column invariants are not yet supported";

/// The message for in-commit timestamps that are enabled without the
/// timestamp of their enablement.
pub const ENABLEMENT_TIMESTAMP_MISSING: &'static str =
    "In-commit timestamp enabled, but missing Enablement version or timestamp. Enablement timestamp is not present";

/// The message for in-commit timestamps that are enabled without the
/// version of their enablement.
pub const ENABLEMENT_VERSION_MISSING: &'static str =
    "In-commit timestamp enabled, but missing Enablement version or timestamp. Enablement version is not present";

/// The message for in-commit timestamps that are enabled without the
/// version and without the timestamp of their enablement.
pub const ENABLEMENT_BOTH_MISSING: &'static str =
    "In-commit timestamp enabled, but missing Enablement version or timestamp. Enablement version and timestamp are not present.";

/// Makes `url::Url` known as a type whose values are carried along and never
/// looked into.
#[verifier::external_type_specification]
#[verifier::external_body]
pub struct ExUrl(url::Url);

/// `Clone::clone` of `url::Url`, which the `url` crate derives.
///
/// Trusted: the clone is the same URL as the one it was made from.
pub assume_specification[ <url::Url as Clone>::clone ](u: &url::Url) -> (r: url::Url)
    ensures
        r == *u,
;

/// Calls `Arc::clone`.
///
/// Trusted: the new pointer leads to the same schema as the old one.
#[verifier::external_body]
fn share(schema: &Arc<Schema>) -> (r: Arc<Schema>)
    ensures
        r == *schema,
{
    Arc::clone(schema)
}

/// The checked configuration of a table at one version.
#[derive(Debug, PartialEq, Eq)]
pub struct TableConfiguration {
    metadata: Metadata,
    protocol: Protocol,
    schema: SchemaRef,
    table_properties: TableProperties,
    column_mapping_mode: ColumnMappingMode,
    table_root: Url,
    version: Version,
}

/// The mathematical value of a [`TableConfiguration`].
pub struct TableConfigurationView {
    pub metadata: MetadataView,
    pub protocol: ProtocolView,
    pub schema: SchemaView,
    pub table_properties: TableProperties,
    pub column_mapping_mode: ColumnMappingMode,
    pub table_root: Url,
    pub version: Version,
}

impl View for TableConfiguration {
    type V = TableConfigurationView;

    closed spec fn view(&self) -> TableConfigurationView {
        TableConfigurationView {
            metadata: self.metadata@,
            protocol: self.protocol@,
            schema: self.schema@,
            table_properties: self.table_properties,
            column_mapping_mode: self.column_mapping_mode,
            table_root: self.table_root,
            version: self.version,
        }
    }
}

/// What the enablement of in-commit timestamps is: the version and the
/// timestamp at which they were enabled.
pub type Enablement = Option<(Version, i64)>;

/// What construction derives from the metadata and the protocol: the schema,
/// the table properties and the column mapping mode.
#[derive(Debug, PartialEq, Eq)]
pub struct Resolved {
    pub schema: Schema,
    pub table_properties: TableProperties,
    pub column_mapping_mode: ColumnMappingMode,
}

/// The mathematical value of a [`Resolved`].
pub struct ResolvedView {
    pub schema: SchemaView,
    pub table_properties: TableProperties,
    pub column_mapping_mode: ColumnMappingMode,
}

impl View for Resolved {
    type V = ResolvedView;

    open spec fn view(&self) -> ResolvedView {
        ResolvedView {
            schema: self.schema@,
            table_properties: self.table_properties,
            column_mapping_mode: self.column_mapping_mode,
        }
    }
}

/// What [`resolve`] returns for the document that the schema string holds:
/// the first fault among the checks that follow the reading of the schema
/// string as JSON, in the order in which they are listed here, or what the
/// metadata and the protocol resolve to.
///
/// 1. The document is a schema.
/// 2. This implementation can read the protocol.
/// 3. Every writer feature of the protocol is recognized.
/// 4. The column mapping annotations of the schema fit the mode.
/// 5. Timestamps without a time zone come with their feature.
/// 6. Variants come with their feature.
pub open spec fn spec_resolve(document: JsonView, metadata: MetadataView, protocol: ProtocolView)
    -> Result<ResolvedView, ErrorView> {
    let table_properties = spec_table_properties(metadata.configuration);
    let column_mapping_mode = spec_column_mapping_mode(protocol, table_properties);
    match spec_schema(document) {
        Err(e) => Err(e),
        Ok(schema) => match protocol.ensure_read_supported() {
            Err(e) => Err(e),
            Ok(()) => match protocol.ensure_writer_features_known() {
                Err(e) => Err(e),
                Ok(()) => match spec_validate_column_mapping(schema, column_mapping_mode) {
                    Err(e) => Err(e),
                    Ok(()) => match spec_validate_timestamp_ntz(schema, protocol) {
                        Err(e) => Err(e),
                        Ok(()) => match spec_validate_variant(schema, protocol) {
                            Err(e) => Err(e),
                            Ok(()) => Ok(
                                ResolvedView { schema, table_properties, column_mapping_mode },
                            ),
                        },
                    },
                },
            },
        },
    }
}

/// Runs the part of construction that follows the reading of the schema
/// string as JSON. `document` is what the schema string holds. The schema is
/// read out of it; the protocol is checked; the table properties are read out
/// of the configuration; the column mapping mode follows from them and from
/// the protocol; and the schema is checked against the mode and against the
/// features of the protocol.
pub fn resolve(document: &Json, metadata: &Metadata, protocol: &Protocol) -> (r: DeltaResult<
    Resolved,
>)
    ensures
        result_view(r) == spec_resolve(document@, metadata@, protocol@),
{
    let schema = match Schema::from_json(document) {
        Err(e) => {
            return Err(e);
        },
        Ok(schema) => schema,
    };
    match protocol.ensure_read_supported() {
        Err(e) => {
            return Err(e);
        },
        Ok(()) => {},
    }
    match protocol.ensure_writer_features_known() {
        Err(e) => {
            return Err(e);
        },
        Ok(()) => {},
    }
    let table_properties = metadata.parse_table_properties();
    let column_mapping_mode = column_mapping_mode(protocol, &table_properties);
    match validate_schema_column_mapping(&schema, column_mapping_mode) {
        Err(e) => {
            return Err(e);
        },
        Ok(()) => {},
    }
    match validate_timestamp_ntz_feature_support(&schema, protocol) {
        Err(e) => {
            return Err(e);
        },
        Ok(()) => {},
    }
    match validate_variant_type_feature_support(&schema, protocol) {
        Err(e) => {
            return Err(e);
        },
        Ok(()) => {},
    }
    Ok(Resolved { schema, table_properties, column_mapping_mode })
}

impl TableConfigurationView {
    /// What [`TableConfiguration::try_new`] returns: the first fault among
    /// the checks, in the order in which they are listed here, or the
    /// configuration where there is none.
    ///
    /// 1. The schema string holds a JSON document.
    /// 2. The document is a schema.
    /// 3. This implementation can read the protocol.
    /// 4. Every writer feature of the protocol is recognized.
    /// 5. The column mapping annotations of the schema fit the mode.
    /// 6. Timestamps without a time zone come with their feature.
    /// 7. Variants come with their feature.
    pub open spec fn spec_try_new(
        metadata: MetadataView,
        protocol: ProtocolView,
        table_root: Url,
        version: Version,
    ) -> Result<TableConfigurationView, ErrorView> {
        match spec_parse_json(metadata.schema_string) {
            Err(e) => Err(e),
            Ok(document) => match spec_resolve(document, metadata, protocol) {
                Err(e) => Err(e),
                Ok(parts) => Ok(
                    TableConfigurationView {
                        metadata,
                        protocol,
                        schema: parts.schema,
                        table_properties: parts.table_properties,
                        column_mapping_mode: parts.column_mapping_mode,
                        table_root,
                        version,
                    },
                ),
            },
        }
    }

    /// Whether every check of construction passes for a protocol and a
    /// metadata.
    pub open spec fn checks_pass(metadata: MetadataView, protocol: ProtocolView) -> bool {
        &&& spec_parse_schema(metadata.schema_string) matches Ok(schema)
        &&& protocol.ensure_read_supported() is Ok
        &&& protocol.ensure_writer_features_known() is Ok
        &&& spec_validate_column_mapping(
            schema,
            spec_column_mapping_mode(protocol, spec_table_properties(metadata.configuration)),
        ) is Ok
        &&& spec_validate_timestamp_ntz(schema, protocol) is Ok
        &&& spec_validate_variant(schema, protocol) is Ok
    }

    /// Whether this is the configuration of a table version that passes
    /// every check of construction. Every [`TableConfiguration`] is.
    pub open spec fn valid(self) -> bool {
        Self::spec_try_new(self.metadata, self.protocol, self.table_root, self.version) == Ok::<
            TableConfigurationView,
            ErrorView,
        >(self)
    }

    /// The same configuration at another version.
    pub open spec fn at_version(self, version: Version) -> TableConfigurationView {
        TableConfigurationView { version, ..self }
    }

    /// What [`TableConfiguration::try_new_from`] returns: the same
    /// configuration at the new version where neither the metadata nor the
    /// protocol is replaced, and else what construction returns for the new
    /// parts together with the old ones that stay.
    pub open spec fn spec_try_new_from(
        self,
        new_metadata: Option<MetadataView>,
        new_protocol: Option<ProtocolView>,
        new_version: Version,
    ) -> Result<TableConfigurationView, ErrorView> {
        if new_metadata is None && new_protocol is None {
            Ok(self.at_version(new_version))
        } else {
            Self::spec_try_new(
                match new_metadata {
                    Some(m) => m,
                    None => self.metadata,
                },
                match new_protocol {
                    Some(p) => p,
                    None => self.protocol,
                },
                self.table_root,
                new_version,
            )
        }
    }

    /// Whether the protocol allows reading the change data feed: reader
    /// version 3 with no reader feature but deletion vectors, or reader
    /// version 1 without reader features.
    pub open spec fn cdf_protocol_supported(self) -> bool {
        match self.protocol.reader_features {
            Some(features) => self.protocol.min_reader_version == 3 && all_supported(
                features,
                seq!["deletionVectors"@],
            ),
            None => self.protocol.min_reader_version == 1,
        }
    }

    /// Whether the change data feed of the table can be read: the protocol
    /// allows it, the table property is set, and the table has no column
    /// mapping.
    pub open spec fn is_cdf_read_supported(self) -> bool {
        &&& self.cdf_protocol_supported()
        &&& self.table_properties.enable_change_data_feed == Some(true)
        &&& self.column_mapping_mode == ColumnMappingMode::Disabled
    }

    /// Whether the table supports deletion vectors: reader version 3 and
    /// writer version 7, with the feature declared on both sides.
    pub open spec fn is_deletion_vector_supported(self) -> bool {
        &&& self.protocol.min_reader_version == 3
        &&& self.protocol.has_reader_feature("deletionVectors"@)
        &&& self.protocol.min_writer_version == 7
        &&& self.protocol.has_writer_feature("deletionVectors"@)
    }

    /// Whether deletion vectors are supported and the table property is set.
    pub open spec fn is_deletion_vector_enabled(self) -> bool {
        self.is_deletion_vector_supported() && self.table_properties.enable_deletion_vectors
            == Some(true)
    }

    /// Whether writers of this version honour the writer feature with the
    /// given name: writer version 7 with the feature declared, or a writer
    /// version from 2 to 6.
    pub open spec fn legacy_writer_feature_supported(self, name: Seq<char>) -> bool {
        ||| self.protocol.min_writer_version == 7 && self.protocol.has_writer_feature(name)
        ||| 2 <= self.protocol.min_writer_version <= 6
    }

    /// Whether the table supports append-only mode.
    pub open spec fn is_append_only_supported(self) -> bool {
        self.legacy_writer_feature_supported("appendOnly"@)
    }

    /// Whether append-only mode is supported and the table property is set.
    pub open spec fn is_append_only_enabled(self) -> bool {
        self.is_append_only_supported() && self.table_properties.append_only == Some(true)
    }

    /// Whether the table supports column invariants.
    pub open spec fn is_invariants_supported(self) -> bool {
        self.legacy_writer_feature_supported("invariants"@)
    }

    /// Whether version 2 checkpoints can be written: the feature is declared
    /// on both sides.
    pub open spec fn is_v2_checkpoint_write_supported(self) -> bool {
        self.protocol.has_reader_feature("v2Checkpoint"@) && self.protocol.has_writer_feature(
            "v2Checkpoint"@,
        )
    }

    /// Whether the table supports in-commit timestamps: writer version 7 with
    /// the feature declared.
    pub open spec fn is_in_commit_timestamps_supported(self) -> bool {
        self.protocol.min_writer_version == 7 && self.protocol.has_writer_feature(
            "inCommitTimestamp"@,
        )
    }

    /// Whether in-commit timestamps are supported and the table property is
    /// set.
    pub open spec fn is_in_commit_timestamps_enabled(self) -> bool {
        self.is_in_commit_timestamps_supported()
            && self.table_properties.enable_in_commit_timestamps == Some(true)
    }

    /// What [`TableConfiguration::ensure_write_supported`] returns: the fault
    /// of the protocol, if this implementation cannot write to it; else a
    /// fault where column invariants are supported and the schema holds some;
    /// else success.
    pub open spec fn ensure_write_supported(self) -> Result<(), ErrorView> {
        match self.protocol.ensure_write_supported() {
            Err(e) => Err(e),
            Ok(()) => if self.is_invariants_supported() && has_invariants(self.schema) {
                Err(ErrorView::Unsupported(INVARIANTS_UNSUPPORTED@))
            } else {
                Ok(())
            },
        }
    }

    /// What [`TableConfiguration::in_commit_timestamp_enablement`] returns:
    /// nothing where in-commit timestamps are not enabled; the version and
    /// the timestamp of their enablement where the properties hold both; and
    /// an error that says which of the two is missing in every other case.
    pub open spec fn in_commit_timestamp_enablement(self) -> Result<Enablement, ErrorView> {
        if !self.is_in_commit_timestamps_enabled() {
            Ok(None)
        } else {
            match (
                self.table_properties.in_commit_timestamp_enablement_version,
                self.table_properties.in_commit_timestamp_enablement_timestamp,
            ) {
                (Some(version), Some(timestamp)) => Ok(Some((version, timestamp))),
                (Some(_), None) => Err(ErrorView::Generic(ENABLEMENT_TIMESTAMP_MISSING@)),
                (None, Some(_)) => Err(ErrorView::Generic(ENABLEMENT_VERSION_MISSING@)),
                (None, None) => Err(ErrorView::Generic(ENABLEMENT_BOTH_MISSING@)),
            }
        }
    }
}

/// Construction succeeds exactly where every one of its checks passes: a
/// single failing check makes it fail.
pub proof fn lemma_try_new_succeeds_iff_checks_pass(
    metadata: MetadataView,
    protocol: ProtocolView,
    table_root: Url,
    version: Version,
)
    ensures
        TableConfigurationView::spec_try_new(metadata, protocol, table_root, version) is Ok
            <==> TableConfigurationView::checks_pass(metadata, protocol),
{
}

/// The reading of the schema string comes first: where it holds no schema,
/// construction fails with the error of that reading, whatever the protocol
/// and the configuration are.
pub proof fn lemma_schema_fault_comes_first(
    metadata: MetadataView,
    protocol: ProtocolView,
    table_root: Url,
    version: Version,
)
    requires
        spec_parse_schema(metadata.schema_string) is Err,
    ensures
        TableConfigurationView::spec_try_new(metadata, protocol, table_root, version) == Err::<
            TableConfigurationView,
            ErrorView,
        >(spec_parse_schema(metadata.schema_string)->Err_0),
{
}

/// What construction builds is the table version it was given, with the
/// schema, the properties and the column mapping mode that follow from it,
/// and it passes every check again.
pub proof fn lemma_try_new_result(
    metadata: MetadataView,
    protocol: ProtocolView,
    table_root: Url,
    version: Version,
)
    requires
        TableConfigurationView::spec_try_new(metadata, protocol, table_root, version) is Ok,
    ensures
        ({
            let c = TableConfigurationView::spec_try_new(
                metadata,
                protocol,
                table_root,
                version,
            )->Ok_0;
            &&& c.metadata == metadata
            &&& c.protocol == protocol
            &&& c.table_root == table_root
            &&& c.version == version
            &&& spec_parse_schema(metadata.schema_string) == Ok::<SchemaView, ErrorView>(c.schema)
            &&& c.table_properties == spec_table_properties(metadata.configuration)
            &&& c.column_mapping_mode == spec_column_mapping_mode(protocol, c.table_properties)
            &&& c.valid()
        }),
{
}

/// Construction does not depend on the version or on the location of the
/// table: it fails for all of them or for none, and with the same error.
pub proof fn lemma_try_new_is_deterministic(
    metadata: MetadataView,
    protocol: ProtocolView,
    table_root: Url,
    version: Version,
    other_root: Url,
    other_version: Version,
)
    ensures
        match TableConfigurationView::spec_try_new(metadata, protocol, table_root, version) {
            Ok(c) => TableConfigurationView::spec_try_new(
                metadata,
                protocol,
                other_root,
                other_version,
            ) == Ok::<TableConfigurationView, ErrorView>(
                TableConfigurationView { table_root: other_root, version: other_version, ..c },
            ),
            Err(e) => TableConfigurationView::spec_try_new(
                metadata,
                protocol,
                other_root,
                other_version,
            ) == Err::<TableConfigurationView, ErrorView>(e),
        },
{
}

/// Enablement never holds without support: of deletion vectors, of
/// append-only mode and of in-commit timestamps.
pub proof fn lemma_enabled_implies_supported(c: TableConfigurationView)
    ensures
        c.is_deletion_vector_enabled() ==> c.is_deletion_vector_supported(),
        c.is_append_only_enabled() ==> c.is_append_only_supported(),
        c.is_in_commit_timestamps_enabled() ==> c.is_in_commit_timestamps_supported(),
        c.is_cdf_read_supported() ==> c.cdf_protocol_supported(),
{
}

/// Where the protocol allows reading the change data feed, a checked
/// configuration has no column mapping, whatever mode its properties ask
/// for: the mode counts only at reader version 2, or at reader version 3 with
/// the column mapping feature, and the change data feed allows neither.
pub proof fn lemma_cdf_has_no_column_mapping(c: TableConfigurationView)
    requires
        c.valid(),
        c.cdf_protocol_supported(),
    ensures
        c.column_mapping_mode == ColumnMappingMode::Disabled,
        c.is_cdf_read_supported() <==> c.table_properties.enable_change_data_feed == Some(true),
{
    if c.protocol.min_reader_version == 3 && c.protocol.has_reader_feature("columnMapping"@) {
        let features = c.protocol.reader_features->Some_0;
        let i = choose|i: int| 0 <= i < features.len() && features[i] == "columnMapping"@;
        let allowed = seq!["deletionVectors"@];
        assert(allowed.contains(features[i]));
        let k = choose|k: int| 0 <= k < allowed.len() && allowed[k] == features[i];
        assert(allowed[k] == "deletionVectors"@);
        reveal_strlit("columnMapping");
        reveal_strlit("deletionVectors");
        assert("columnMapping"@[0] != "deletionVectors"@[0]);
    }
}

/// An update that replaces neither the metadata nor the protocol succeeds,
/// and yields the new version with the same metadata, protocol, schema, table
/// properties, column mapping mode and location. What it yields passes every
/// check of construction, as the configuration it came from does.
pub proof fn lemma_try_new_from_unchanged(c: TableConfigurationView, new_version: Version)
    ensures
        c.spec_try_new_from(None, None, new_version) is Ok,
        ({
            let n = c.spec_try_new_from(None, None, new_version)->Ok_0;
            &&& n.version == new_version
            &&& n.schema == c.schema
            &&& n.protocol == c.protocol
            &&& n.metadata == c.metadata
            &&& n.table_properties == c.table_properties
            &&& n.column_mapping_mode == c.column_mapping_mode
            &&& n.table_root == c.table_root
            &&& c.valid() ==> n.valid()
        }),
{
}

/// An update of a checked configuration that succeeds yields a checked
/// configuration, whatever it replaces.
pub proof fn lemma_try_new_from_valid(
    c: TableConfigurationView,
    new_metadata: Option<MetadataView>,
    new_protocol: Option<ProtocolView>,
    new_version: Version,
)
    requires
        c.valid(),
    ensures
        c.spec_try_new_from(new_metadata, new_protocol, new_version) matches Ok(n) ==> n.valid()
            && n.version == new_version && n.table_root == c.table_root,
{
}

/// The enablement of in-commit timestamps: absent where the table property
/// is not set; the version and the timestamp where both are there; and an
/// error that says which is missing where they are enabled and one of them,
/// or each, is missing.
pub proof fn lemma_in_commit_timestamp_enablement(c: TableConfigurationView)
    ensures
        c.table_properties.enable_in_commit_timestamps != Some(true)
            ==> c.in_commit_timestamp_enablement() == Ok::<Enablement, ErrorView>(None),
        !c.is_in_commit_timestamps_supported() ==> c.in_commit_timestamp_enablement() == Ok::<
            Enablement,
            ErrorView,
        >(None),
        c.is_in_commit_timestamps_enabled() ==> match (
            c.table_properties.in_commit_timestamp_enablement_version,
            c.table_properties.in_commit_timestamp_enablement_timestamp,
        ) {
            (Some(version), Some(timestamp)) => c.in_commit_timestamp_enablement() == Ok::<
                Enablement,
                ErrorView,
            >(Some((version, timestamp))),
            (Some(_), None) => c.in_commit_timestamp_enablement() == Err::<Enablement, ErrorView>(
                ErrorView::Generic(ENABLEMENT_TIMESTAMP_MISSING@),
            ),
            (None, Some(_)) => c.in_commit_timestamp_enablement() == Err::<Enablement, ErrorView>(
                ErrorView::Generic(ENABLEMENT_VERSION_MISSING@),
            ),
            (None, None) => c.in_commit_timestamp_enablement() == Err::<Enablement, ErrorView>(
                ErrorView::Generic(ENABLEMENT_BOTH_MISSING@),
            ),
        },
{
}

/// A table whose protocol declares a feature that this crate does not
/// recognize, for readers or for writers, cannot be constructed.
pub proof fn lemma_unknown_feature_fails(
    metadata: MetadataView,
    protocol: ProtocolView,
    table_root: Url,
    version: Version,
    name: Seq<char>,
)
    requires
        !crate::table_features::is_known_reader_feature(name) && protocol.has_reader_feature(name)
            || !crate::table_features::is_known_writer_feature(name)
            && protocol.has_writer_feature(name),
    ensures
        TableConfigurationView::spec_try_new(metadata, protocol, table_root, version) is Err,
{
    if !crate::table_features::is_known_reader_feature(name) && protocol.has_reader_feature(name) {
        let declared = protocol.reader_features->Some_0;
        let i = choose|i: int| 0 <= i < declared.len() && declared[i] == name;
        let supported = crate::actions::supported_reader_features();
        if supported.contains(name) {
            let k = choose|k: int| 0 <= k < supported.len() && supported[k] == name;
            assert(supported[k] == name);
        }
        assert(!supported.contains(declared[i]));
    } else {
        let declared = protocol.writer_features->Some_0;
        let i = choose|i: int| 0 <= i < declared.len() && declared[i] == name;
        let known = crate::actions::known_writer_features();
        if known.contains(name) {
            let k = choose|k: int| 0 <= k < known.len() && known[k] == name;
            assert(known[k] == name);
        }
        assert(!known.contains(declared[i]));
    }
}

/// The mathematical value of a result that holds an enablement.
pub open spec fn enablement_result_view(r: DeltaResult<Enablement>) -> Result<
    Enablement,
    ErrorView,
> {
    match r {
        Ok(v) => Ok(v),
        Err(e) => Err(e@),
    }
}

/// The view of optional metadata.
pub open spec fn optional_metadata_view(m: Option<Metadata>) -> Option<MetadataView> {
    match m {
        Some(m) => Some(m@),
        None => None,
    }
}

/// The view of an optional protocol.
pub open spec fn optional_protocol_view(p: Option<Protocol>) -> Option<ProtocolView> {
    match p {
        Some(p) => Some(p@),
        None => None,
    }
}

impl TableConfiguration {
    #[verifier::type_invariant]
    closed spec fn checked(self) -> bool {
        self@.valid()
    }

    /// Builds the configuration of the table at `table_root` at `version`,
    /// after checking that the protocol and the metadata fit one another and
    /// that this implementation can read the table. The schema string is read
    /// first: where it holds no schema, that is the error, whatever else is
    /// wrong.
    pub fn try_new(metadata: Metadata, protocol: Protocol, table_root: Url, version: Version) -> (r:
        DeltaResult<Self>)
        ensures
            result_view(r) == TableConfigurationView::spec_try_new(
                metadata@,
                protocol@,
                table_root,
                version,
            ),
            r is Ok <==> TableConfigurationView::checks_pass(metadata@, protocol@),
    {
        let document = match parse_json(metadata.schema_string.as_str()) {
            Err(e) => {
                return Err(e);
            },
            Ok(document) => document,
        };
        let parts = match resolve(&document, &metadata, &protocol) {
            Err(e) => {
                return Err(e);
            },
            Ok(parts) => parts,
        };
        Ok(
            TableConfiguration {
                metadata,
                protocol,
                schema: Arc::new(parts.schema),
                table_properties: parts.table_properties,
                column_mapping_mode: parts.column_mapping_mode,
                table_root,
                version,
            },
        )
    }

    /// Builds the configuration of a later version from that of an earlier
    /// one. Where neither the metadata nor the protocol is replaced, the
    /// result is the earlier configuration at the new version, and nothing is
    /// checked again. In every other case all of construction is run again,
    /// on the new parts together with the old ones that stay.
    pub fn try_new_from(
        table_configuration: &Self,
        new_metadata: Option<Metadata>,
        new_protocol: Option<Protocol>,
        new_version: Version,
    ) -> (r: DeltaResult<Self>)
        ensures
            result_view(r) == table_configuration@.spec_try_new_from(
                optional_metadata_view(new_metadata),
                optional_protocol_view(new_protocol),
                new_version,
            ),
    {
        proof {
            use_type_invariant(table_configuration);
        }
        if new_metadata.is_none() && new_protocol.is_none() {
            return Ok(
                TableConfiguration {
                    metadata: table_configuration.metadata.clone(),
                    protocol: table_configuration.protocol.clone(),
                    schema: share(&table_configuration.schema),
                    table_properties: table_configuration.table_properties,
                    column_mapping_mode: table_configuration.column_mapping_mode,
                    table_root: table_configuration.table_root.clone(),
                    version: new_version,
                },
            );
        }
        let metadata = match new_metadata {
            Some(m) => m,
            None => table_configuration.metadata.clone(),
        };
        let protocol = match new_protocol {
            Some(p) => p,
            None => table_configuration.protocol.clone(),
        };
        Self::try_new(metadata, protocol, table_configuration.table_root.clone(), new_version)
    }

    /// Shows what holds of every configuration: it passes every check of
    /// construction.
    pub fn validated(&self)
        ensures
            self@.valid(),
    {
        proof {
            use_type_invariant(self);
        }
    }

    /// The metadata of the table at this version.
    pub fn metadata(&self) -> (r: &Metadata)
        ensures
            r@ == self@.metadata,
    {
        &self.metadata
    }

    /// The protocol of the table at this version.
    pub fn protocol(&self) -> (r: &Protocol)
        ensures
            r@ == self@.protocol,
    {
        &self.protocol
    }

    /// The schema of the table at this version.
    pub fn schema(&self) -> (r: SchemaRef)
        ensures
            r@ == self@.schema,
    {
        share(&self.schema)
    }

    /// The table properties of the table at this version.
    pub fn table_properties(&self) -> (r: &TableProperties)
        ensures
            *r == self@.table_properties,
    {
        &self.table_properties
    }

    /// The column mapping mode of the table at this version.
    pub fn column_mapping_mode(&self) -> (r: ColumnMappingMode)
        ensures
            r == self@.column_mapping_mode,
    {
        self.column_mapping_mode
    }

    /// The location of the table.
    pub fn table_root(&self) -> (r: &Url)
        ensures
            *r == self@.table_root,
    {
        &self.table_root
    }

    /// The version of the table that this configuration describes.
    pub fn version(&self) -> (r: Version)
        ensures
            r == self@.version,
    {
        self.version
    }

    /// Checks that this implementation can write to the table: it can write
    /// to the protocol, and the schema holds no column invariants where the
    /// protocol supports them.
    pub fn ensure_write_supported(&self) -> (r: DeltaResult<()>)
        ensures
            unit_result_view(r) == self@.ensure_write_supported(),
    {
        match self.protocol.ensure_write_supported() {
            Err(e) => {
                return Err(e);
            },
            Ok(()) => {},
        }
        if self.is_invariants_supported() && self.schema.has_invariants() {
            return Err(Error::unsupported(INVARIANTS_UNSUPPORTED));
        }
        Ok(())
    }

    /// Whether the change data feed of the table can be read.
    pub fn is_cdf_read_supported(&self) -> (r: bool)
        ensures
            r == self@.is_cdf_read_supported(),
    {
        let protocol_supported = match self.protocol.reader_features() {
            Some(features) => {
                if self.protocol.min_reader_version() == 3 {
                    let allowed = vec![ReaderFeature::DeletionVectors];
                    assert(names(allowed@) =~= seq!["deletionVectors"@]);
                    all_features_supported(features, &allowed)
                } else {
                    false
                }
            },
            None => self.protocol.min_reader_version() == 1,
        };
        let cdf_enabled = match self.table_properties.enable_change_data_feed {
            Some(enabled) => enabled,
            None => false,
        };
        let column_mapping_disabled = match self.column_mapping_mode {
            ColumnMappingMode::Disabled => true,
            _ => false,
        };
        protocol_supported && cdf_enabled && column_mapping_disabled
    }

    /// Whether the table supports deletion vectors.
    pub fn is_deletion_vector_supported(&self) -> (r: bool)
        ensures
            r == self@.is_deletion_vector_supported(),
    {
        let read_supported = self.protocol.has_reader_feature(&ReaderFeature::DeletionVectors)
            && self.protocol.min_reader_version() == 3;
        let write_supported = self.protocol.has_writer_feature(&WriterFeature::DeletionVectors)
            && self.protocol.min_writer_version() == 7;
        read_supported && write_supported
    }

    /// Whether deletion vectors may be written to the table.
    pub fn is_deletion_vector_enabled(&self) -> (r: bool)
        ensures
            r == self@.is_deletion_vector_enabled(),
            r ==> self@.is_deletion_vector_supported(),
    {
        self.is_deletion_vector_supported() && match self.table_properties.enable_deletion_vectors {
            Some(enabled) => enabled,
            None => false,
        }
    }

    /// Whether the table supports append-only mode.
    pub fn is_append_only_supported(&self) -> (r: bool)
        ensures
            r == self@.is_append_only_supported(),
    {
        let version = self.protocol.min_writer_version();
        if version == 7 && self.protocol.has_writer_feature(&WriterFeature::AppendOnly) {
            true
        } else {
            2 <= version && version <= 6
        }
    }

    /// Whether the table is in append-only mode.
    pub fn is_append_only_enabled(&self) -> (r: bool)
        ensures
            r == self@.is_append_only_enabled(),
    {
        self.is_append_only_supported() && match self.table_properties.append_only {
            Some(enabled) => enabled,
            None => false,
        }
    }

    /// Whether the table supports column invariants.
    pub fn is_invariants_supported(&self) -> (r: bool)
        ensures
            r == self@.is_invariants_supported(),
    {
        let version = self.protocol.min_writer_version();
        if version == 7 && self.protocol.has_writer_feature(&WriterFeature::Invariants) {
            true
        } else {
            2 <= version && version <= 6
        }
    }

    /// Whether version 2 checkpoints can be written to the table.
    pub fn is_v2_checkpoint_write_supported(&self) -> (r: bool)
        ensures
            r == self@.is_v2_checkpoint_write_supported(),
    {
        let read_supported = self.protocol.has_reader_feature(&ReaderFeature::V2Checkpoint);
        let write_supported = self.protocol.has_writer_feature(&WriterFeature::V2Checkpoint);
        read_supported && write_supported
    }

    /// Whether the table supports in-commit timestamps.
    pub fn is_in_commit_timestamps_supported(&self) -> (r: bool)
        ensures
            r == self@.is_in_commit_timestamps_supported(),
    {
        self.protocol.min_writer_version() == 7 && self.protocol.has_writer_feature(
            &WriterFeature::InCommitTimestamp,
        )
    }

    /// Whether in-commit timestamps are written to the table.
    pub fn is_in_commit_timestamps_enabled(&self) -> (r: bool)
        ensures
            r == self@.is_in_commit_timestamps_enabled(),
    {
        self.is_in_commit_timestamps_supported()
            && match self.table_properties.enable_in_commit_timestamps {
            Some(enabled) => enabled,
            None => false,
        }
    }

    /// The version and the timestamp at which in-commit timestamps were
    /// enabled; nothing where they are not enabled. It is an error for them
    /// to be enabled while the properties lack the version or the timestamp.
    pub fn in_commit_timestamp_enablement(&self) -> (r: DeltaResult<Enablement>)
        ensures
            enablement_result_view(r) == self@.in_commit_timestamp_enablement(),
    {
        if !self.is_in_commit_timestamps_enabled() {
            return Ok(None);
        }
        let enablement_version = self.table_properties.in_commit_timestamp_enablement_version;
        let enablement_timestamp = self.table_properties.in_commit_timestamp_enablement_timestamp;
        match (enablement_version, enablement_timestamp) {
            (Some(version), Some(timestamp)) => Ok(Some((version, timestamp))),
            (Some(_), None) => Err(Error::generic(ENABLEMENT_TIMESTAMP_MISSING)),
            (None, Some(_)) => Err(Error::generic(ENABLEMENT_VERSION_MISSING)),
            (None, None) => Err(Error::generic(ENABLEMENT_BOTH_MISSING)),
        }
    }
}

impl Clone for TableConfiguration {
    fn clone(&self) -> (r: Self)
        ensures
            r@ == self@,
    {
        proof {
            use_type_invariant(self);
        }
        TableConfiguration {
            metadata: self.metadata.clone(),
            protocol: self.protocol.clone(),
            schema: share(&self.schema),
            table_properties: self.table_properties,
            column_mapping_mode: self.column_mapping_mode,
            table_root: self.table_root.clone(),
            version: self.version,
        }
    }
}

} // verus!
