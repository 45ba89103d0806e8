//! The two records that describe a table version: its protocol and its
//! metadata.

use crate::error::{result_view, unit_result_view, DeltaResult, Error, ErrorView};
use crate::json::{parse_json, spec_parse_json};
use crate::schema::decode::spec_schema;
use crate::schema::{Schema, SchemaView};
use crate::table_features::{
    contains_feature, ensure_supported_features, names, spec_ensure_supported_features,
    ReaderFeature, WriterFeature,
};
use crate::table_properties::{
    configuration_view, spec_table_properties, ConfigurationView, TableProperties,
};
use vstd::prelude::*;

verus! {

/// The message for reader version 3 without reader features.
pub const READER_FEATURES_MISSING: &'static str =
    "Reader features must be present when minimum reader version = 3";

/// The message for writer version 7 without writer features.
pub const WRITER_FEATURES_MISSING: &'static str =
    "Writer features must be present when minimum writer version = 7";

/// The message for reader features at another reader version than 3.
pub const READER_FEATURES_MISPLACED: &'static str =
    "Reader features must not be present when minimum reader version = 1 or 2";

/// The message for a reader version that is not 1, 2 or 3.
pub const READER_VERSION_UNSUPPORTED: &'static str = "Unsupported minimum reader version";

/// The message for writer features at another writer version than 7.
pub const WRITER_FEATURES_MISPLACED: &'static str =
    "Tables with min writer version != 7 should not have table features.";

/// The message for a writer version without features that is not 1 or 2.
pub const WRITER_VERSION_UNSUPPORTED: &'static str =
    "Only tables with minimum writer version 1, 2 or 7 can be written";

/// What a table asks of its readers and writers: minimum versions, and from
/// reader version 3 and writer version 7 on, named features.
#[derive(Debug, PartialEq, Eq)]
pub struct Protocol {
    min_reader_version: i32,
    min_writer_version: i32,
    reader_features: Option<Vec<ReaderFeature>>,
    writer_features: Option<Vec<WriterFeature>>,
}

/// The mathematical value of a [`Protocol`]: the versions, and the names of
/// the declared features in the order of their declaration.
pub struct ProtocolView {
    pub min_reader_version: i32,
    pub min_writer_version: i32,
    pub reader_features: Option<Seq<Seq<char>>>,
    pub writer_features: Option<Seq<Seq<char>>>,
}

impl View for Protocol {
    type V = ProtocolView;

    closed spec fn view(&self) -> ProtocolView {
        ProtocolView {
            min_reader_version: self.min_reader_version,
            min_writer_version: self.min_writer_version,
            reader_features: match self.reader_features {
                Some(features) => Some(names(features@)),
                None => None,
            },
            writer_features: match self.writer_features {
                Some(features) => Some(names(features@)),
                None => None,
            },
        }
    }
}

/// The names of the reader features that this implementation can read.
pub open spec fn supported_reader_features() -> Seq<Seq<char>> {
    seq![
        "columnMapping"@,
        "deletionVectors"@,
        "timestampNtz"@,
        "typeWidening"@,
        "typeWidening-preview"@,
        "vacuumProtocolCheck"@,
        "v2Checkpoint"@,
        "variantType"@,
        "variantType-preview"@,
    ]
}

/// The names of the writer features that this implementation can write.
pub open spec fn supported_writer_features() -> Seq<Seq<char>> {
    seq![
        "appendOnly"@,
        "deletionVectors"@,
        "invariants"@,
        "timestampNtz"@,
        "variantType"@,
        "variantType-preview"@,
    ]
}

/// The names of all the writer features that this crate recognizes.
pub open spec fn known_writer_features() -> Seq<Seq<char>> {
    seq![
        "appendOnly"@,
        "invariants"@,
        "checkConstraints"@,
        "changeDataFeed"@,
        "generatedColumns"@,
        "columnMapping"@,
        "identityColumns"@,
        "inCommitTimestamp"@,
        "deletionVectors"@,
        "rowTracking"@,
        "timestampNtz"@,
        "typeWidening"@,
        "typeWidening-preview"@,
        "domainMetadata"@,
        "v2Checkpoint"@,
        "icebergCompatV1"@,
        "icebergCompatV2"@,
        "vacuumProtocolCheck"@,
        "clustering"@,
        "variantType"@,
        "variantType-preview"@,
    ]
}

/// The texts of a list of strings, in order.
pub open spec fn texts(strings: Seq<String>) -> Seq<Seq<char>> {
    strings.map_values(|s: String| s@)
}

/// The texts of an optional list of strings.
pub open spec fn optional_texts(strings: Option<Vec<String>>) -> Option<Seq<Seq<char>>> {
    match strings {
        Some(list) => Some(texts(list@)),
        None => None,
    }
}

impl ProtocolView {
    /// Whether the protocol declares the reader feature with this name.
    pub open spec fn has_reader_feature(self, name: Seq<char>) -> bool {
        self.reader_features matches Some(features) && features.contains(name)
    }

    /// Whether the protocol declares the writer feature with this name.
    pub open spec fn has_writer_feature(self, name: Seq<char>) -> bool {
        self.writer_features matches Some(features) && features.contains(name)
    }

    /// What [`Protocol::try_new`] returns: the protocol, unless a version that
    /// needs features comes without any.
    pub open spec fn spec_try_new(
        min_reader_version: i32,
        min_writer_version: i32,
        reader_features: Option<Seq<Seq<char>>>,
        writer_features: Option<Seq<Seq<char>>>,
    ) -> Result<ProtocolView, ErrorView> {
        if min_reader_version == 3 && reader_features is None {
            Err(ErrorView::InvalidProtocol(READER_FEATURES_MISSING@))
        } else if min_writer_version == 7 && writer_features is None {
            Err(ErrorView::InvalidProtocol(WRITER_FEATURES_MISSING@))
        } else {
            Ok(
                ProtocolView {
                    min_reader_version,
                    min_writer_version,
                    reader_features,
                    writer_features,
                },
            )
        }
    }

    /// What [`Protocol::ensure_read_supported`] returns.
    pub open spec fn ensure_read_supported(self) -> Result<(), ErrorView> {
        match self.reader_features {
            Some(features) => if self.min_reader_version == 3 {
                spec_ensure_supported_features(
                    "ReaderFeature"@,
                    features,
                    supported_reader_features(),
                )
            } else {
                Err(ErrorView::InvalidProtocol(READER_FEATURES_MISPLACED@))
            },
            None => if self.min_reader_version == 3 {
                Err(ErrorView::InvalidProtocol(READER_FEATURES_MISSING@))
            } else if self.min_reader_version == 1 || self.min_reader_version == 2 {
                Ok(())
            } else {
                Err(ErrorView::Unsupported(READER_VERSION_UNSUPPORTED@))
            },
        }
    }

    /// What [`Protocol::ensure_writer_features_known`] returns.
    pub open spec fn ensure_writer_features_known(self) -> Result<(), ErrorView> {
        match self.writer_features {
            Some(features) => spec_ensure_supported_features(
                "WriterFeature"@,
                features,
                known_writer_features(),
            ),
            None => Ok(()),
        }
    }

    /// What [`Protocol::ensure_write_supported`] returns.
    pub open spec fn ensure_write_supported(self) -> Result<(), ErrorView> {
        match self.writer_features {
            Some(features) => if self.min_writer_version == 7 {
                spec_ensure_supported_features(
                    "WriterFeature"@,
                    features,
                    supported_writer_features(),
                )
            } else {
                Err(ErrorView::Unsupported(WRITER_FEATURES_MISPLACED@))
            },
            None => if self.min_writer_version == 1 || self.min_writer_version == 2 {
                Ok(())
            } else {
                Err(ErrorView::Unsupported(WRITER_VERSION_UNSUPPORTED@))
            },
        }
    }
}

/// The reader features that this implementation can read.
pub fn reader_features_supported() -> (r: Vec<ReaderFeature>)
    ensures
        names(r@) == supported_reader_features(),
{
    let r = vec![
        ReaderFeature::ColumnMapping,
        ReaderFeature::DeletionVectors,
        ReaderFeature::TimestampWithoutTimezone,
        ReaderFeature::TypeWidening,
        ReaderFeature::TypeWideningPreview,
        ReaderFeature::VacuumProtocolCheck,
        ReaderFeature::V2Checkpoint,
        ReaderFeature::VariantType,
        ReaderFeature::VariantTypePreview,
    ];
    assert(names(r@) =~= supported_reader_features());
    r
}

/// The writer features that this implementation can write.
pub fn writer_features_supported() -> (r: Vec<WriterFeature>)
    ensures
        names(r@) == supported_writer_features(),
{
    let r = vec![
        WriterFeature::AppendOnly,
        WriterFeature::DeletionVectors,
        WriterFeature::Invariants,
        WriterFeature::TimestampWithoutTimezone,
        WriterFeature::VariantType,
        WriterFeature::VariantTypePreview,
    ];
    assert(names(r@) =~= supported_writer_features());
    r
}

/// All the writer features that this crate recognizes.
pub fn writer_features_known() -> (r: Vec<WriterFeature>)
    ensures
        names(r@) == known_writer_features(),
{
    let r = vec![
        WriterFeature::AppendOnly,
        WriterFeature::Invariants,
        WriterFeature::CheckConstraints,
        WriterFeature::ChangeDataFeed,
        WriterFeature::GeneratedColumns,
        WriterFeature::ColumnMapping,
        WriterFeature::IdentityColumns,
        WriterFeature::InCommitTimestamp,
        WriterFeature::DeletionVectors,
        WriterFeature::RowTracking,
        WriterFeature::TimestampWithoutTimezone,
        WriterFeature::TypeWidening,
        WriterFeature::TypeWideningPreview,
        WriterFeature::DomainMetadata,
        WriterFeature::V2Checkpoint,
        WriterFeature::IcebergCompatV1,
        WriterFeature::IcebergCompatV2,
        WriterFeature::VacuumProtocolCheck,
        WriterFeature::ClusteredTable,
        WriterFeature::VariantType,
        WriterFeature::VariantTypePreview,
    ];
    assert(names(r@) =~= known_writer_features());
    r
}

fn reader_features_of(list: &Vec<String>) -> (r: Vec<ReaderFeature>)
    ensures
        names(r@) == texts(list@),
{
    let mut out: Vec<ReaderFeature> = Vec::new();
    let mut i: usize = 0;
    while i < list.len()
        invariant
            i <= list.len(),
            out@.len() == i,
            forall|k: int| 0 <= k < i ==> (#[trigger] out@[k])@ == list@[k]@,
        decreases list.len() - i,
    {
        out.push(ReaderFeature::from_name(list[i].as_str()));
        i += 1;
    }
    assert(names(out@) =~= texts(list@));
    out
}

fn writer_features_of(list: &Vec<String>) -> (r: Vec<WriterFeature>)
    ensures
        names(r@) == texts(list@),
{
    let mut out: Vec<WriterFeature> = Vec::new();
    let mut i: usize = 0;
    while i < list.len()
        invariant
            i <= list.len(),
            out@.len() == i,
            forall|k: int| 0 <= k < i ==> (#[trigger] out@[k])@ == list@[k]@,
        decreases list.len() - i,
    {
        out.push(WriterFeature::from_name(list[i].as_str()));
        i += 1;
    }
    assert(names(out@) =~= texts(list@));
    out
}

impl Protocol {
    /// A protocol with the given versions and features. Each feature is given
    /// by its name, and any name is accepted. It is an error to ask for reader
    /// version 3 without reader features, or for writer version 7 without
    /// writer features.
    pub fn try_new(
        min_reader_version: i32,
        min_writer_version: i32,
        reader_features: Option<Vec<String>>,
        writer_features: Option<Vec<String>>,
    ) -> (r: DeltaResult<Protocol>)
        ensures
            result_view(r) == ProtocolView::spec_try_new(
                min_reader_version,
                min_writer_version,
                optional_texts(reader_features),
                optional_texts(writer_features),
            ),
    {
        if min_reader_version == 3 && reader_features.is_none() {
            return Err(Error::invalid_protocol(READER_FEATURES_MISSING));
        }
        if min_writer_version == 7 && writer_features.is_none() {
            return Err(Error::invalid_protocol(WRITER_FEATURES_MISSING));
        }
        let reader_features = match &reader_features {
            Some(list) => Some(reader_features_of(list)),
            None => None,
        };
        let writer_features = match &writer_features {
            Some(list) => Some(writer_features_of(list)),
            None => None,
        };
        Ok(Protocol { min_reader_version, min_writer_version, reader_features, writer_features })
    }

    /// The minimum version of the protocol that a reader must implement.
    pub fn min_reader_version(&self) -> (r: i32)
        ensures
            r == self@.min_reader_version,
    {
        self.min_reader_version
    }

    /// The minimum version of the protocol that a writer must implement.
    pub fn min_writer_version(&self) -> (r: i32)
        ensures
            r == self@.min_writer_version,
    {
        self.min_writer_version
    }

    /// The reader features that the protocol declares, if it declares any.
    pub fn reader_features(&self) -> (r: Option<&Vec<ReaderFeature>>)
        ensures
            match r {
                Some(features) => self@.reader_features == Some(names(features@)),
                None => self@.reader_features is None,
            },
    {
        self.reader_features.as_ref()
    }

    /// The writer features that the protocol declares, if it declares any.
    pub fn writer_features(&self) -> (r: Option<&Vec<WriterFeature>>)
        ensures
            match r {
                Some(features) => self@.writer_features == Some(names(features@)),
                None => self@.writer_features is None,
            },
    {
        self.writer_features.as_ref()
    }

    /// Whether the protocol declares the reader feature.
    pub fn has_reader_feature(&self, feature: &ReaderFeature) -> (r: bool)
        ensures
            r == self@.has_reader_feature(feature@),
    {
        match &self.reader_features {
            Some(features) => contains_feature(features, feature),
            None => false,
        }
    }

    /// Whether the protocol declares the writer feature.
    pub fn has_writer_feature(&self, feature: &WriterFeature) -> (r: bool)
        ensures
            r == self@.has_writer_feature(feature@),
    {
        match &self.writer_features {
            Some(features) => contains_feature(features, feature),
            None => false,
        }
    }

    /// Checks that this implementation can read a table with this protocol:
    /// reader version 1 or 2 without features, or reader version 3 with
    /// features that are all supported.
    pub fn ensure_read_supported(&self) -> (r: DeltaResult<()>)
        ensures
            unit_result_view(r) == self@.ensure_read_supported(),
    {
        match &self.reader_features {
            Some(features) => {
                if self.min_reader_version == 3 {
                    let supported = reader_features_supported();
                    ensure_supported_features(features, &supported)
                } else {
                    Err(Error::invalid_protocol(READER_FEATURES_MISPLACED))
                }
            },
            None => {
                if self.min_reader_version == 3 {
                    Err(Error::invalid_protocol(READER_FEATURES_MISSING))
                } else if self.min_reader_version == 1 || self.min_reader_version == 2 {
                    Ok(())
                } else {
                    Err(Error::unsupported(READER_VERSION_UNSUPPORTED))
                }
            },
        }
    }

    /// Checks that every writer feature that the protocol declares is one
    /// that this crate recognizes.
    pub fn ensure_writer_features_known(&self) -> (r: DeltaResult<()>)
        ensures
            unit_result_view(r) == self@.ensure_writer_features_known(),
    {
        match &self.writer_features {
            Some(features) => {
                let known = writer_features_known();
                ensure_supported_features(features, &known)
            },
            None => Ok(()),
        }
    }

    /// Checks that this implementation can write to a table with this
    /// protocol: writer version 1 or 2 without features, or writer version 7
    /// with features that are all supported.
    pub fn ensure_write_supported(&self) -> (r: DeltaResult<()>)
        ensures
            unit_result_view(r) == self@.ensure_write_supported(),
    {
        match &self.writer_features {
            Some(features) => {
                if self.min_writer_version == 7 {
                    let supported = writer_features_supported();
                    ensure_supported_features(features, &supported)
                } else {
                    Err(Error::unsupported(WRITER_FEATURES_MISPLACED))
                }
            },
            None => {
                if self.min_writer_version == 1 || self.min_writer_version == 2 {
                    Ok(())
                } else {
                    Err(Error::unsupported(WRITER_VERSION_UNSUPPORTED))
                }
            },
        }
    }
}

impl Clone for Protocol {
    fn clone(&self) -> (r: Self)
        ensures
            r@ == self@,
    {
        Protocol {
            min_reader_version: self.min_reader_version,
            min_writer_version: self.min_writer_version,
            reader_features: match &self.reader_features {
                Some(features) => Some(features.clone()),
                None => None,
            },
            writer_features: match &self.writer_features {
                Some(features) => Some(features.clone()),
                None => None,
            },
        }
    }
}

/// The metadata of a table version, as the log records it. Nothing in it has
/// been checked.
#[derive(Debug, PartialEq, Eq)]
pub struct Metadata {
    /// The unique identifier of the table.
    pub id: String,
    /// The schema of the table, in its JSON form.
    pub schema_string: String,
    /// The names of the columns by which the table is partitioned.
    pub partition_columns: Vec<String>,
    /// The configuration of the table: keys and values. Where a key occurs
    /// more than once, its last value counts.
    pub configuration: Vec<(String, String)>,
    /// When the metadata was written, in milliseconds since the epoch.
    pub created_time: Option<i64>,
}

/// The mathematical value of a [`Metadata`].
pub struct MetadataView {
    pub id: Seq<char>,
    pub schema_string: Seq<char>,
    pub partition_columns: Seq<Seq<char>>,
    pub configuration: ConfigurationView,
    pub created_time: Option<i64>,
}

impl View for Metadata {
    type V = MetadataView;

    open spec fn view(&self) -> MetadataView {
        MetadataView {
            id: self.id@,
            schema_string: self.schema_string@,
            partition_columns: texts(self.partition_columns@),
            configuration: configuration_view(self.configuration@),
            created_time: self.created_time,
        }
    }
}

/// The schema that a schema string holds, or why it holds none.
pub open spec fn spec_parse_schema(schema_string: Seq<char>) -> Result<SchemaView, ErrorView> {
    match spec_parse_json(schema_string) {
        Ok(j) => spec_schema(j),
        Err(e) => Err(e),
    }
}

impl Metadata {
    /// Reads the schema out of the schema string.
    pub fn parse_schema(&self) -> (r: DeltaResult<Schema>)
        ensures
            result_view(r) == spec_parse_schema(self@.schema_string),
    {
        match parse_json(self.schema_string.as_str()) {
            Ok(j) => Schema::from_json(&j),
            Err(e) => Err(e),
        }
    }

    /// Reads the table properties out of the configuration.
    pub fn parse_table_properties(&self) -> (r: TableProperties)
        ensures
            r == spec_table_properties(self@.configuration),
    {
        TableProperties::from_configuration(&self.configuration)
    }
}

impl Default for Metadata {
    /// Metadata with an empty identifier, an empty schema string, no
    /// partition columns, no configuration and no creation time.
    fn default() -> (r: Metadata)
        ensures
            r@ == (MetadataView {
                id: Seq::empty(),
                schema_string: Seq::empty(),
                partition_columns: Seq::empty(),
                configuration: Seq::empty(),
                created_time: None,
            }),
    {
        let r = Metadata {
            id: String::new(),
            schema_string: String::new(),
            partition_columns: Vec::new(),
            configuration: Vec::new(),
            created_time: None,
        };
        assert(r@.partition_columns =~= Seq::<Seq<char>>::empty());
        assert(r@.configuration =~= Seq::<(Seq<char>, Seq<char>)>::empty());
        r
    }
}

impl Clone for Metadata {
    fn clone(&self) -> (r: Self)
        ensures
            r@ == self@,
    {
        let mut configuration: Vec<(String, String)> = Vec::new();
        let mut i: usize = 0;
        while i < self.configuration.len()
            invariant
                i <= self.configuration.len(),
                configuration@.len() == i,
                forall|k: int| 0 <= k < i ==> configuration@[k] == self.configuration@[k],
            decreases self.configuration.len() - i,
        {
            let pair = &self.configuration[i];
            configuration.push((pair.0.clone(), pair.1.clone()));
            i += 1;
        }
        assert(configuration@ =~= self.configuration@);
        let partition_columns = self.partition_columns.clone();
        assert(partition_columns@ =~= self.partition_columns@);
        Metadata {
            id: self.id.clone(),
            schema_string: self.schema_string.clone(),
            partition_columns,
            configuration,
            created_time: self.created_time,
        }
    }
}

} // verus!
