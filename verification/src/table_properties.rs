//! The typed view of a table's free-form configuration.
//!
//! A configuration is a list of key and value pairs that stands for a map:
//! where a key occurs more than once, its last pair counts. Keys that this
//! crate does not know are ignored, and a value that cannot be read leaves its
//! property absent.

use crate::text::{parse_i64, spec_parse_i64, str_eq};
use vstd::prelude::*;

verus! {

/// How the logical columns of a table are found in its data files.
#[derive(Debug, Clone, Copy, PartialEq, Eq, Structural)]
pub enum ColumnMappingMode {
    /// No mapping: columns are found by their logical name.
    Disabled,
    /// Columns are found by their field id.
    Id,
    /// Columns are found by their physical name.
    Name,
}

/// The properties of a table that this crate reads, each absent where the
/// configuration does not set it to a value that can be read.
#[derive(Debug, Clone, Copy, PartialEq, Eq, Structural)]
pub struct TableProperties {
    /// `delta.appendOnly`
    pub append_only: Option<bool>,
    /// `delta.columnMapping.mode`
    pub column_mapping_mode: Option<ColumnMappingMode>,
    /// `delta.enableChangeDataFeed`
    pub enable_change_data_feed: Option<bool>,
    /// `delta.enableDeletionVectors`
    pub enable_deletion_vectors: Option<bool>,
    /// `delta.enableInCommitTimestamps`
    pub enable_in_commit_timestamps: Option<bool>,
    /// `delta.inCommitTimestampEnablementVersion`
    pub in_commit_timestamp_enablement_version: Option<u64>,
    /// `delta.inCommitTimestampEnablementTimestamp`
    pub in_commit_timestamp_enablement_timestamp: Option<i64>,
}

/// The mathematical value of a configuration: its pairs, in order.
pub type ConfigurationView = Seq<(Seq<char>, Seq<char>)>;

/// The pairs of a configuration as sequences of characters.
pub open spec fn configuration_view(pairs: Seq<(String, String)>) -> ConfigurationView {
    pairs.map_values(|p: (String, String)| (p.0@, p.1@))
}

/// The value that a configuration gives to `key`: that of the last pair with
/// this key.
pub open spec fn lookup(config: ConfigurationView, key: Seq<char>) -> Option<Seq<char>>
    decreases config.len(),
{
    if config.len() == 0 {
        None
    } else if config.last().0 == key {
        Some(config.last().1)
    } else {
        lookup(config.drop_last(), key)
    }
}

/// [`lookup`] finds the last pair with the key, and finds one wherever there
/// is one.
pub proof fn lemma_lookup(config: ConfigurationView, key: Seq<char>)
    ensures
        match lookup(config, key) {
            Some(value) => exists|i: int|
                0 <= i < config.len() && #[trigger] config[i] == (key, value) && forall|j: int|
                    i < j < config.len() ==> (#[trigger] config[j]).0 != key,
            None => forall|i: int| 0 <= i < config.len() ==> (#[trigger] config[i]).0 != key,
        },
    decreases config.len(),
{
    if config.len() > 0 {
        let last = config.len() - 1;
        if config[last].0 == key {
            assert(config[last] == (key, config[last].1));
        } else {
            let front = config.drop_last();
            lemma_lookup(front, key);
            match lookup(front, key) {
                Some(value) => {
                    let i = choose|i: int|
                        0 <= i < front.len() && #[trigger] front[i] == (key, value) && forall|
                            j: int,
                        |
                            i < j < front.len() ==> (#[trigger] front[j]).0 != key;
                    assert(config[i] == front[i]);
                    assert forall|j: int| i < j < config.len() implies (#[trigger] config[j]).0
                        != key by {
                        if j < front.len() {
                            assert(config[j] == front[j]);
                        }
                    }
                },
                None => {
                    assert forall|i: int| 0 <= i < config.len() implies (#[trigger] config[i]).0
                        != key by {
                        if i < front.len() {
                            assert(config[i] == front[i]);
                        }
                    }
                },
            }
        }
    }
}

/// Whether `key` is one of the keys that this crate reads.
pub open spec fn is_known_property(key: Seq<char>) -> bool {
    ||| key == "delta.appendOnly"@
    ||| key == "delta.columnMapping.mode"@
    ||| key == "delta.enableChangeDataFeed"@
    ||| key == "delta.enableDeletionVectors"@
    ||| key == "delta.enableInCommitTimestamps"@
    ||| key == "delta.inCommitTimestampEnablementVersion"@
    ||| key == "delta.inCommitTimestampEnablementTimestamp"@
}

/// A key that this crate does not read changes nothing, whatever its value
/// and wherever it stands in the configuration.
pub proof fn lemma_unknown_property_is_ignored(
    config: ConfigurationView,
    at: int,
    key: Seq<char>,
    value: Seq<char>,
)
    requires
        0 <= at <= config.len(),
        !is_known_property(key),
    ensures
        spec_table_properties(config.insert(at, (key, value))) == spec_table_properties(config),
{
    let longer = config.insert(at, (key, value));
    assert forall|k: Seq<char>| k != key implies lookup(longer, k) == lookup(config, k) by {
        lemma_lookup_skips(config, at, key, value, k);
    }
}

/// A pair with another key does not change what a key is given.
pub proof fn lemma_lookup_skips(
    config: ConfigurationView,
    at: int,
    key: Seq<char>,
    value: Seq<char>,
    other: Seq<char>,
)
    requires
        0 <= at <= config.len(),
        other != key,
    ensures
        lookup(config.insert(at, (key, value)), other) == lookup(config, other),
    decreases config.len() - at,
{
    let longer = config.insert(at, (key, value));
    if at == config.len() {
        assert(longer.drop_last() =~= config);
    } else {
        assert(longer.last() == config.last());
        assert(longer.drop_last() =~= config.drop_last().insert(at, (key, value)));
        lemma_lookup_skips(config.drop_last(), at, key, value, other);
    }
}

/// The boolean that `text` writes: `true` or `false`, in lower case.
pub open spec fn spec_parse_bool(text: Seq<char>) -> Option<bool> {
    if text == "true"@ {
        Some(true)
    } else if text == "false"@ {
        Some(false)
    } else {
        None
    }
}

/// The column mapping mode that `text` writes: `none`, `id` or `name`.
pub open spec fn spec_parse_mode(text: Seq<char>) -> Option<ColumnMappingMode> {
    if text == "none"@ {
        Some(ColumnMappingMode::Disabled)
    } else if text == "id"@ {
        Some(ColumnMappingMode::Id)
    } else if text == "name"@ {
        Some(ColumnMappingMode::Name)
    } else {
        None
    }
}

/// The integer that `text` writes, where it is not negative.
pub open spec fn spec_parse_non_negative(text: Seq<char>) -> Option<i64> {
    match spec_parse_i64(text) {
        Some(n) if n >= 0 => Some(n),
        _ => None,
    }
}

/// The boolean property under `key`.
pub open spec fn bool_property(config: ConfigurationView, key: Seq<char>) -> Option<bool> {
    match lookup(config, key) {
        Some(text) => spec_parse_bool(text),
        None => None,
    }
}

/// The property under `key` that holds an integer which is not negative.
pub open spec fn non_negative_property(config: ConfigurationView, key: Seq<char>) -> Option<i64> {
    match lookup(config, key) {
        Some(text) => spec_parse_non_negative(text),
        None => None,
    }
}

/// The column mapping mode that the configuration asks for.
pub open spec fn mode_property(config: ConfigurationView) -> Option<ColumnMappingMode> {
    match lookup(config, "delta.columnMapping.mode"@) {
        Some(text) => spec_parse_mode(text),
        None => None,
    }
}

/// The table properties that a configuration describes.
pub open spec fn spec_table_properties(config: ConfigurationView) -> TableProperties {
    TableProperties {
        append_only: bool_property(config, "delta.appendOnly"@),
        column_mapping_mode: mode_property(config),
        enable_change_data_feed: bool_property(config, "delta.enableChangeDataFeed"@),
        enable_deletion_vectors: bool_property(config, "delta.enableDeletionVectors"@),
        enable_in_commit_timestamps: bool_property(config, "delta.enableInCommitTimestamps"@),
        in_commit_timestamp_enablement_version: match non_negative_property(
            config,
            "delta.inCommitTimestampEnablementVersion"@,
        ) {
            Some(n) => Some(n as u64),
            None => None,
        },
        in_commit_timestamp_enablement_timestamp: non_negative_property(
            config,
            "delta.inCommitTimestampEnablementTimestamp"@,
        ),
    }
}

/// The value that the configuration gives to `key`, if any.
pub fn configuration_value<'a>(config: &'a Vec<(String, String)>, key: &str) -> (r: Option<
    &'a str,
>)
    ensures
        match r {
            Some(v) => lookup(configuration_view(config@), key@) == Some(v@),
            None => lookup(configuration_view(config@), key@) is None,
        },
{
    let ghost all = configuration_view(config@);
    let mut i: usize = config.len();
    assert(all.take(i as int) =~= all);
    while i > 0
        invariant
            i <= config.len(),
            all == configuration_view(config@),
            lookup(all, key@) == lookup(all.take(i as int), key@),
        decreases i,
    {
        i -= 1;
        let pair = &config[i];
        proof {
            let upto = all.take(i + 1);
            assert(upto.last() == (pair.0@, pair.1@));
            assert(upto.drop_last() =~= all.take(i as int));
        }
        if str_eq(pair.0.as_str(), key) {
            return Some(pair.1.as_str());
        }
    }
    None
}

/// Reads `true` or `false`.
pub fn parse_bool(text: &str) -> (r: Option<bool>)
    ensures
        r == spec_parse_bool(text@),
{
    if str_eq(text, "true") {
        Some(true)
    } else if str_eq(text, "false") {
        Some(false)
    } else {
        None
    }
}

/// Reads an integer that is not negative.
pub fn parse_non_negative(text: &str) -> (r: Option<i64>)
    ensures
        r == spec_parse_non_negative(text@),
{
    match parse_i64(text) {
        Some(n) => if n >= 0 {
            Some(n)
        } else {
            None
        },
        None => None,
    }
}

impl ColumnMappingMode {
    /// Reads `none`, `id` or `name`.
    pub fn from_name(text: &str) -> (r: Option<ColumnMappingMode>)
        ensures
            r == spec_parse_mode(text@),
    {
        if str_eq(text, "none") {
            Some(ColumnMappingMode::Disabled)
        } else if str_eq(text, "id") {
            Some(ColumnMappingMode::Id)
        } else if str_eq(text, "name") {
            Some(ColumnMappingMode::Name)
        } else {
            None
        }
    }
}

fn bool_value(config: &Vec<(String, String)>, key: &str) -> (r: Option<bool>)
    ensures
        r == bool_property(configuration_view(config@), key@),
{
    match configuration_value(config, key) {
        Some(text) => parse_bool(text),
        None => None,
    }
}

fn non_negative_value(config: &Vec<(String, String)>, key: &str) -> (r: Option<i64>)
    ensures
        r == non_negative_property(configuration_view(config@), key@),
{
    match configuration_value(config, key) {
        Some(text) => parse_non_negative(text),
        None => None,
    }
}

impl TableProperties {
    /// Reads the properties out of a configuration. This never fails: what
    /// cannot be read is absent.
    pub fn from_configuration(config: &Vec<(String, String)>) -> (r: TableProperties)
        ensures
            r == spec_table_properties(configuration_view(config@)),
    {
        let mode = match configuration_value(config, "delta.columnMapping.mode") {
            Some(text) => ColumnMappingMode::from_name(text),
            None => None,
        };
        let version = match non_negative_value(config, "delta.inCommitTimestampEnablementVersion") {
            Some(n) => Some(n as u64),
            None => None,
        };
        TableProperties {
            append_only: bool_value(config, "delta.appendOnly"),
            column_mapping_mode: mode,
            enable_change_data_feed: bool_value(config, "delta.enableChangeDataFeed"),
            enable_deletion_vectors: bool_value(config, "delta.enableDeletionVectors"),
            enable_in_commit_timestamps: bool_value(config, "delta.enableInCommitTimestamps"),
            in_commit_timestamp_enablement_version: version,
            in_commit_timestamp_enablement_timestamp: non_negative_value(
                config,
                "delta.inCommitTimestampEnablementTimestamp",
            ),
        }
    }
}

impl Default for TableProperties {
    /// The properties of an empty configuration: every one absent.
    fn default() -> (r: TableProperties)
        ensures
            r == spec_table_properties(Seq::empty()),
    {
        TableProperties {
            append_only: None,
            column_mapping_mode: None,
            enable_change_data_feed: None,
            enable_deletion_vectors: None,
            enable_in_commit_timestamps: None,
            in_commit_timestamp_enablement_version: None,
            in_commit_timestamp_enablement_timestamp: None,
        }
    }
}

} // verus!
