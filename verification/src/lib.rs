//! Compatibility validation for one version of a Delta table.
//!
//! A [`table_configuration::TableConfiguration`] bundles a table's protocol,
//! metadata, parsed schema and typed table properties. It can only be built
//! through a constructor that checks that the protocol, the schema and the
//! properties agree with one another, and it answers the questions "is feature
//! X supported" and "is feature X enabled" that the rest of a reader asks.
//!
//! Every function states what it returns over a mathematical model of its
//! arguments: a text is its sequence of characters, a configuration its
//! sequence of pairs, a schema its tree of fields. The models are the views
//! of the types, written `@`.
//!
//! - [`actions`]: the protocol and the metadata of a table version.
//! - [`table_features`]: the features that a protocol declares.
//! - [`table_properties`]: the typed view of the configuration.
//! - [`json`], [`schema`]: the schema, and how it is read out of its JSON form.
//! - [`column_mapping`], [`feature_validation`]: the checks of a schema
//!   against the protocol and the properties.
//! - [`table_configuration`]: the checked configuration and its questions.
//! - [`engine`]: the decisions of a client for a files service.
//! - [`error`], [`text`]: what the other modules share.

pub mod actions;
pub mod column_mapping;
pub mod engine;
pub mod error;
pub mod feature_validation;
pub mod json;
pub mod schema;
pub mod table_configuration;
pub mod table_features;
pub mod table_properties;
pub mod text;
