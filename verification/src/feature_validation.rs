//! Column types that need a table feature: a schema may use them only where
//! the protocol declares the feature for readers and for writers.

use crate::actions::{Protocol, ProtocolView};
use crate::error::{unit_result_view, DeltaResult, Error, ErrorView};
use crate::schema::query::{uses_timestamp_ntz, uses_variant, SchemaProperty};
use crate::schema::{Schema, SchemaView};
use crate::table_features::{ReaderFeature, WriterFeature};
use vstd::prelude::*;

verus! {

/// The message for a timestamp without a time zone that comes without its
/// feature.
pub const TIMESTAMP_NTZ_UNSUPPORTED: &'static str =
    "Table contains TIMESTAMP_NTZ columns but does not have the required 'timestampNtz' feature in reader and writer features";

/// The message for a variant that comes without its feature.
pub const VARIANT_UNSUPPORTED: &'static str =
    "Table contains VARIANT columns but does not have the required 'variantType' feature in reader and writer features";

/// What [`validate_timestamp_ntz_feature_support`] returns.
pub open spec fn spec_validate_timestamp_ntz(schema: SchemaView, protocol: ProtocolView) -> Result<
    (),
    ErrorView,
> {
    if uses_timestamp_ntz(schema) && !(protocol.has_reader_feature("timestampNtz"@)
        && protocol.has_writer_feature("timestampNtz"@)) {
        Err(ErrorView::Unsupported(TIMESTAMP_NTZ_UNSUPPORTED@))
    } else {
        Ok(())
    }
}

/// What [`validate_variant_type_feature_support`] returns.
pub open spec fn spec_validate_variant(schema: SchemaView, protocol: ProtocolView) -> Result<
    (),
    ErrorView,
> {
    if uses_variant(schema) && !(protocol.has_reader_feature("variantType"@)
        && protocol.has_writer_feature("variantType"@)) {
        Err(ErrorView::Unsupported(VARIANT_UNSUPPORTED@))
    } else {
        Ok(())
    }
}

/// Checks that a schema with a column that is a timestamp without a time
/// zone comes with a protocol that declares the feature on both sides.
pub fn validate_timestamp_ntz_feature_support(schema: &Schema, protocol: &Protocol) -> (r:
    DeltaResult<()>)
    ensures
        unit_result_view(r) == spec_validate_timestamp_ntz(schema@, protocol@),
{
    if protocol.has_reader_feature(&ReaderFeature::TimestampWithoutTimezone)
        && protocol.has_writer_feature(&WriterFeature::TimestampWithoutTimezone) {
        return Ok(());
    }
    if schema.has(SchemaProperty::UsesTimestampNtz) {
        Err(Error::unsupported(TIMESTAMP_NTZ_UNSUPPORTED))
    } else {
        Ok(())
    }
}

/// Checks that a schema with a variant column comes with a protocol that
/// declares the feature on both sides.
pub fn validate_variant_type_feature_support(schema: &Schema, protocol: &Protocol) -> (r:
    DeltaResult<()>)
    ensures
        unit_result_view(r) == spec_validate_variant(schema@, protocol@),
{
    if protocol.has_reader_feature(&ReaderFeature::VariantType) && protocol.has_writer_feature(
        &WriterFeature::VariantType,
    ) {
        return Ok(());
    }
    if schema.has(SchemaProperty::UsesVariant) {
        Err(Error::unsupported(VARIANT_UNSUPPORTED))
    } else {
        Ok(())
    }
}

} // verus!
