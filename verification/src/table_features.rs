//! Reader and writer table features: the named capabilities that a protocol
//! may declare, and the check that a declared set lies within a supported one.

use crate::error::{unit_result_view, DeltaResult, Error, ErrorView};
use crate::text::str_eq;
use vstd::prelude::*;
use vstd::string::StringExecFns;

verus! {

/// A capability that a table may require of whoever reads it.
///
/// A feature is identified by its name: two values with the same name are the
/// same feature to every function of this crate.
#[derive(Debug, PartialEq, Eq)]
pub enum ReaderFeature {
    ColumnMapping,
    DeletionVectors,
    TimestampWithoutTimezone,
    TypeWidening,
    TypeWideningPreview,
    V2Checkpoint,
    VacuumProtocolCheck,
    VariantType,
    VariantTypePreview,
    /// A name that this crate does not recognize.
    Unknown(String),
}

/// A capability that a table may require of whoever writes it.
///
/// A feature is identified by its name, as for [`ReaderFeature`].
#[derive(Debug, PartialEq, Eq)]
pub enum WriterFeature {
    AppendOnly,
    Invariants,
    CheckConstraints,
    ChangeDataFeed,
    GeneratedColumns,
    ColumnMapping,
    IdentityColumns,
    InCommitTimestamp,
    DeletionVectors,
    RowTracking,
    TimestampWithoutTimezone,
    TypeWidening,
    TypeWideningPreview,
    DomainMetadata,
    V2Checkpoint,
    IcebergCompatV1,
    IcebergCompatV2,
    VacuumProtocolCheck,
    ClusteredTable,
    VariantType,
    VariantTypePreview,
    /// A name that this crate does not recognize.
    Unknown(String),
}

/// What reader and writer features have in common: a name, and a word for the
/// kind of feature in messages.
pub trait TableFeature: Sized {
    /// The name under which a protocol declares the feature.
    spec fn name(&self) -> Seq<char>;

    /// The word for this kind of feature in messages.
    spec fn kind() -> Seq<char>;

    /// The name under which a protocol declares the feature.
    fn as_str(&self) -> (r: &str)
        ensures
            r@ == self.name(),
    ;

    /// The word for this kind of feature in messages.
    fn kind_str() -> (r: &'static str)
        ensures
            r@ == Self::kind(),
    ;
}

impl View for ReaderFeature {
    type V = Seq<char>;

    open spec fn view(&self) -> Seq<char> {
        match self {
            ReaderFeature::ColumnMapping => "columnMapping"@,
            ReaderFeature::DeletionVectors => "deletionVectors"@,
            ReaderFeature::TimestampWithoutTimezone => "timestampNtz"@,
            ReaderFeature::TypeWidening => "typeWidening"@,
            ReaderFeature::TypeWideningPreview => "typeWidening-preview"@,
            ReaderFeature::V2Checkpoint => "v2Checkpoint"@,
            ReaderFeature::VacuumProtocolCheck => "vacuumProtocolCheck"@,
            ReaderFeature::VariantType => "variantType"@,
            ReaderFeature::VariantTypePreview => "variantType-preview"@,
            ReaderFeature::Unknown(s) => s@,
        }
    }
}

impl View for WriterFeature {
    type V = Seq<char>;

    open spec fn view(&self) -> Seq<char> {
        match self {
            WriterFeature::AppendOnly => "appendOnly"@,
            WriterFeature::Invariants => "invariants"@,
            WriterFeature::CheckConstraints => "checkConstraints"@,
            WriterFeature::ChangeDataFeed => "changeDataFeed"@,
            WriterFeature::GeneratedColumns => "generatedColumns"@,
            WriterFeature::ColumnMapping => "columnMapping"@,
            WriterFeature::IdentityColumns => "identityColumns"@,
            WriterFeature::InCommitTimestamp => "inCommitTimestamp"@,
            WriterFeature::DeletionVectors => "deletionVectors"@,
            WriterFeature::RowTracking => "rowTracking"@,
            WriterFeature::TimestampWithoutTimezone => "timestampNtz"@,
            WriterFeature::TypeWidening => "typeWidening"@,
            WriterFeature::TypeWideningPreview => "typeWidening-preview"@,
            WriterFeature::DomainMetadata => "domainMetadata"@,
            WriterFeature::V2Checkpoint => "v2Checkpoint"@,
            WriterFeature::IcebergCompatV1 => "icebergCompatV1"@,
            WriterFeature::IcebergCompatV2 => "icebergCompatV2"@,
            WriterFeature::VacuumProtocolCheck => "vacuumProtocolCheck"@,
            WriterFeature::ClusteredTable => "clustering"@,
            WriterFeature::VariantType => "variantType"@,
            WriterFeature::VariantTypePreview => "variantType-preview"@,
            WriterFeature::Unknown(s) => s@,
        }
    }
}

/// Whether `name` is the name of a reader feature that this crate recognizes.
pub open spec fn is_known_reader_feature(name: Seq<char>) -> bool {
    ||| name == "columnMapping"@
    ||| name == "deletionVectors"@
    ||| name == "timestampNtz"@
    ||| name == "typeWidening"@
    ||| name == "typeWidening-preview"@
    ||| name == "v2Checkpoint"@
    ||| name == "vacuumProtocolCheck"@
    ||| name == "variantType"@
    ||| name == "variantType-preview"@
}

/// Whether `name` is the name of a writer feature that this crate recognizes.
pub open spec fn is_known_writer_feature(name: Seq<char>) -> bool {
    ||| name == "appendOnly"@
    ||| name == "invariants"@
    ||| name == "checkConstraints"@
    ||| name == "changeDataFeed"@
    ||| name == "generatedColumns"@
    ||| name == "columnMapping"@
    ||| name == "identityColumns"@
    ||| name == "inCommitTimestamp"@
    ||| name == "deletionVectors"@
    ||| name == "rowTracking"@
    ||| name == "timestampNtz"@
    ||| name == "typeWidening"@
    ||| name == "typeWidening-preview"@
    ||| name == "domainMetadata"@
    ||| name == "v2Checkpoint"@
    ||| name == "icebergCompatV1"@
    ||| name == "icebergCompatV2"@
    ||| name == "vacuumProtocolCheck"@
    ||| name == "clustering"@
    ||| name == "variantType"@
    ||| name == "variantType-preview"@
}

impl ReaderFeature {
    /// The feature with the given name; [`ReaderFeature::Unknown`] for a name
    /// that is not recognized.
    pub fn from_name(name: &str) -> (f: ReaderFeature)
        ensures
            f@ == name@,
            f is Unknown <==> !is_known_reader_feature(name@),
    {
        if str_eq(name, "columnMapping") {
            ReaderFeature::ColumnMapping
        } else if str_eq(name, "deletionVectors") {
            ReaderFeature::DeletionVectors
        } else if str_eq(name, "timestampNtz") {
            ReaderFeature::TimestampWithoutTimezone
        } else if str_eq(name, "typeWidening") {
            ReaderFeature::TypeWidening
        } else if str_eq(name, "typeWidening-preview") {
            ReaderFeature::TypeWideningPreview
        } else if str_eq(name, "v2Checkpoint") {
            ReaderFeature::V2Checkpoint
        } else if str_eq(name, "vacuumProtocolCheck") {
            ReaderFeature::VacuumProtocolCheck
        } else if str_eq(name, "variantType") {
            ReaderFeature::VariantType
        } else if str_eq(name, "variantType-preview") {
            ReaderFeature::VariantTypePreview
        } else {
            ReaderFeature::Unknown(String::from_str(name))
        }
    }

    /// Whether the feature's name is one that this crate recognizes.
    pub fn is_known(&self) -> (r: bool)
        ensures
            r == is_known_reader_feature(self@),
    {
        match self {
            ReaderFeature::Unknown(s) => match ReaderFeature::from_name(s.as_str()) {
                ReaderFeature::Unknown(_) => false,
                _ => true,
            },
            _ => true,
        }
    }

    /// The feature's name as an owned string.
    pub fn to_string(&self) -> (s: String)
        ensures
            s@ == self@,
    {
        String::from_str(self.as_str())
    }
}

impl Clone for ReaderFeature {
    fn clone(&self) -> (r: Self)
        ensures
            r == *self,
    {
        match self {
            ReaderFeature::ColumnMapping => ReaderFeature::ColumnMapping,
            ReaderFeature::DeletionVectors => ReaderFeature::DeletionVectors,
            ReaderFeature::TimestampWithoutTimezone => ReaderFeature::TimestampWithoutTimezone,
            ReaderFeature::TypeWidening => ReaderFeature::TypeWidening,
            ReaderFeature::TypeWideningPreview => ReaderFeature::TypeWideningPreview,
            ReaderFeature::V2Checkpoint => ReaderFeature::V2Checkpoint,
            ReaderFeature::VacuumProtocolCheck => ReaderFeature::VacuumProtocolCheck,
            ReaderFeature::VariantType => ReaderFeature::VariantType,
            ReaderFeature::VariantTypePreview => ReaderFeature::VariantTypePreview,
            ReaderFeature::Unknown(s) => ReaderFeature::Unknown(s.clone()),
        }
    }
}

impl TableFeature for ReaderFeature {
    open spec fn name(&self) -> Seq<char> {
        self@
    }

    open spec fn kind() -> Seq<char> {
        "ReaderFeature"@
    }

    fn as_str(&self) -> (r: &str) {
        match self {
            ReaderFeature::ColumnMapping => "columnMapping",
            ReaderFeature::DeletionVectors => "deletionVectors",
            ReaderFeature::TimestampWithoutTimezone => "timestampNtz",
            ReaderFeature::TypeWidening => "typeWidening",
            ReaderFeature::TypeWideningPreview => "typeWidening-preview",
            ReaderFeature::V2Checkpoint => "v2Checkpoint",
            ReaderFeature::VacuumProtocolCheck => "vacuumProtocolCheck",
            ReaderFeature::VariantType => "variantType",
            ReaderFeature::VariantTypePreview => "variantType-preview",
            ReaderFeature::Unknown(s) => s.as_str(),
        }
    }

    fn kind_str() -> (r: &'static str) {
        "ReaderFeature"
    }
}

impl WriterFeature {
    /// The feature with the given name; [`WriterFeature::Unknown`] for a name
    /// that is not recognized.
    pub fn from_name(name: &str) -> (f: WriterFeature)
        ensures
            f@ == name@,
            f is Unknown <==> !is_known_writer_feature(name@),
    {
        if str_eq(name, "appendOnly") {
            WriterFeature::AppendOnly
        } else if str_eq(name, "invariants") {
            WriterFeature::Invariants
        } else if str_eq(name, "checkConstraints") {
            WriterFeature::CheckConstraints
        } else if str_eq(name, "changeDataFeed") {
            WriterFeature::ChangeDataFeed
        } else if str_eq(name, "generatedColumns") {
            WriterFeature::GeneratedColumns
        } else if str_eq(name, "columnMapping") {
            WriterFeature::ColumnMapping
        } else if str_eq(name, "identityColumns") {
            WriterFeature::IdentityColumns
        } else if str_eq(name, "inCommitTimestamp") {
            WriterFeature::InCommitTimestamp
        } else if str_eq(name, "deletionVectors") {
            WriterFeature::DeletionVectors
        } else if str_eq(name, "rowTracking") {
            WriterFeature::RowTracking
        } else if str_eq(name, "timestampNtz") {
            WriterFeature::TimestampWithoutTimezone
        } else if str_eq(name, "typeWidening") {
            WriterFeature::TypeWidening
        } else if str_eq(name, "typeWidening-preview") {
            WriterFeature::TypeWideningPreview
        } else if str_eq(name, "domainMetadata") {
            WriterFeature::DomainMetadata
        } else if str_eq(name, "v2Checkpoint") {
            WriterFeature::V2Checkpoint
        } else if str_eq(name, "icebergCompatV1") {
            WriterFeature::IcebergCompatV1
        } else if str_eq(name, "icebergCompatV2") {
            WriterFeature::IcebergCompatV2
        } else if str_eq(name, "vacuumProtocolCheck") {
            WriterFeature::VacuumProtocolCheck
        } else if str_eq(name, "clustering") {
            WriterFeature::ClusteredTable
        } else if str_eq(name, "variantType") {
            WriterFeature::VariantType
        } else if str_eq(name, "variantType-preview") {
            WriterFeature::VariantTypePreview
        } else {
            WriterFeature::Unknown(String::from_str(name))
        }
    }

    /// Whether the feature's name is one that this crate recognizes.
    pub fn is_known(&self) -> (r: bool)
        ensures
            r == is_known_writer_feature(self@),
    {
        match self {
            WriterFeature::Unknown(s) => match WriterFeature::from_name(s.as_str()) {
                WriterFeature::Unknown(_) => false,
                _ => true,
            },
            _ => true,
        }
    }

    /// The feature's name as an owned string.
    pub fn to_string(&self) -> (s: String)
        ensures
            s@ == self@,
    {
        String::from_str(self.as_str())
    }
}

impl Clone for WriterFeature {
    fn clone(&self) -> (r: Self)
        ensures
            r == *self,
    {
        match self {
            WriterFeature::AppendOnly => WriterFeature::AppendOnly,
            WriterFeature::Invariants => WriterFeature::Invariants,
            WriterFeature::CheckConstraints => WriterFeature::CheckConstraints,
            WriterFeature::ChangeDataFeed => WriterFeature::ChangeDataFeed,
            WriterFeature::GeneratedColumns => WriterFeature::GeneratedColumns,
            WriterFeature::ColumnMapping => WriterFeature::ColumnMapping,
            WriterFeature::IdentityColumns => WriterFeature::IdentityColumns,
            WriterFeature::InCommitTimestamp => WriterFeature::InCommitTimestamp,
            WriterFeature::DeletionVectors => WriterFeature::DeletionVectors,
            WriterFeature::RowTracking => WriterFeature::RowTracking,
            WriterFeature::TimestampWithoutTimezone => WriterFeature::TimestampWithoutTimezone,
            WriterFeature::TypeWidening => WriterFeature::TypeWidening,
            WriterFeature::TypeWideningPreview => WriterFeature::TypeWideningPreview,
            WriterFeature::DomainMetadata => WriterFeature::DomainMetadata,
            WriterFeature::V2Checkpoint => WriterFeature::V2Checkpoint,
            WriterFeature::IcebergCompatV1 => WriterFeature::IcebergCompatV1,
            WriterFeature::IcebergCompatV2 => WriterFeature::IcebergCompatV2,
            WriterFeature::VacuumProtocolCheck => WriterFeature::VacuumProtocolCheck,
            WriterFeature::ClusteredTable => WriterFeature::ClusteredTable,
            WriterFeature::VariantType => WriterFeature::VariantType,
            WriterFeature::VariantTypePreview => WriterFeature::VariantTypePreview,
            WriterFeature::Unknown(s) => WriterFeature::Unknown(s.clone()),
        }
    }
}

impl TableFeature for WriterFeature {
    open spec fn name(&self) -> Seq<char> {
        self@
    }

    open spec fn kind() -> Seq<char> {
        "WriterFeature"@
    }

    fn as_str(&self) -> (r: &str) {
        match self {
            WriterFeature::AppendOnly => "appendOnly",
            WriterFeature::Invariants => "invariants",
            WriterFeature::CheckConstraints => "checkConstraints",
            WriterFeature::ChangeDataFeed => "changeDataFeed",
            WriterFeature::GeneratedColumns => "generatedColumns",
            WriterFeature::ColumnMapping => "columnMapping",
            WriterFeature::IdentityColumns => "identityColumns",
            WriterFeature::InCommitTimestamp => "inCommitTimestamp",
            WriterFeature::DeletionVectors => "deletionVectors",
            WriterFeature::RowTracking => "rowTracking",
            WriterFeature::TimestampWithoutTimezone => "timestampNtz",
            WriterFeature::TypeWidening => "typeWidening",
            WriterFeature::TypeWideningPreview => "typeWidening-preview",
            WriterFeature::DomainMetadata => "domainMetadata",
            WriterFeature::V2Checkpoint => "v2Checkpoint",
            WriterFeature::IcebergCompatV1 => "icebergCompatV1",
            WriterFeature::IcebergCompatV2 => "icebergCompatV2",
            WriterFeature::VacuumProtocolCheck => "vacuumProtocolCheck",
            WriterFeature::ClusteredTable => "clustering",
            WriterFeature::VariantType => "variantType",
            WriterFeature::VariantTypePreview => "variantType-preview",
            WriterFeature::Unknown(s) => s.as_str(),
        }
    }

    fn kind_str() -> (r: &'static str) {
        "WriterFeature"
    }
}

/// The names of a sequence of features, in order.
pub open spec fn names<T: TableFeature>(features: Seq<T>) -> Seq<Seq<char>> {
    features.map_values(|f: T| f.name())
}

/// The members of `declared` that `supported` lacks, in order.
pub open spec fn unsupported(declared: Seq<Seq<char>>, supported: Seq<Seq<char>>) -> Seq<
    Seq<char>,
> {
    declared.filter(|n: Seq<char>| !supported.contains(n))
}

/// The items of `items`, in order, with `sep` between neighbours.
pub open spec fn joined(items: Seq<Seq<char>>, sep: Seq<char>) -> Seq<char>
    decreases items.len(),
{
    if items.len() == 0 {
        Seq::empty()
    } else if items.len() == 1 {
        items[0]
    } else {
        joined(items.drop_last(), sep) + sep + items.last()
    }
}

/// The message of the error for features outside the supported set: the
/// offending names, then the supported ones.
pub open spec fn unsupported_message(
    kind: Seq<char>,
    declared: Seq<Seq<char>>,
    supported: Seq<Seq<char>>,
) -> Seq<char> {
    "Unknown "@ + kind + "s: \""@ + joined(unsupported(declared, supported), "\", \""@)
        + "\". Supported "@ + kind + "s: \""@ + joined(supported, "\", \""@) + "\""@
}

/// Whether every declared feature is among the supported ones.
pub open spec fn all_supported(declared: Seq<Seq<char>>, supported: Seq<Seq<char>>) -> bool {
    forall|i: int| 0 <= i < declared.len() ==> supported.contains(#[trigger] declared[i])
}

/// What [`ensure_supported_features`] returns.
pub open spec fn spec_ensure_supported_features(
    kind: Seq<char>,
    declared: Seq<Seq<char>>,
    supported: Seq<Seq<char>>,
) -> Result<(), ErrorView> {
    if all_supported(declared, supported) {
        Ok(())
    } else {
        Err(ErrorView::Unsupported(unsupported_message(kind, declared, supported)))
    }
}

/// Whether a feature with the name of `feature` is in `list`.
pub fn contains_feature<T: TableFeature>(list: &Vec<T>, feature: &T) -> (r: bool)
    ensures
        r == names(list@).contains(feature.name()),
{
    let mut i: usize = 0;
    while i < list.len()
        invariant
            i <= list.len(),
            forall|k: int| 0 <= k < i ==> names(list@)[k] != feature.name(),
        decreases list.len() - i,
    {
        if str_eq(list[i].as_str(), feature.as_str()) {
            assert(names(list@)[i as int] == feature.name());
            return true;
        }
        i += 1;
    }
    false
}

/// Whether every feature of `declared` is in `supported`.
pub fn all_features_supported<T: TableFeature>(declared: &Vec<T>, supported: &Vec<T>) -> (r: bool)
    ensures
        r == all_supported(names(declared@), names(supported@)),
{
    let mut i: usize = 0;
    while i < declared.len()
        invariant
            i <= declared.len(),
            forall|k: int|
                0 <= k < i ==> names(supported@).contains(#[trigger] names(declared@)[k]),
        decreases declared.len() - i,
    {
        if !contains_feature(supported, &declared[i]) {
            assert(!names(supported@).contains(names(declared@)[i as int]));
            return false;
        }
        i += 1;
    }
    true
}

/// Appends to `out` the names of the features of `list` that `skip` lacks,
/// with a quote, a comma, a space and a quote between neighbours.
fn append_names_outside<T: TableFeature>(out: &mut String, list: &Vec<T>, skip: &Vec<T>)
    ensures
        final(out)@ == old(out)@ + joined(
            unsupported(names(list@), names(skip@)),
            "\", \""@,
        ),
{
    let ghost before = out@;
    let ghost all = names(list@);
    let ghost pred = |n: Seq<char>| !names(skip@).contains(n);
    let mut any = false;
    let mut i: usize = 0;
    proof {
        reveal(Seq::filter);
        assert(all.take(0) =~= Seq::<Seq<char>>::empty());
        assert(all.take(0).filter(pred) =~= Seq::<Seq<char>>::empty());
    }
    while i < list.len()
        invariant
            i <= list.len(),
            all == names(list@),
            pred == |n: Seq<char>| !names(skip@).contains(n),
            any == (all.take(i as int).filter(pred).len() > 0),
            out@ == before + joined(all.take(i as int).filter(pred), "\", \""@),
        decreases list.len() - i,
    {
        let f = &list[i];
        let ghost prev = all.take(i as int).filter(pred);
        proof {
            reveal(Seq::filter);
            assert(all.take(i + 1).drop_last() =~= all.take(i as int));
            assert(all.take(i + 1).last() == f.name());
        }
        if !contains_feature(skip, f) {
            proof {
                assert(pred(f.name()));
                let next = all.take(i + 1).filter(pred);
                assert(next == prev.push(f.name()));
                assert(next.drop_last() =~= prev);
                assert(next.last() == f.name());
            }
            if any {
                out.append("\", \"");
                out.append(f.as_str());
                assert(out@ =~= before + (joined(prev, "\", \""@) + "\", \""@ + f.name()));
            } else {
                assert(prev =~= Seq::<Seq<char>>::empty());
                out.append(f.as_str());
                assert(out@ =~= before + f.name());
            }
            any = true;
        } else {
            assert(!pred(f.name()));
        }
        i += 1;
    }
    assert(all.take(list.len() as int) =~= all);
}

/// Checks that every feature of `declared` is in `supported`; the error names
/// the features that are not, and the supported ones.
pub fn ensure_supported_features<T: TableFeature>(
    declared: &Vec<T>,
    supported: &Vec<T>,
) -> (r: DeltaResult<()>)
    ensures
        unit_result_view(r) == spec_ensure_supported_features(
            T::kind(),
            names(declared@),
            names(supported@),
        ),
{
    if all_features_supported(declared, supported) {
        return Ok(());
    }
    let none: Vec<T> = Vec::new();
    let mut msg = String::from_str("Unknown ");
    msg.append(T::kind_str());
    msg.append("s: \"");
    append_names_outside(&mut msg, declared, supported);
    msg.append("\". Supported ");
    msg.append(T::kind_str());
    msg.append("s: \"");
    append_names_outside(&mut msg, supported, &none);
    msg.append("\"");
    proof {
        let s = names(supported@);
        let p = |n: Seq<char>| !names(none@).contains(n);
        assert(names(none@) =~= Seq::<Seq<char>>::empty());
        assert forall|i: int| 0 <= i < s.len() implies p(#[trigger] s[i]) by {}
        lemma_filter_all(s, p);
        assert(msg@ =~= unsupported_message(T::kind(), names(declared@), names(supported@)));
    }
    Err(Error::Unsupported(msg))
}

/// A filter that every item passes keeps the sequence as it is.
pub proof fn lemma_filter_all<A>(s: Seq<A>, p: spec_fn(A) -> bool)
    requires
        forall|i: int| 0 <= i < s.len() ==> p(#[trigger] s[i]),
    ensures
        s.filter(p) == s,
    decreases s.len(),
{
    reveal(Seq::filter);
    if s.len() > 0 {
        lemma_filter_all(s.drop_last(), p);
        assert(s.drop_last().push(s.last()) =~= s);
    }
}

} // verus!
