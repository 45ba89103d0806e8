//! The error type shared by every fallible operation of the crate.

use vstd::prelude::*;
use vstd::string::StringExecFns;

verus! {

/// Why a table version was rejected.
#[derive(Debug)]
pub enum Error {
    /// The schema string is not a JSON document. The payload is the parser's
    /// own description of the fault.
    MalformedJson(String),
    /// The schema string is JSON, but not a schema.
    Schema(String),
    /// The protocol or the schema asks for something this implementation does
    /// not support.
    Unsupported(String),
    /// The protocol contradicts itself.
    InvalidProtocol(String),
    /// The column mapping annotations of the schema do not fit the mode.
    InvalidColumnMappingMode(String),
    /// Table properties that belong together are incomplete.
    Generic(String),
}

/// The mathematical value of an [`Error`]: its variant and its message.
///
/// The diagnostic text that the JSON parser attaches to
/// [`Error::MalformedJson`] is not part of the model.
pub enum ErrorView {
    MalformedJson,
    Schema(Seq<char>),
    Unsupported(Seq<char>),
    InvalidProtocol(Seq<char>),
    InvalidColumnMappingMode(Seq<char>),
    Generic(Seq<char>),
}

/// The result type of the crate.
pub type DeltaResult<T> = Result<T, Error>;

impl View for Error {
    type V = ErrorView;

    open spec fn view(&self) -> ErrorView {
        match self {
            Error::MalformedJson(_) => ErrorView::MalformedJson,
            Error::Schema(m) => ErrorView::Schema(m@),
            Error::Unsupported(m) => ErrorView::Unsupported(m@),
            Error::InvalidProtocol(m) => ErrorView::InvalidProtocol(m@),
            Error::InvalidColumnMappingMode(m) => ErrorView::InvalidColumnMappingMode(m@),
            Error::Generic(m) => ErrorView::Generic(m@),
        }
    }
}

/// The mathematical value of a result: that of the value, or that of the
/// error.
pub open spec fn result_view<T: View>(r: Result<T, Error>) -> Result<T::V, ErrorView> {
    match r {
        Ok(v) => Ok(v@),
        Err(e) => Err(e@),
    }
}

/// The mathematical value of a result that holds no value.
pub open spec fn unit_result_view(r: Result<(), Error>) -> Result<(), ErrorView> {
    match r {
        Ok(()) => Ok(()),
        Err(e) => Err(e@),
    }
}

impl ErrorView {
    /// The text that stands before the message of each variant.
    pub open spec fn prefix(self) -> Seq<char> {
        match self {
            ErrorView::MalformedJson => "Malformed JSON: "@,
            ErrorView::Schema(_) => "Schema error: "@,
            ErrorView::Unsupported(_) => "Unsupported: "@,
            ErrorView::InvalidProtocol(_) => "Invalid protocol: "@,
            ErrorView::InvalidColumnMappingMode(_) => "Invalid column mapping mode: "@,
            ErrorView::Generic(_) => "Generic delta kernel error: "@,
        }
    }
}

impl Error {
    /// An [`Error::Unsupported`] with the given message.
    pub fn unsupported(msg: &str) -> (e: Error)
        ensures
            e@ == ErrorView::Unsupported(msg@),
    {
        Error::Unsupported(String::from_str(msg))
    }

    /// An [`Error::Generic`] with the given message.
    pub fn generic(msg: &str) -> (e: Error)
        ensures
            e@ == ErrorView::Generic(msg@),
    {
        Error::Generic(String::from_str(msg))
    }

    /// An [`Error::InvalidProtocol`] with the given message.
    pub fn invalid_protocol(msg: &str) -> (e: Error)
        ensures
            e@ == ErrorView::InvalidProtocol(msg@),
    {
        Error::InvalidProtocol(String::from_str(msg))
    }

    /// An [`Error::Schema`] with the given message.
    pub fn schema(msg: &str) -> (e: Error)
        ensures
            e@ == ErrorView::Schema(msg@),
    {
        Error::Schema(String::from_str(msg))
    }

    /// The message that the error carries, without the variant's prefix.
    pub fn message(&self) -> (m: &str)
        ensures
            m@ == self.message_text(),
    {
        match self {
            Error::MalformedJson(m) => m.as_str(),
            Error::Schema(m) => m.as_str(),
            Error::Unsupported(m) => m.as_str(),
            Error::InvalidProtocol(m) => m.as_str(),
            Error::InvalidColumnMappingMode(m) => m.as_str(),
            Error::Generic(m) => m.as_str(),
        }
    }

    /// The error as one line of text: the variant's prefix, then the message.
    pub fn to_string(&self) -> (s: String)
        ensures
            s@ == self@.prefix() + self.message_text(),
    {
        let head = match self {
            Error::MalformedJson(_) => "Malformed JSON: ",
            Error::Schema(_) => "Schema error: ",
            Error::Unsupported(_) => "Unsupported: ",
            Error::InvalidProtocol(_) => "Invalid protocol: ",
            Error::InvalidColumnMappingMode(_) => "Invalid column mapping mode: ",
            Error::Generic(_) => "Generic delta kernel error: ",
        };
        let mut s = String::from_str(head);
        s.append(self.message());
        s
    }

    /// The characters of the message, the parser's text included.
    pub open spec fn message_text(&self) -> Seq<char> {
        match self {
            Error::MalformedJson(m) => m@,
            Error::Schema(m) => m@,
            Error::Unsupported(m) => m@,
            Error::InvalidProtocol(m) => m@,
            Error::InvalidColumnMappingMode(m) => m@,
            Error::Generic(m) => m@,
        }
    }
}

} // verus!
