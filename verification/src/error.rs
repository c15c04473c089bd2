//! The errors of the document store.

use vstd::prelude::*;

verus! {

/// The search engine's own error.
#[verifier::external_type_specification]
#[verifier::external_body]
pub struct ExEngineError(tantivy::TantivyError);

/// An error of the operating system's input and output.
#[verifier::external_type_specification]
#[verifier::external_body]
pub struct ExIoError(std::io::Error);

/// What can go wrong in the document store.
#[derive(Debug)]
pub enum Error {
    /// The index could not be opened.
    Open,
    /// The index could not be archived.
    Snapshot,
    /// A hit lacks a value that its projection needs.
    NotFound,
    /// The store lives in memory only.
    NotPersisted,
    /// The query text is not a query.
    Parser(String),
    /// The search engine failed.
    Search(tantivy::TantivyError),
    /// The directory or the archive could not be read or written.
    Io(std::io::Error),
}

impl From<tantivy::TantivyError> for Error {
    fn from(e: tantivy::TantivyError) -> (error: Error) {
        Error::Search(e)
    }
}

impl vstd::std_specs::convert::FromSpecImpl<tantivy::TantivyError> for Error {
    open spec fn obeys_from_spec() -> bool {
        true
    }

    open spec fn from_spec(e: tantivy::TantivyError) -> Error {
        Error::Search(e)
    }
}

/// The fixed part of an error's message: the whole message, but for the
/// errors that come from outside, where the outside error's text follows.
pub open spec fn message_head(error: Error) -> Seq<char> {
    match error {
        Error::Open => "Error opening index"@,
        Error::Snapshot => "Error snapshotting index"@,
        Error::NotFound => "Not found"@,
        Error::NotPersisted => "Database is not persisted"@,
        Error::Parser(e) => "Failed to parse query: "@ + e@,
        Error::Search(_) => "Error in search index: "@,
        Error::Io(_) => "I/O error: "@,
    }
}

/// The text of the search engine's error, as `Debug` prints it. Nothing is
/// claimed of the text: where the engine passes on an error of the
/// operating system, it holds the system's own words for it.
#[verifier::external_body]
fn engine_error_text(e: &tantivy::TantivyError) -> String {
    format!("{:?}", e)
}

/// The text of an input or output error, as `Debug` prints it. Nothing is
/// claimed of the text: it holds the operating system's own words for the
/// error.
#[verifier::external_body]
fn io_error_text(e: &std::io::Error) -> String {
    format!("{:?}", e)
}

impl Error {
    /// The message of the error, for a reader.
    pub fn message(&self) -> (text: String)
        ensures
            message_head(*self).is_prefix_of(text@),
            !(self is Search) && !(self is Io) ==> text@ == message_head(*self),
    {
        match self {
            Error::Open => String::from_str("Error opening index"),
            Error::Snapshot => String::from_str("Error snapshotting index"),
            Error::NotFound => String::from_str("Not found"),
            Error::NotPersisted => String::from_str("Database is not persisted"),
            Error::Parser(e) => {
                let mut text = String::from_str("Failed to parse query: ");
                text.append(e.as_str());
                text
            },
            Error::Search(e) => {
                let mut text = String::from_str("Error in search index: ");
                let detail = engine_error_text(e);
                text.append(detail.as_str());
                text
            },
            Error::Io(e) => {
                let mut text = String::from_str("I/O error: ");
                let detail = io_error_text(e);
                text.append(detail.as_str());
                text
            },
        }
    }
}

} // verus!
