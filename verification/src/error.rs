//! The library's error type.

use vstd::prelude::*;

verus! {

/// `serde_json::Error`, carried through without a look inside.
#[verifier::external_type_specification]
#[verifier::external_body]
pub struct ExJsonError(serde_json::Error);

/// `std::io::Error`, carried through without a look inside.
#[verifier::external_type_specification]
#[verifier::external_body]
pub struct ExIoError(std::io::Error);

/// What can go wrong in the library.
#[derive(Debug)]
pub enum OrionError {
    /// The node store failed or was not ready.
    Database(String),
    /// The vector store failed.
    VectorStore(String),
    /// No generation backend is eligible under the current routing state.
    BackendUnavailable(String),
    /// A reachable generation backend answered with an error or with a
    /// reply that could not be used.
    BackendFailure(String),
    /// A search failed.
    Search(String),
    /// A value could not be encoded or decoded.
    Serialization(String),
    /// An input or output operation failed.
    Io(String),
    /// The storage engine reported an error.
    SurrealDb(String),
    /// A node or its metadata was malformed.
    InvalidInput(String),
    /// An identifier is not known.
    NotFound(String),
    /// Any other failure.
    Unknown(String),
}

impl OrionError {
    /// The fixed words that stand before an error's detail.
    pub open spec fn prefix(&self) -> Seq<char> {
        match self {
            OrionError::Database(_) => "Database error: "@,
            OrionError::VectorStore(_) => "Vector store error: "@,
            OrionError::BackendUnavailable(_) => "LLM error: "@,
            OrionError::BackendFailure(_) => "LLM error: "@,
            OrionError::Search(_) => "Search error: "@,
            OrionError::Serialization(_) => "Serialization error: "@,
            OrionError::Io(_) => "IO error: "@,
            OrionError::SurrealDb(_) => "SurrealDB error: "@,
            OrionError::InvalidInput(_) => "Invalid input: "@,
            OrionError::NotFound(_) => "Not found: "@,
            OrionError::Unknown(_) => "Unknown error: "@,
        }
    }

    /// The detail that the error carries.
    pub open spec fn detail(&self) -> Seq<char> {
        match self {
            OrionError::Database(m) => m@,
            OrionError::VectorStore(m) => m@,
            OrionError::BackendUnavailable(m) => m@,
            OrionError::BackendFailure(m) => m@,
            OrionError::Search(m) => m@,
            OrionError::Serialization(m) => m@,
            OrionError::Io(m) => m@,
            OrionError::SurrealDb(m) => m@,
            OrionError::InvalidInput(m) => m@,
            OrionError::NotFound(m) => m@,
            OrionError::Unknown(m) => m@,
        }
    }

    /// The full message: prefix, then detail.
    pub open spec fn message(&self) -> Seq<char> {
        self.prefix() + self.detail()
    }

    /// The message as a string.
    pub fn to_string(&self) -> (r: String)
        ensures
            r@ == self.message(),
    {
        let (head, tail) = match self {
            OrionError::Database(m) => ("Database error: ", m),
            OrionError::VectorStore(m) => ("Vector store error: ", m),
            OrionError::BackendUnavailable(m) => ("LLM error: ", m),
            OrionError::BackendFailure(m) => ("LLM error: ", m),
            OrionError::Search(m) => ("Search error: ", m),
            OrionError::Serialization(m) => ("Serialization error: ", m),
            OrionError::Io(m) => ("IO error: ", m),
            OrionError::SurrealDb(m) => ("SurrealDB error: ", m),
            OrionError::InvalidInput(m) => ("Invalid input: ", m),
            OrionError::NotFound(m) => ("Not found: ", m),
            OrionError::Unknown(m) => ("Unknown error: ", m),
        };
        let mut out = String::from_str(head);
        out.append(tail.as_str());
        out
    }
}

impl From<serde_json::Error> for OrionError {
    /// A serialization error whose detail is the outside error's text.
    fn from(err: serde_json::Error) -> (r: Self)
        ensures
            r matches OrionError::Serialization(m)
                && vstd::string::to_string_from_display_ensures::<serde_json::Error>(&err, m),
    {
        OrionError::Serialization(err.to_string())
    }
}

/// The detail is the text that the outside error prints, which no formula
/// gives: the conversion has no spec function, and `from` states its
/// result itself.
impl vstd::std_specs::convert::FromSpecImpl<serde_json::Error> for OrionError {
    open spec fn obeys_from_spec() -> bool {
        false
    }

    open spec fn from_spec(err: serde_json::Error) -> OrionError {
        arbitrary()
    }
}

impl From<std::io::Error> for OrionError {
    /// An input/output error whose detail is the outside error's text.
    fn from(err: std::io::Error) -> (r: Self)
        ensures
            r matches OrionError::Io(m)
                && vstd::string::to_string_from_display_ensures::<std::io::Error>(&err, m),
    {
        OrionError::Io(err.to_string())
    }
}

/// The detail is the text that the outside error prints, which no formula
/// gives: the conversion has no spec function, and `from` states its
/// result itself.
impl vstd::std_specs::convert::FromSpecImpl<std::io::Error> for OrionError {
    open spec fn obeys_from_spec() -> bool {
        false
    }

    open spec fn from_spec(err: std::io::Error) -> OrionError {
        arbitrary()
    }
}

} // verus!
