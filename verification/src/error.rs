use vstd::prelude::*;

verus! {

/// The error taxonomy of the query engine. Every operation is fail-fast:
/// the first error aborts the whole operation and is handed to the caller,
/// which alone is responsible for rendering it.
#[derive(Debug)]
pub enum SakeError {
    /// Underlying storage was unreadable (missing directory or file,
    /// permission denied). Raised by the I/O layer around the engine.
    IOError { detail: String },
    /// A record file's content is not well-formed JSON or does not conform
    /// to the experiment schema. Carries the source path and a diagnostic.
    SchemaError { path: String, detail: String },
    /// A raw filter token lacks the `field=value` separator.
    MalformedFilter { token: String },
    /// The configured repository location is not a `file://` location.
    InvalidRepositoryLocation { location: String },
}

impl SakeError {
    /// The rendered text of the error.
    pub open spec fn spec_message(self) -> Seq<char> {
        match self {
            SakeError::IOError { detail } => "io error: "@ + detail@,
            SakeError::SchemaError { path, detail } => "schema error: "@ + path@ + ": "@
                + detail@,
            SakeError::MalformedFilter { token } => "invalid filter: "@ + token@,
            SakeError::InvalidRepositoryLocation { location } => "invalid repository location: "@
                + location@ + ", only file is supported"@,
        }
    }

    /// Renders the error for presentation; the engine itself never prints.
    pub fn message(&self) -> (r: String)
        ensures
            r@ == self.spec_message(),
    {
        match self {
            SakeError::IOError { detail } => String::from_str("io error: ").concat(
                detail.as_str(),
            ),
            SakeError::SchemaError { path, detail } => String::from_str("schema error: ").concat(
                path.as_str(),
            ).concat(": ").concat(detail.as_str()),
            SakeError::MalformedFilter { token } => String::from_str("invalid filter: ").concat(
                token.as_str(),
            ),
            SakeError::InvalidRepositoryLocation { location } => String::from_str(
                "invalid repository location: ",
            ).concat(location.as_str()).concat(", only file is supported"),
        }
    }
}

} // verus!
