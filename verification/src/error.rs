use vstd::prelude::*;

use crate::trusted::{io_error_text, zip_error_text};

verus! {

/// Why a payload could not be encoded or a pack could not be assembled.
///
/// Every failure is final: nothing is retried, and no archive is handed out
/// once one of these has been raised.
#[derive(Debug, PartialEq, Eq)]
pub enum BuildError {
    /// An encoder could not make the payload that was meant for the entry at
    /// `path`.
    Encoding { path: String, cause: String },
    /// The archive container did not take the entry at `path`; an empty
    /// `path` stands for the closing of the archive.
    SinkWrite { path: String, cause: String },
    /// The pack format is not a positive number.
    Configuration { pack_format: usize },
    /// The entry at `path` cannot be archived: a zip container records the
    /// length of a path in two bytes, and this one is longer than 65,535
    /// bytes.
    PathTooLong { path: String },
}

impl BuildError {
    /// The path of the entry that the error is about; empty where the error
    /// is about the pack as a whole.
    pub open spec fn subject(self) -> Seq<char> {
        match self {
            BuildError::Encoding { path, .. } => path@,
            BuildError::SinkWrite { path, .. } => path@,
            BuildError::Configuration { .. } => Seq::empty(),
            BuildError::PathTooLong { path } => path@,
        }
    }

    /// The archive container has refused the entry at `path`, or, with an
    /// empty `path`, to be closed; `cause` says why.
    pub fn sink_refused(path: &str, cause: &zip::result::ZipError) -> (r: Self)
        ensures
            r is SinkWrite,
            r.subject() == path@,
    {
        BuildError::SinkWrite { path: path.to_string(), cause: zip_error_text(cause) }
    }

    /// The archive container could not take the bytes of the entry at `path`;
    /// `cause` says why.
    pub fn sink_failed(path: &str, cause: &std::io::Error) -> (r: Self)
        ensures
            r is SinkWrite,
            r.subject() == path@,
    {
        BuildError::SinkWrite { path: path.to_string(), cause: io_error_text(cause) }
    }

    /// An encoder could not make the payload of the entry at `path`; `cause`
    /// says why.
    pub fn encoder_failed(path: &str, cause: &std::io::Error) -> (r: Self)
        ensures
            r is Encoding,
            r.subject() == path@,
    {
        BuildError::Encoding { path: path.to_string(), cause: io_error_text(cause) }
    }
}

} // verus!
