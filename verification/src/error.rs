//! The two ways a fingerprint can fail.

use vstd::prelude::*;
use vstd::std_specs::convert::FromSpecImpl;

verus! {

/// `std::io::Error`, carried through as an opaque value.
#[verifier::external_type_specification]
#[verifier::external_body]
pub struct ExIoError(std::io::Error);

/// Why no digest was produced.
#[derive(Debug)]
pub enum HashError {
    /// The declared length is below 128 KiB.
    FileTooSmall,
    /// Opening, measuring, seeking or reading the resource failed; the
    /// underlying failure is kept as it was reported.
    IoError(std::io::Error),
}

impl From<std::io::Error> for HashError {
    fn from(err: std::io::Error) -> (error: Self) {
        HashError::IoError(err)
    }
}

impl FromSpecImpl<std::io::Error> for HashError {
    open spec fn obeys_from_spec() -> bool {
        true
    }

    open spec fn from_spec(err: std::io::Error) -> Self {
        HashError::IoError(err)
    }
}

/// The message for a length below the minimum.
pub open spec fn too_small_text() -> Seq<char> {
    "File size too small"@
}

/// `Display` of `std::io::Error`: the description of the failure. The text
/// comes from the platform, so nothing is claimed of it.
#[verifier::external_body]
fn io_error_text(err: &std::io::Error) -> (text: String) {
    format!("{err}")
}

impl HashError {
    /// The message of this error: a fixed sentence for a short file, the
    /// underlying description for an I/O failure.
    pub fn to_string(&self) -> (text: String)
        ensures
            self is FileTooSmall ==> text@ == too_small_text(),
    {
        match self {
            HashError::FileTooSmall => String::from_str("File size too small"),
            HashError::IoError(err) => io_error_text(err),
        }
    }
}

} // verus!
