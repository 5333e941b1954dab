//! A fast fingerprint for large files: a 64-bit digest of the byte length and
//! of the first and last 64 KiB, written as sixteen lowercase hex digits.
//!
//! The digest arithmetic lives in [`digest`]. Reading the two windows from a
//! seekable stream is planned by [`session`], which tells its driver which
//! stream operation to perform next and receives the outcome of each.
//! [`model`] states what such an exchange comes to on a stream that answers
//! truthfully: the digest of the length and the two windows, with the stream
//! back at the offset it started from.

pub mod digest;
pub mod error;
pub mod session;
pub mod model;

pub use crate::error::HashError;
pub use crate::session::{begin, Reply, Request, Session, Step};
