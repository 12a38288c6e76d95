//! The failures that the storage core reports. No function retries: whether and
//! when to try again is the caller's decision.

use vstd::prelude::*;
use crate::hash::HeaderHash;
use crate::header::Header;
use crate::header::HeaderView;

verus! {

/// The broad classes of failure.
#[derive(Debug, Clone, Copy, PartialEq, Eq, Structural, Hash)]
pub enum ErrorKind {
    /// A header and the entry supplied with it do not fit together.
    MalformedInput,
    /// A lookup during basis resolution found nothing.
    NotFound,
    /// The transaction or the storage failed; the enclosing transaction must be rolled back.
    Database,
    /// Canonical encoding or decoding failed.
    Serialization,
    /// A resource could not be had in time; the caller may try again.
    Concurrency,
}

/// A failure while deriving operations or resolving where they are stored.
#[derive(Debug, PartialEq, Eq)]
pub enum DhtOpError {
    /// The header declares an entry, but no entry came with it.
    HeaderWithoutEntry(Header),
    /// The original that an operation refers to could not be found.
    MissingOriginal(HeaderHash),
    /// The lookup of the original did not end within the time allowed.
    LookupTimeout(HeaderHash),
}

pub ghost enum DhtOpErrorView {
    HeaderWithoutEntry(HeaderView),
    MissingOriginal(Seq<u8>),
    LookupTimeout(Seq<u8>),
}

impl View for DhtOpError {
    type V = DhtOpErrorView;

    open spec fn view(&self) -> DhtOpErrorView {
        match *self {
            DhtOpError::HeaderWithoutEntry(header) => DhtOpErrorView::HeaderWithoutEntry(header@),
            DhtOpError::MissingOriginal(hash) => DhtOpErrorView::MissingOriginal(hash@),
            DhtOpError::LookupTimeout(hash) => DhtOpErrorView::LookupTimeout(hash@),
        }
    }
}

impl DhtOpErrorView {
    pub open spec fn kind(self) -> ErrorKind {
        match self {
            DhtOpErrorView::HeaderWithoutEntry(_) => ErrorKind::MalformedInput,
            DhtOpErrorView::MissingOriginal(_) => ErrorKind::NotFound,
            DhtOpErrorView::LookupTimeout(_) => ErrorKind::Concurrency,
        }
    }
}

impl DhtOpError {
    /// The class of the failure.
    pub fn kind(&self) -> (kind: ErrorKind)
        ensures
            kind == self@.kind(),
    {
        match self {
            DhtOpError::HeaderWithoutEntry(_) => ErrorKind::MalformedInput,
            DhtOpError::MissingOriginal(_) => ErrorKind::NotFound,
            DhtOpError::LookupTimeout(_) => ErrorKind::Concurrency,
        }
    }
}

} // verus!
