//! The error taxonomy: decode errors abort construction of the record; local
//! validation errors and transport errors are returned per operation and are
//! inspectable by the caller.

use vstd::prelude::*;

verus! {

/// Why a payload could not be decoded into a typed record.
#[derive(Debug)]
pub enum DecodeError {
    /// A required key was absent; the field names the key.
    MissingField(String),
    /// A key was present but its value had the wrong shape; the field names
    /// the key.
    WrongType(String),
    /// The payload held neither a `user` key nor a `member` key to derive the
    /// user from.
    MissingUserOrMember,
}

/// The abstract shape of a [`DecodeError`].
pub enum DecodeErrorV {
    MissingField(Seq<char>),
    WrongType(Seq<char>),
    MissingUserOrMember,
}

impl DecodeError {
    /// The abstract value that contracts speak of.
    pub open spec fn dv(&self) -> DecodeErrorV {
        match self {
            DecodeError::MissingField(k) => DecodeErrorV::MissingField(k@),
            DecodeError::WrongType(k) => DecodeErrorV::WrongType(k@),
            DecodeError::MissingUserOrMember => DecodeErrorV::MissingUserOrMember,
        }
    }
}

/// A local validation failure found before any network call is made.
#[derive(Clone, Copy, Debug, PartialEq, Eq, Structural)]
pub enum ModelError {
    /// Outbound message content exceeds the platform's length limit; carries
    /// the number of code points over the limit.
    MessageTooLong(usize),
}

/// A failure reported by the HTTP transport, surfaced verbatim.
#[derive(Debug)]
pub struct HttpError {
    /// The status code the transport reported.
    pub status: u16,
    /// The transport's own description of the failure.
    pub message: String,
}

/// The abstract shape of an [`HttpError`].
pub struct HttpErrorV {
    pub status: u16,
    pub message: Seq<char>,
}

impl HttpError {
    /// The abstract value that contracts speak of.
    pub open spec fn dv(&self) -> HttpErrorV {
        HttpErrorV { status: self.status, message: self.message@ }
    }
}

/// What a response operation can fail with: each category is distinct and
/// none ends the process — the caller decides.
#[derive(Debug)]
pub enum Error {
    /// A local validation failure, found before any network call.
    Model(ModelError),
    /// A transport failure, reported and not retried.
    Http(HttpError),
    /// The transport's response document could not be decoded.
    Json(DecodeError),
}

/// The abstract shape of an [`Error`].
pub enum ErrorV {
    Model(ModelError),
    Http(HttpErrorV),
    Json(DecodeErrorV),
}

impl Error {
    /// The abstract value that contracts speak of.
    pub open spec fn dv(&self) -> ErrorV {
        match self {
            Error::Model(e) => ErrorV::Model(*e),
            Error::Http(e) => ErrorV::Http(e.dv()),
            Error::Json(e) => ErrorV::Json(e.dv()),
        }
    }
}

} // verus!
