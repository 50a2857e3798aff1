//! The errors that a call can end in.

use vstd::prelude::*;
use vstd::std_specs::convert::FromSpec;
use vstd::std_specs::convert::FromSpecImpl;

verus! {

/// `rustc_serialize::json::ParserError`, the parser's diagnostic. The library
/// carries it and never looks inside.
#[verifier::external_type_specification]
#[verifier::external_body]
pub struct ExParserError(rustc_serialize::json::ParserError);

/// `hyper::error::Error`, the transport's failure. The library carries it and
/// never looks inside.
#[verifier::external_type_specification]
#[verifier::external_body]
pub struct ExHyperError(hyper::error::Error);

/// `std::io::Error`, a failure while the body was read. The library carries
/// it and never looks inside.
#[verifier::external_type_specification]
#[verifier::external_body]
pub struct ExIoError(std::io::Error);

/// `std::str::Utf8Error`, a body that is no UTF-8. The library carries it and
/// never looks inside.
#[verifier::external_type_specification]
#[verifier::external_body]
pub struct ExUtf8Error(std::str::Utf8Error);

/// Why the environment gave no credential.
#[derive(Debug, Clone, Copy, PartialEq, Eq, Structural)]
pub enum VarError {
    /// The variable is not set.
    NotPresent,
    /// The variable holds what is no Unicode text.
    NotUnicode,
}

/// A client that could not be made.
#[derive(Debug, Clone, Copy, PartialEq, Eq, Structural)]
pub enum ApiError {
    InvalidEnvironmentVar(VarError),
}

/// A call that failed.
///
/// The first five are failures that the service names, each by a code inside
/// its reply, which is not the HTTP status.
#[derive(Debug)]
pub enum RequestError {
    /// Code 401: the credential is not valid.
    KeyInvalid,
    /// Code 402: the credential is blocked.
    KeyBlocked,
    /// Code 403: the day's quota of requests is used up.
    DailyLimitExceeded,
    /// Code 413: the text is too long.
    TextTooLong,
    /// Code 501: the service does not translate between these languages.
    LangNotSupported,
    /// The reply is JSON of another shape than expected, or a text that the
    /// library does not hand to the parser.
    InvalidDataFormat,
    /// Any other code, as the service gave it.
    UnknownError(u64),
    /// The transport failed.
    HyperError(hyper::error::Error),
    /// The body could not be read.
    IOError(std::io::Error),
    /// The body is no UTF-8.
    EncodingError(std::str::Utf8Error),
    /// The body is no JSON.
    ParseError(rustc_serialize::json::ParserError),
}

/// The kinds of failed calls.
#[derive(Debug, Clone, Copy, PartialEq, Eq, Structural)]
pub enum ErrorKind {
    KeyInvalid,
    KeyBlocked,
    DailyLimitExceeded,
    TextTooLong,
    LangNotSupported,
    InvalidDataFormat,
    UnknownError(u64),
    HyperError,
    IOError,
    EncodingError,
    ParseError,
}

/// The kind of an error: the error without the cause that it carries.
pub open spec fn kind_of(error: RequestError) -> ErrorKind {
    match error {
        RequestError::KeyInvalid => ErrorKind::KeyInvalid,
        RequestError::KeyBlocked => ErrorKind::KeyBlocked,
        RequestError::DailyLimitExceeded => ErrorKind::DailyLimitExceeded,
        RequestError::TextTooLong => ErrorKind::TextTooLong,
        RequestError::LangNotSupported => ErrorKind::LangNotSupported,
        RequestError::InvalidDataFormat => ErrorKind::InvalidDataFormat,
        RequestError::UnknownError(code) => ErrorKind::UnknownError(code),
        RequestError::HyperError(_) => ErrorKind::HyperError,
        RequestError::IOError(_) => ErrorKind::IOError,
        RequestError::EncodingError(_) => ErrorKind::EncodingError,
        RequestError::ParseError(_) => ErrorKind::ParseError,
    }
}

/// The failure that a code of the service stands for.
pub open spec fn failure(code: u64) -> RequestError {
    if code == 401 {
        RequestError::KeyInvalid
    } else if code == 402 {
        RequestError::KeyBlocked
    } else if code == 403 {
        RequestError::DailyLimitExceeded
    } else if code == 413 {
        RequestError::TextTooLong
    } else if code == 501 {
        RequestError::LangNotSupported
    } else {
        RequestError::UnknownError(code)
    }
}

impl RequestError {
    /// The kind of the error.
    pub fn kind(&self) -> (kind: ErrorKind)
        ensures
            kind == kind_of(*self),
    {
        match self {
            RequestError::KeyInvalid => ErrorKind::KeyInvalid,
            RequestError::KeyBlocked => ErrorKind::KeyBlocked,
            RequestError::DailyLimitExceeded => ErrorKind::DailyLimitExceeded,
            RequestError::TextTooLong => ErrorKind::TextTooLong,
            RequestError::LangNotSupported => ErrorKind::LangNotSupported,
            RequestError::InvalidDataFormat => ErrorKind::InvalidDataFormat,
            RequestError::UnknownError(code) => ErrorKind::UnknownError(*code),
            RequestError::HyperError(_) => ErrorKind::HyperError,
            RequestError::IOError(_) => ErrorKind::IOError,
            RequestError::EncodingError(_) => ErrorKind::EncodingError,
            RequestError::ParseError(_) => ErrorKind::ParseError,
        }
    }
}

impl From<u64> for RequestError {
    /// The error for a code of the service.
    fn from(e: u64) -> (error: RequestError) {
        match e {
            401 => RequestError::KeyInvalid,
            402 => RequestError::KeyBlocked,
            403 => RequestError::DailyLimitExceeded,
            413 => RequestError::TextTooLong,
            501 => RequestError::LangNotSupported,
            xxx => RequestError::UnknownError(xxx),
        }
    }
}

impl FromSpecImpl<u64> for RequestError {
    open spec fn obeys_from_spec() -> bool {
        true
    }

    open spec fn from_spec(e: u64) -> RequestError {
        failure(e)
    }
}

impl From<hyper::error::Error> for RequestError {
    fn from(e: hyper::error::Error) -> (error: RequestError) {
        RequestError::HyperError(e)
    }
}

impl FromSpecImpl<hyper::error::Error> for RequestError {
    open spec fn obeys_from_spec() -> bool {
        true
    }

    open spec fn from_spec(e: hyper::error::Error) -> RequestError {
        RequestError::HyperError(e)
    }
}

impl From<std::io::Error> for RequestError {
    fn from(e: std::io::Error) -> (error: RequestError) {
        RequestError::IOError(e)
    }
}

impl FromSpecImpl<std::io::Error> for RequestError {
    open spec fn obeys_from_spec() -> bool {
        true
    }

    open spec fn from_spec(e: std::io::Error) -> RequestError {
        RequestError::IOError(e)
    }
}

impl From<rustc_serialize::json::ParserError> for RequestError {
    fn from(e: rustc_serialize::json::ParserError) -> (error: RequestError) {
        RequestError::ParseError(e)
    }
}

impl FromSpecImpl<rustc_serialize::json::ParserError> for RequestError {
    open spec fn obeys_from_spec() -> bool {
        true
    }

    open spec fn from_spec(e: rustc_serialize::json::ParserError) -> RequestError {
        RequestError::ParseError(e)
    }
}

impl From<std::str::Utf8Error> for RequestError {
    fn from(e: std::str::Utf8Error) -> (error: RequestError) {
        RequestError::EncodingError(e)
    }
}

impl FromSpecImpl<std::str::Utf8Error> for RequestError {
    open spec fn obeys_from_spec() -> bool {
        true
    }

    open spec fn from_spec(e: std::str::Utf8Error) -> RequestError {
        RequestError::EncodingError(e)
    }
}

/// A code that the service names stands for its own error and for no other;
/// any other code stands for the unknown error that carries it.
pub proof fn law_failure_of_code(code: u64)
    ensures
        <RequestError as FromSpec<u64>>::from_spec(code) == failure(code),
        code == 401 <==> failure(code) == RequestError::KeyInvalid,
        code == 402 <==> failure(code) == RequestError::KeyBlocked,
        code == 403 <==> failure(code) == RequestError::DailyLimitExceeded,
        code == 413 <==> failure(code) == RequestError::TextTooLong,
        code == 501 <==> failure(code) == RequestError::LangNotSupported,
        !(code == 401 || code == 402 || code == 403 || code == 413 || code == 501)
            <==> failure(code) == RequestError::UnknownError(code),
{
}

} // verus!
