//! What can go wrong while a frame is read or a handshake is driven.

use vstd::prelude::*;
use vstd::string::StringExecFns;

verus! {

/// Why a byte string was not accepted as a frame.
#[derive(Clone, Copy, Debug, PartialEq, Eq, Structural)]
pub enum DecodeError {
    /// The bytes end before the header or the announced payload is complete.
    UnexpectedEof,
    /// The header announces a payload that exceeds the frame size limit.
    OversizedFrame,
    /// The command field holds a byte outside ASCII.
    NonAsciiCommand,
    /// The checksum in the header is not that of the payload.
    InvalidChecksum,
    /// A length prefix was not written in its shortest form.
    NonMinimalVarInt,
    /// A text field is not valid UTF-8.
    InvalidUtf8,
    /// The payload goes on after the last field of its message.
    TrailingBytes,
}

impl DecodeError {
    /// The text that describes this error.
    pub open spec fn text(self) -> Seq<char> {
        match self {
            DecodeError::UnexpectedEof => "unexpected end of data"@,
            DecodeError::OversizedFrame => "frame exceeds the size limit"@,
            DecodeError::NonAsciiCommand => "command string must be ASCII"@,
            DecodeError::InvalidChecksum => "invalid checksum"@,
            DecodeError::NonMinimalVarInt => "non-minimal varint"@,
            DecodeError::InvalidUtf8 => "string was not valid UTF-8"@,
            DecodeError::TrailingBytes => "extra bytes after network message payload"@,
        }
    }

    pub fn to_string(&self) -> (text: String)
        ensures
            text@ == self.text(),
    {
        match self {
            DecodeError::UnexpectedEof => String::from_str("unexpected end of data"),
            DecodeError::OversizedFrame => String::from_str("frame exceeds the size limit"),
            DecodeError::NonAsciiCommand => String::from_str("command string must be ASCII"),
            DecodeError::InvalidChecksum => String::from_str("invalid checksum"),
            DecodeError::NonMinimalVarInt => String::from_str("non-minimal varint"),
            DecodeError::InvalidUtf8 => String::from_str("string was not valid UTF-8"),
            DecodeError::TrailingBytes => String::from_str(
                "extra bytes after network message payload",
            ),
        }
    }
}

/// Why a handshake attempt failed, as the caller gets it.
#[derive(Debug)]
pub enum Error {
    /// The transport failed; the text is the transport's own.
    IoError(String),
    /// The peer's bytes did not decode.
    Encode(DecodeError),
    /// Any other failure, with its description.
    CustomError(String),
}

/// An [`Error`] with its texts as character sequences.
pub enum ErrorView {
    IoError(Seq<char>),
    Encode(DecodeError),
    CustomError(Seq<char>),
}

impl ErrorView {
    /// The text that describes this error.
    pub open spec fn text(self) -> Seq<char> {
        match self {
            ErrorView::IoError(detail) => "IO ERROR: "@ + detail,
            ErrorView::Encode(cause) => "BITCOIN ENCODING ERROR: "@ + cause.text(),
            ErrorView::CustomError(detail) => "ERROR: "@ + detail,
        }
    }

    /// The reason that a handshake record gives when it failed with this
    /// error.
    pub open spec fn reason(self) -> Seq<char> {
        match self {
            ErrorView::IoError(detail) => "io error: "@ + detail,
            ErrorView::Encode(cause) => "encoding error: "@ + cause.text(),
            ErrorView::CustomError(detail) => detail,
        }
    }
}

impl View for Error {
    type V = ErrorView;

    open spec fn view(&self) -> ErrorView {
        match self {
            Error::IoError(detail) => ErrorView::IoError(detail@),
            Error::Encode(cause) => ErrorView::Encode(*cause),
            Error::CustomError(detail) => ErrorView::CustomError(detail@),
        }
    }
}

impl Error {
    pub fn to_string(&self) -> (text: String)
        ensures
            text@ == self@.text(),
    {
        match self {
            Error::IoError(detail) => String::from_str("IO ERROR: ").concat(detail.as_str()),
            Error::Encode(cause) => {
                let cause_text = cause.to_string();
                String::from_str("BITCOIN ENCODING ERROR: ").concat(cause_text.as_str())
            },
            Error::CustomError(detail) => String::from_str("ERROR: ").concat(detail.as_str()),
        }
    }

    /// The reason that a handshake record gives when it failed with this
    /// error.
    pub fn reason(&self) -> (text: String)
        ensures
            text@ == self@.reason(),
    {
        match self {
            Error::IoError(detail) => String::from_str("io error: ").concat(detail.as_str()),
            Error::Encode(cause) => {
                let cause_text = cause.to_string();
                String::from_str("encoding error: ").concat(cause_text.as_str())
            },
            Error::CustomError(detail) => detail.clone(),
        }
    }
}

pub type Result<T> = std::result::Result<T, Error>;

} // verus!
