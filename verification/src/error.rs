//! The ways in which a span of bytes can fail to be a record.

use vstd::prelude::*;

verus! {

/// Why a span of bytes was rejected.
#[derive(Debug)]
pub enum Error {
    /// The span is shorter than the record asked for.
    NotEnoughData,
    /// The span carries the record type of another record.
    BadRecordType,
    /// The checksum does not match the bytes it stands behind.
    BadCrc,
    /// A field holds bytes that its encoding does not allow.
    InvalidData { msg: String },
}

/// An error as a mathematical value: the message is a sequence of
/// characters.
pub enum ErrorView {
    NotEnoughData,
    BadRecordType,
    BadCrc,
    InvalidData { msg: Seq<char> },
}

impl View for Error {
    type V = ErrorView;

    open spec fn view(&self) -> ErrorView {
        match self {
            Error::NotEnoughData => ErrorView::NotEnoughData,
            Error::BadRecordType => ErrorView::BadRecordType,
            Error::BadCrc => ErrorView::BadCrc,
            Error::InvalidData { msg } => ErrorView::InvalidData { msg: msg@ },
        }
    }
}

impl ErrorView {
    /// The text that describes the error.
    pub open spec fn message(self) -> Seq<char> {
        match self {
            ErrorView::NotEnoughData => "Not enough data"@,
            ErrorView::BadRecordType => "Bad record type"@,
            ErrorView::BadCrc => "Bad CRC checksum"@,
            ErrorView::InvalidData { msg } => "Invalid data: "@ + msg,
        }
    }
}

impl Error {
    /// Describes the error in words.
    pub fn message(&self) -> (text: String)
        ensures
            text@ == self@.message(),
    {
        match self {
            Error::NotEnoughData => "Not enough data".to_owned(),
            Error::BadRecordType => "Bad record type".to_owned(),
            Error::BadCrc => "Bad CRC checksum".to_owned(),
            Error::InvalidData { msg } => {
                let mut text = "Invalid data: ".to_owned();
                text.append(msg.as_str());
                text
            },
        }
    }
}

} // verus!
