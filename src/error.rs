//! Errors of the posting pipeline.
use vstd::prelude::*;

use crate::http::{decimal, spec_decimal};

verus! {

/// Every way a posting cycle can fail. Each one ends the process.
#[derive(Debug)]
pub enum Error {
    /// A required credential is missing from the environment.
    Config { name: String },
    /// The network call itself failed.
    Transport { message: String },
    /// A service answered with a status outside the success range.
    Api { status: u16, body: String },
    /// A successful response body did not hold the expected JSON.
    Decode { raw_body: String },
    /// The image service sent an image of a type that cannot be posted.
    UnsupportedMedia { content_type: String },
    /// The image service sent no content type.
    MissingContentType,
    /// The media APPEND call answered with a status outside the success range.
    UploadPhase { status: u16 },
}

/// What an error holds, with its texts as character sequences.
pub enum ErrorView {
    Config { name: Seq<char> },
    Transport { message: Seq<char> },
    Api { status: u16, body: Seq<char> },
    Decode { raw_body: Seq<char> },
    UnsupportedMedia { content_type: Seq<char> },
    MissingContentType,
    UploadPhase { status: u16 },
}

impl View for Error {
    type V = ErrorView;

    open spec fn view(&self) -> ErrorView {
        match self {
            Error::Config { name } => ErrorView::Config { name: name@ },
            Error::Transport { message } => ErrorView::Transport { message: message@ },
            Error::Api { status, body } => ErrorView::Api { status: *status, body: body@ },
            Error::Decode { raw_body } => ErrorView::Decode { raw_body: raw_body@ },
            Error::UnsupportedMedia { content_type } => ErrorView::UnsupportedMedia {
                content_type: content_type@,
            },
            Error::MissingContentType => ErrorView::MissingContentType,
            Error::UploadPhase { status } => ErrorView::UploadPhase { status: *status },
        }
    }
}

impl Error {
    /// A one-line description of the error.
    pub fn message(&self) -> (r: String)
        ensures
            r@ == match self {
                Error::Config { name } => "missing configuration: "@ + name@,
                Error::Transport { message } => "transport error: "@ + message@,
                Error::Api { status, body } => "API error: "@ + spec_decimal(*status as nat) + " "@
                    + body@,
                Error::Decode { raw_body } => "failed to parse response: "@ + raw_body@,
                Error::UnsupportedMedia { content_type } => "unsupported media type: "@ + content_type@,
                Error::MissingContentType => "missing content-type header"@,
                Error::UploadPhase { status } => "media upload failed with status "@ + spec_decimal(
                    *status as nat,
                ),
            },
    {
        match self {
            Error::Config { name } => String::from_str("missing configuration: ").concat(name.as_str()),
            Error::Transport { message } => String::from_str("transport error: ").concat(message.as_str()),
            Error::Api { status, body } => String::from_str("API error: ").concat(
                decimal(*status as u64).as_str(),
            ).concat(" ").concat(body.as_str()),
            Error::Decode { raw_body } => String::from_str("failed to parse response: ").concat(raw_body.as_str()),
            Error::UnsupportedMedia { content_type } => String::from_str("unsupported media type: ").concat(content_type.as_str()),
            Error::MissingContentType => String::from_str("missing content-type header"),
            Error::UploadPhase { status } => String::from_str("media upload failed with status ").concat(
                decimal(*status as u64).as_str(),
            ),
        }
    }
}

} // verus!
