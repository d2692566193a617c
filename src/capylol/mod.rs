//! The image service: the request for an image and the check of its answer.
use vstd::prelude::*;

pub mod types;

use crate::error::{Error, ErrorView};
use crate::http::{is_success, lossy_text, spec_opt_text, spec_success, utf8_lossy_of};
use crate::media::{extension_for, spec_extension};

verus! {

/// The URL that serves one random image.
pub open spec fn spec_image_url() -> Seq<char> {
    "https://api.capy.lol/v1/capybara"@
}

/// The URL that serves one random image.
pub fn image_url() -> (r: String)
    ensures
        r@ == spec_image_url(),
{
    String::from_str("https://api.capy.lol/v1/capybara")
}

/// The outcome of an answer of the image service: its status must be a
/// success and its content type present and on the allow-list; the result is
/// then the type with its file extension.
pub open spec fn spec_image_check(status: u16, content_type: Option<Seq<char>>, body: Seq<u8>) -> Result<
    (Seq<char>, Seq<char>),
    ErrorView,
> {
    if !spec_success(status) {
        Err(ErrorView::Api { status, body: utf8_lossy_of(body) })
    } else {
        match content_type {
            None => Err(ErrorView::MissingContentType),
            Some(c) => match spec_extension(c) {
                Some(ext) => Ok((c, ext)),
                None => Err(ErrorView::UnsupportedMedia { content_type: c }),
            },
        }
    }
}

/// Checks an answer of the image service and returns its content type with
/// the file extension that goes with it.
pub fn check_image(status: u16, content_type: Option<String>, body: &[u8]) -> (r: Result<
    (String, String),
    Error,
>)
    ensures
        match (r, spec_image_check(status, spec_opt_text(content_type), body@)) {
            (Ok((c, ext)), Ok((c2, ext2))) => c@ == c2 && ext@ == ext2,
            (Err(e), Err(f)) => e@ == f,
            _ => false,
        },
{
    if !is_success(status) {
        return Err(Error::Api { status, body: lossy_text(body) });
    }
    match content_type {
        None => Err(Error::MissingContentType),
        Some(c) => match extension_for(c.as_str()) {
            Ok(ext) => Ok((c, ext)),
            Err(e) => Err(e),
        },
    }
}

} // verus!
