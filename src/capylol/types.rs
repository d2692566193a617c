//! What the image service sends.
use vstd::prelude::*;

verus! {

/// The image service's envelope around its payloads.
pub struct BaseResponse<T> {
    pub success: bool,
    pub data: T,
}

} // verus!
