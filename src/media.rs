//! The image types that can be posted, and their file extensions.
use vstd::prelude::*;

use crate::error::Error;

verus! {

/// The file extension of an image type of the allow-list, `None` for any
/// other type.
pub open spec fn spec_extension(content_type: Seq<char>) -> Option<Seq<char>> {
    if content_type == "image/jpeg"@ {
        Some("jpg"@)
    } else if content_type == "image/png"@ {
        Some("png"@)
    } else {
        None
    }
}

/// Whether an image of this type can be posted.
pub open spec fn spec_allowed(content_type: Seq<char>) -> bool {
    content_type == "image/jpeg"@ || content_type == "image/png"@
}

/// The file extension for an image type, or `UnsupportedMedia` naming the type
/// when it is not on the allow-list.
pub fn extension_for(content_type: &str) -> (r: Result<String, Error>)
    ensures
        match r {
            Ok(ext) => spec_extension(content_type@) == Some(ext@),
            Err(Error::UnsupportedMedia { content_type: c }) => c@ == content_type@
                && spec_extension(content_type@) is None,
            Err(_) => false,
        },
{
    let ct = String::from_str(content_type);
    if ct == String::from_str("image/jpeg") {
        Ok(String::from_str("jpg"))
    } else if ct == String::from_str("image/png") {
        Ok(String::from_str("png"))
    } else {
        Err(Error::UnsupportedMedia { content_type: ct })
    }
}

/// The name under which an image is uploaded: `capybara.` and its extension.
pub fn file_name(ext: &str) -> (r: String)
    ensures
        r@ == "capybara."@ + ext@,
{
    String::from_str("capybara.").concat(ext)
}

/// The extension mapping is defined on exactly the allow-list, gives each
/// allowed type its own extension, and gives none to any other type.
pub proof fn lemma_extension_total_on_allow_list(content_type: Seq<char>)
    ensures
        spec_allowed(content_type) <==> spec_extension(content_type) is Some,
        content_type == "image/jpeg"@ ==> spec_extension(content_type) == Some("jpg"@),
        content_type == "image/png"@ ==> spec_extension(content_type) == Some("png"@),
        "jpg"@ != "png"@,
{
    reveal_strlit("jpg");
    reveal_strlit("png");
    reveal_strlit("image/jpeg");
    reveal_strlit("image/png");
    assert("jpg"@[0] != "png"@[0]);
    assert("image/jpeg"@[6] != "image/png"@[6]);
}

} // verus!
