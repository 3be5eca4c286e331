//! What kind of content a served file is.

use crate::model::Text;
use vstd::prelude::*;
use vstd::string::StrSliceExecFns;

verus! {

/// The content type of a JPEG image.
pub open spec fn jpeg() -> Text {
    "image/jpeg"@
}

/// The content type of bytes of which nothing is known.
pub open spec fn octet_stream() -> Text {
    "application/octet-stream"@
}

/// Whether the last segment of `name` has the extension `jpg`: the name ends
/// in `.jpg`, and something other than a separator stands before the dot.
pub open spec fn has_jpg_extension(name: Text) -> bool {
    &&& name.len() > 4
    &&& name[name.len() - 5] != '/'
    &&& name[name.len() - 4] == '.'
    &&& name[name.len() - 3] == 'j'
    &&& name[name.len() - 2] == 'p'
    &&& name[name.len() - 1] == 'g'
}

/// The content type under which the file `name` is served.
pub open spec fn content_type_spec(name: Text) -> Text {
    if has_jpg_extension(name) {
        jpeg()
    } else {
        octet_stream()
    }
}

/// The content type under which the file `filename` is served: `image/jpeg`
/// for the extension `jpg`, `application/octet-stream` for every other name.
pub fn content_type(filename: &str) -> (kind: &'static str)
    ensures
        kind@ == content_type_spec(filename@),
{
    let n = filename.unicode_len();
    if n > 4 && filename.get_char(n - 5) != '/' && filename.get_char(n - 4) == '.'
        && filename.get_char(n - 3) == 'j' && filename.get_char(n - 2) == 'p' && filename.get_char(
        n - 1,
    ) == 'g' {
        "image/jpeg"
    } else {
        "application/octet-stream"
    }
}

} // verus!
