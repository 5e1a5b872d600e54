//! Media-type detection from a file path's extension.

use vstd::prelude::*;

use crate::text::str_eq;

verus! {

/// The extension of a path, found by scanning backwards from position
/// `k`: the characters after the last `.` of the final path component,
/// unless that dot begins the component; a path whose final component
/// holds no such dot has none.
pub open spec fn spec_extension_scan(s: Seq<char>, k: int) -> Option<Seq<char>>
    decreases k + 1,
{
    if k < 0 || k >= s.len() {
        None
    } else if s[k] == '/' {
        None
    } else if s[k] == '.' {
        if k == 0 || s[k - 1] == '/' {
            None
        } else {
            Some(s.subrange(k + 1, s.len() as int))
        }
    } else {
        spec_extension_scan(s, k - 1)
    }
}

/// The extension of a path.
pub open spec fn spec_extension(s: Seq<char>) -> Option<Seq<char>> {
    spec_extension_scan(s, s.len() - 1)
}

/// The media type for an extension: the known image types by name,
/// and JPEG for everything else, including no extension at all.
pub open spec fn spec_mime_for(ext: Option<Seq<char>>) -> Seq<char> {
    match ext {
        Some(e) => if e == "png"@ {
            "image/png"@
        } else if e == "jpg"@ || e == "jpeg"@ {
            "image/jpeg"@
        } else if e == "gif"@ {
            "image/gif"@
        } else if e == "webp"@ {
            "image/webp"@
        } else {
            "image/jpeg"@
        },
        None => "image/jpeg"@,
    }
}

/// Picks the media type to declare for an image file, from its path's
/// extension.
pub fn detect_mime_type(path: &str) -> (r: &'static str)
    ensures
        r@ == spec_mime_for(spec_extension(path@)),
{
    let n = path.unicode_len();
    let mut k = n;
    while k > 0
        invariant
            n == path@.len(),
            k <= n,
            spec_extension(path@) == spec_extension_scan(path@, k - 1),
        decreases k,
    {
        let c = path.get_char(k - 1);
        if c == '/' {
            return "image/jpeg";
        }
        if c == '.' {
            if k - 1 == 0 || path.get_char(k - 2) == '/' {
                return "image/jpeg";
            }
            let ext = path.substring_char(k, n);
            return mime_for_extension(ext);
        }
        k = k - 1;
    }
    "image/jpeg"
}

fn mime_for_extension(ext: &str) -> (r: &'static str)
    ensures
        r@ == spec_mime_for(Some(ext@)),
{
    if str_eq(ext, "png") {
        "image/png"
    } else if str_eq(ext, "jpg") || str_eq(ext, "jpeg") {
        "image/jpeg"
    } else if str_eq(ext, "gif") {
        "image/gif"
    } else if str_eq(ext, "webp") {
        "image/webp"
    } else {
        "image/jpeg"
    }
}

} // verus!
