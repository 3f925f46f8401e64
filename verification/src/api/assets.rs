//! Content types of the embedded static assets.
use crate::text::str_is;
use crate::text::{chars_of, string_of_range};
use vstd::prelude::*;

verus! {

/// Whether `i` is the last position of `c` in `s`.
pub open spec fn is_last_index(s: Seq<char>, c: char, i: int) -> bool {
    0 <= i < s.len() && s[i] == c && forall|j: int| i < j < s.len() ==> s[j] != c
}

/// The extension of a path: what follows its last `.` (as `rsplit_once('.')` gives it).
pub open spec fn extension_of(path: Seq<char>) -> Option<Seq<char>> {
    if exists|i: int| 0 <= i < path.len() && path[i] == '.' {
        Some(path.skip((choose|i: int| is_last_index(path, '.', i)) + 1))
    } else {
        None
    }
}

/// The content type for an extension.
pub open spec fn mime_of(ext: Option<Seq<char>>) -> Seq<char> {
    match ext {
        Some(e) => if e == "css"@ {
            "text/css"@
        } else if e == "js"@ {
            "application/javascript"@
        } else if e == "html"@ {
            "text/html"@
        } else if e == "svg"@ {
            "image/svg+xml"@
        } else if e == "png"@ {
            "image/png"@
        } else if e == "jpg"@ || e == "jpeg"@ {
            "image/jpeg"@
        } else if e == "ico"@ {
            "image/x-icon"@
        } else if e == "woff2"@ {
            "font/woff2"@
        } else if e == "woff"@ {
            "font/woff"@
        } else if e == "ttf"@ {
            "font/ttf"@
        } else if e == "json"@ {
            "application/json"@
        } else {
            "application/octet-stream"@
        },
        None => "application/octet-stream"@,
    }
}

fn extension(path: &str) -> (r: Option<String>)
    ensures
        match r {
            Some(e) => extension_of(path@) == Some(e@),
            None => extension_of(path@) is None,
        },
{
    let v = chars_of(path);
    let mut i = v.len();
    while i > 0
        invariant
            i <= v@.len(),
            v@ == path@,
            forall|j: int| i <= j < v@.len() ==> v@[j] != '.',
        decreases i,
    {
        if v[i - 1] == '.' {
            proof {
                let k = choose|k: int| is_last_index(v@, '.', k);
                assert(is_last_index(v@, '.', i - 1));
                if k < i - 1 {
                    assert(v@[i - 1] != '.');
                } else if k > i - 1 {
                    assert(v@[k] != '.');
                }
                assert(v@.skip(i as int) == v@.subrange(i as int, v@.len() as int));
            }
            return Some(string_of_range(&v, i, v.len()));
        }
        i = i - 1;
    }
    None
}

/// The content type served for an embedded asset at `path`, by its extension.
pub fn mime_for_path(path: &str) -> (r: &'static str)
    ensures
        r@ == mime_of(extension_of(path@)),
{
    match extension(path) {
        Some(e) => {
            let e = e.as_str();
            if str_is(e, "css") {
                "text/css"
            } else if str_is(e, "js") {
                "application/javascript"
            } else if str_is(e, "html") {
                "text/html"
            } else if str_is(e, "svg") {
                "image/svg+xml"
            } else if str_is(e, "png") {
                "image/png"
            } else if str_is(e, "jpg") || str_is(e, "jpeg") {
                "image/jpeg"
            } else if str_is(e, "ico") {
                "image/x-icon"
            } else if str_is(e, "woff2") {
                "font/woff2"
            } else if str_is(e, "woff") {
                "font/woff"
            } else if str_is(e, "ttf") {
                "font/ttf"
            } else if str_is(e, "json") {
                "application/json"
            } else {
                "application/octet-stream"
            }
        },
        None => "application/octet-stream",
    }
}

} // verus!
