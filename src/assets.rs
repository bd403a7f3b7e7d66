use vstd::prelude::*;
use vstd::string::StrSliceExecFns;

verus! {

/// The MIME type served for a file with this extension: `None` when the path
/// has no extension.
pub open spec fn mime_of(extension: Option<Seq<char>>) -> Seq<char> {
    match extension {
        None => "text/html"@,
        Some(e) => if e == "css"@ {
            "text/css"@
        } else if e == "js"@ {
            "application/javascript"@
        } else if e == "png"@ {
            "image/png"@
        } else {
            "text/plain"@
        },
    }
}

/// Whether two texts hold the same characters.
fn same_text(a: &str, b: &str) -> (r: bool)
    ensures
        r == (a@ == b@),
{
    let n = a.unicode_len();
    if n != b.unicode_len() {
        return false;
    }
    let mut i: usize = 0;
    while i < n
        invariant
            n == a@.len(),
            n == b@.len(),
            i <= n,
            forall|k: int| 0 <= k < i ==> a@[k] == b@[k],
        decreases n - i,
    {
        if a.get_char(i) != b.get_char(i) {
            return false;
        }
        i = i + 1;
    }
    assert(a@ =~= b@);
    true
}

/// The `Content-Type` of an embedded file, from the extension of the path
/// that was asked for.
pub fn content_type_for(extension: Option<&str>) -> (r: &'static str)
    ensures
        r@ == mime_of(
            match extension {
                Some(e) => Some(e@),
                None => None,
            },
        ),
{
    match extension {
        None => "text/html",
        Some(e) => if same_text(e, "css") {
            "text/css"
        } else if same_text(e, "js") {
            "application/javascript"
        } else if same_text(e, "png") {
            "image/png"
        } else {
            "text/plain"
        },
    }
}

/// The file to serve for a path: the one found under it, else the index page,
/// so that any other path reaches the single-page app.
pub fn asset_or_index<T>(found: Option<T>, index: T) -> (r: T)
    ensures
        r == match found {
            Some(f) => f,
            None => index,
        },
{
    match found {
        Some(f) => f,
        None => index,
    }
}

} // verus!
