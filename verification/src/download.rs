//! The player's downloader decisions: mapping a response content type to a
//! file extension and naming the temporary file. The fetch itself and the
//! writes under the temporary directory are the edge's part.

use vstd::prelude::*;
use crate::strutil::str_eq;

verus! {

/// The extension of a supported image content type.
pub open spec fn spec_ext_of(ct: Seq<char>) -> Option<Seq<char>> {
    if ct == "image/jpeg"@ {
        Some("jpg"@)
    } else if ct == "image/png"@ {
        Some("png"@)
    } else if ct == "image/webp"@ {
        Some("webp"@)
    } else if ct == "image/gif"@ {
        Some("gif"@)
    } else if ct == "image/bmp"@ {
        Some("bmp"@)
    } else if ct == "image/tiff"@ {
        Some("tiff"@)
    } else {
        None
    }
}

/// Maps a `Content-Type` to the file extension the payload is stored
/// under; an unknown type maps to nothing and fails the download.
pub fn ext_from_content_type(content_type: &str) -> (r: Option<&'static str>)
    ensures
        match r {
            Some(e) => spec_ext_of(content_type@) == Some(e@),
            None => spec_ext_of(content_type@) is None,
        },
{
    proof {
        reveal_strlit("image/jpeg");
        reveal_strlit("image/png");
        reveal_strlit("image/webp");
        reveal_strlit("image/gif");
        reveal_strlit("image/bmp");
        reveal_strlit("image/tiff");
        reveal_strlit("jpg");
        reveal_strlit("png");
        reveal_strlit("webp");
        reveal_strlit("gif");
        reveal_strlit("bmp");
        reveal_strlit("tiff");
    }
    if str_eq(content_type, "image/jpeg") {
        Some("jpg")
    } else if str_eq(content_type, "image/png") {
        Some("png")
    } else if str_eq(content_type, "image/webp") {
        Some("webp")
    } else if str_eq(content_type, "image/gif") {
        Some("gif")
    } else if str_eq(content_type, "image/bmp") {
        Some("bmp")
    } else if str_eq(content_type, "image/tiff") {
        Some("tiff")
    } else {
        None
    }
}

/// The directory downloaded payloads are stored under.
pub fn tmp_file_dir() -> (r: &'static str)
    ensures
        r@ == "/tmp/cover_screen_download"@,
{
    "/tmp/cover_screen_download"
}

/// Relies on uuid's `Uuid::new_v4`, rendered hyphenated: 36 characters of
/// lowercase hex and hyphens. Nothing else can be said of a random id.
#[verifier::external_body]
fn new_uuid_string() -> (r: String)
    ensures
        r@.len() == 36,
        forall|i: int|
            0 <= i < r@.len() ==> (#[trigger] r@[i]) == '-' || ('0' <= r@[i] <= '9') || ('a'
                <= r@[i] <= 'f'),
{
    uuid::Uuid::new_v4().to_string()
}

/// The error reported for a response outside the 2xx range, worded around
/// the status text the client rendered.
pub fn download_failed_text(status_text: &str) -> (r: String)
    ensures
        r@ == "Download failed: HTTP "@ + status_text@,
{
    let mut r = String::new();
    r.append("Download failed: HTTP ");
    r.append(status_text);
    proof {
        assert(r@ =~= "Download failed: HTTP "@ + status_text@);
    }
    r
}

/// The downloader: names the file a payload lands in, by content type.
pub struct Downloader {}

impl Downloader {
    /// Plans where a successful response's payload goes: a fresh
    /// `<uuid>.<ext>` under the temporary directory when the content type
    /// is a supported image type, else the unknown-content-type error. The
    /// caller creates the directory and writes the payload only on `Ok`.
    pub fn plan_target(content_type: &str) -> (r: Result<String, String>)
        ensures
            match r {
                Ok(p) => spec_ext_of(content_type@) is Some && exists|u: Seq<char>|
                    u.len() == 36 && (forall|i: int|
                        0 <= i < u.len() ==> (#[trigger] u[i]) == '-' || ('0' <= u[i] <= '9') || (
                        'a' <= u[i] <= 'f')) && p@ == "/tmp/cover_screen_download/"@ + u + "."@
                        + spec_ext_of(content_type@)->0,
                Err(e) => spec_ext_of(content_type@) is None && e@ == "unknown content-type: "@
                    + content_type@,
            },
    {
        let ext = match ext_from_content_type(content_type) {
            Some(e) => e,
            None => {
                let mut e = String::new();
                e.append("unknown content-type: ");
                e.append(content_type);
                proof {
                    assert(e@ =~= "unknown content-type: "@ + content_type@);
                }
                return Err(e);
            },
        };
        let id = new_uuid_string();
        let mut p = String::new();
        p.append("/tmp/cover_screen_download/");
        p.append(id.as_str());
        p.append(".");
        p.append(ext);
        proof {
            assert(p@ =~= "/tmp/cover_screen_download/"@ + id@ + "."@ + spec_ext_of(
                content_type@,
            )->0);
            assert(id@.len() == 36 && (forall|i: int|
                0 <= i < id@.len() ==> (#[trigger] id@[i]) == '-' || ('0' <= id@[i] <= '9') || (
                'a' <= id@[i] <= 'f')));
        }
        Ok(p)
    }
}

} // verus!
