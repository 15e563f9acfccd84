//! File-watching support logic: MIME classification by extension, and
//! the watcher's defaults.  The file-system watching itself is the
//! embedding application's business.

use vstd::prelude::*;
use vstd::string::StringSliceAdditionalSpecFns;
use crate::bytes::str_eq;
use crate::text::lower_of;

verus! {

/// Index just after the last occurrence of `b` in `s`, or `0` when `b`
/// does not occur.
pub open spec fn spec_after_last(s: Seq<u8>, b: u8) -> int
    decreases s.len(),
{
    if s.len() == 0 {
        0
    } else if s.last() == b {
        s.len() as int
    } else {
        spec_after_last(s.drop_last(), b)
    }
}

/// The extension of a path, as Rust's standard path logic finds it: the
/// bytes after the last dot of the last path segment, provided that dot
/// is not the segment's first byte; absent otherwise.
pub open spec fn spec_extension(p: Seq<u8>) -> Option<Seq<u8>> {
    let name = p.subrange(spec_after_last(p, 47), p.len() as int);
    let cut = spec_after_last(name, 46);
    if cut <= 1 {
        None
    } else {
        Some(name.subrange(cut, name.len() as int))
    }
}

/// The MIME name for a lowercased extension.
pub open spec fn spec_mime(e: Seq<char>) -> Seq<char> {
    if e == "txt"@ || e == "md"@ || e == "markdown"@ {
        "text/plain"@
    } else if e == "pdf"@ {
        "application/pdf"@
    } else if e == "doc"@ || e == "docx"@ {
        "application/msword"@
    } else if e == "json"@ {
        "application/json"@
    } else if e == "xml"@ {
        "application/xml"@
    } else if e == "yaml"@ || e == "yml"@ {
        "application/yaml"@
    } else if e == "mp3"@ {
        "audio/mpeg"@
    } else if e == "wav"@ {
        "audio/wav"@
    } else if e == "flac"@ {
        "audio/flac"@
    } else if e == "ogg"@ {
        "audio/ogg"@
    } else if e == "m4a"@ {
        "audio/m4a"@
    } else if e == "aac"@ {
        "audio/aac"@
    } else if e == "mp4"@ {
        "video/mp4"@
    } else if e == "avi"@ {
        "video/avi"@
    } else if e == "mkv"@ {
        "video/mkv"@
    } else if e == "mov"@ {
        "video/quicktime"@
    } else if e == "webm"@ {
        "video/webm"@
    } else if e == "jpg"@ || e == "jpeg"@ {
        "image/jpeg"@
    } else if e == "png"@ {
        "image/png"@
    } else if e == "gif"@ {
        "image/gif"@
    } else if e == "svg"@ {
        "image/svg+xml"@
    } else if e == "webp"@ {
        "image/webp"@
    } else if e == "rs"@ {
        "text/rust"@
    } else if e == "py"@ {
        "text/python"@
    } else if e == "js"@ {
        "text/javascript"@
    } else if e == "ts"@ {
        "text/typescript"@
    } else if e == "go"@ {
        "text/go"@
    } else if e == "c"@ || e == "h"@ {
        "text/c"@
    } else if e == "cpp"@ || e == "hpp"@ {
        "text/cpp"@
    } else if e == "java"@ {
        "text/java"@
    } else if e == "zip"@ {
        "application/zip"@
    } else if e == "tar"@ {
        "application/tar"@
    } else if e == "gz"@ {
        "application/gzip"@
    } else if e == "7z"@ {
        "application/x-7z-compressed"@
    } else {
        "application/octet-stream"@
    }
}

/// The default debounce interval of the watcher, in milliseconds.
pub fn default_debounce() -> (r: u64)
    ensures
        r == 200,
{
    200
}

/// The default endpoint of the language-model service.
pub fn default_ollama_endpoint() -> (r: String)
    ensures
        r@ == "http://localhost:11434"@,
{
    "http://localhost:11434".to_owned()
}

/// Index just after the last occurrence of `b`, or 0.
pub fn after_last(s: &[u8], b: u8) -> (r: usize)
    ensures
        r == spec_after_last(s@, b),
        r <= s@.len(),
{
    proof {
        lemma_after_last_bounds(s@, b);
        assert(s@.subrange(0, s@.len() as int) =~= s@);
    }
    let mut i: usize = s.len();
    while i > 0
        invariant
            0 <= i <= s@.len(),
            spec_after_last(s@, b) == spec_after_last(s@.subrange(0, i as int), b),
        decreases i,
    {
        proof {
            let cur = s@.subrange(0, i as int);
            assert(cur.last() == s@[i - 1]);
            assert(cur.drop_last() =~= s@.subrange(0, i - 1));
        }
        if s[i - 1] == b {
            return i;
        }
        i -= 1;
    }
    proof {
        assert(s@.subrange(0, 0) =~= Seq::<u8>::empty());
    }
    0
}

/// `spec_after_last` stays within bounds.
proof fn lemma_after_last_bounds(s: Seq<u8>, b: u8)
    ensures
        0 <= spec_after_last(s, b) <= s.len(),
    decreases s.len(),
{
    if s.len() > 0 {
        lemma_after_last_bounds(s.drop_last(), b);
    }
}

/// The MIME name for a file path, decided by its extension,
/// case-insensitively; a path without an extension is an octet stream.
pub fn determine_file_type(path: &str) -> (r: String)
    ensures
        spec_extension(path.spec_bytes()) is None ==> r@ == "application/octet-stream"@,
        spec_extension(path.spec_bytes()) matches Some(e) ==> (vstd::utf8::valid_utf8(e) ==> r@
            == spec_mime(lower_of(vstd::utf8::decode_utf8(e)))) && (!vstd::utf8::valid_utf8(e)
            ==> r@ == "application/octet-stream"@),
    {
        let bytes = path.as_bytes();
        let name_start = after_last(bytes, 47);
        let name = &bytes[name_start..bytes.len()];
        proof {
            assert(name@ =~= path.spec_bytes().subrange(
                spec_after_last(path.spec_bytes(), 47),
                path.spec_bytes().len() as int,
            ));
        }
        let cut = after_last(name, 46);
        if cut <= 1 {
            return "application/octet-stream".to_owned();
        }
        let ext_bytes = &name[cut..name.len()];
        proof {
            assert(ext_bytes@ =~= name@.subrange(cut as int, name@.len() as int));
        }
        let ext = match crate::text::utf8_to_string(ext_bytes) {
            Some(s) => s,
            None => {
                return "application/octet-stream".to_owned();
            },
        };
        let low = crate::text::to_lowercase(ext.as_str());
        let e = low.as_str();
        if str_eq(e, "txt") || str_eq(e, "md") || str_eq(e, "markdown") {
            "text/plain".to_owned()
        } else if str_eq(e, "pdf") {
            "application/pdf".to_owned()
        } else if str_eq(e, "doc") || str_eq(e, "docx") {
            "application/msword".to_owned()
        } else if str_eq(e, "json") {
            "application/json".to_owned()
        } else if str_eq(e, "xml") {
            "application/xml".to_owned()
        } else if str_eq(e, "yaml") || str_eq(e, "yml") {
            "application/yaml".to_owned()
        } else if str_eq(e, "mp3") {
            "audio/mpeg".to_owned()
        } else if str_eq(e, "wav") {
            "audio/wav".to_owned()
        } else if str_eq(e, "flac") {
            "audio/flac".to_owned()
        } else if str_eq(e, "ogg") {
            "audio/ogg".to_owned()
        } else if str_eq(e, "m4a") {
            "audio/m4a".to_owned()
        } else if str_eq(e, "aac") {
            "audio/aac".to_owned()
        } else if str_eq(e, "mp4") {
            "video/mp4".to_owned()
        } else if str_eq(e, "avi") {
            "video/avi".to_owned()
        } else if str_eq(e, "mkv") {
            "video/mkv".to_owned()
        } else if str_eq(e, "mov") {
            "video/quicktime".to_owned()
        } else if str_eq(e, "webm") {
            "video/webm".to_owned()
        } else if str_eq(e, "jpg") || str_eq(e, "jpeg") {
            "image/jpeg".to_owned()
        } else if str_eq(e, "png") {
            "image/png".to_owned()
        } else if str_eq(e, "gif") {
            "image/gif".to_owned()
        } else if str_eq(e, "svg") {
            "image/svg+xml".to_owned()
        } else if str_eq(e, "webp") {
            "image/webp".to_owned()
        } else if str_eq(e, "rs") {
            "text/rust".to_owned()
        } else if str_eq(e, "py") {
            "text/python".to_owned()
        } else if str_eq(e, "js") {
            "text/javascript".to_owned()
        } else if str_eq(e, "ts") {
            "text/typescript".to_owned()
        } else if str_eq(e, "go") {
            "text/go".to_owned()
        } else if str_eq(e, "c") || str_eq(e, "h") {
            "text/c".to_owned()
        } else if str_eq(e, "cpp") || str_eq(e, "hpp") {
            "text/cpp".to_owned()
        } else if str_eq(e, "java") {
            "text/java".to_owned()
        } else if str_eq(e, "zip") {
            "application/zip".to_owned()
        } else if str_eq(e, "tar") {
            "application/tar".to_owned()
        } else if str_eq(e, "gz") {
            "application/gzip".to_owned()
        } else if str_eq(e, "7z") {
            "application/x-7z-compressed".to_owned()
        } else {
            "application/octet-stream".to_owned()
        }
    }

} // verus!
