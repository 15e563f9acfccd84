//! The translator: turns raw bytes of various kinds into structured
//! text.  Reading files is the embedding application's step; every
//! decision made on the bytes is verified here.

use vstd::prelude::*;
use vstd::string::{StringExecFns, StringSliceAdditionalSpecFns};
use crate::orchestration::types::{ContentType, TranslatedContent};
use crate::text::{utf8_lossy, utf8_lossy_bytes, utf8_to_string};

verus! {

/// Why a translation failed.
#[derive(Debug)]
pub enum TranslatorError {
    IoError(String),
    EncodingError(String),
    UnsupportedFormat(String),
}

/// The label of a translator error class.
pub open spec fn spec_translator_error_label(e: &TranslatorError) -> Seq<char> {
    match e {
        TranslatorError::IoError(_) => "IO error: "@,
        TranslatorError::EncodingError(_) => "Encoding error: "@,
        TranslatorError::UnsupportedFormat(_) => "Unsupported format: "@,
    }
}

/// The detail of a translator error.
pub open spec fn spec_translator_error_detail(e: &TranslatorError) -> Seq<char> {
    match e {
        TranslatorError::IoError(d) => d@,
        TranslatorError::EncodingError(d) => d@,
        TranslatorError::UnsupportedFormat(d) => d@,
    }
}

impl TranslatorError {
    /// A human-readable rendering: the class label, then the detail.
    pub fn message(&self) -> (r: String)
        ensures
            r@ == spec_translator_error_label(self) + spec_translator_error_detail(self),
    {
        let mut out = String::new();
        match self {
            TranslatorError::IoError(d) => {
                out.append("IO error: ");
                out.append(d.as_str());
            },
            TranslatorError::EncodingError(d) => {
                out.append("Encoding error: ");
                out.append(d.as_str());
            },
            TranslatorError::UnsupportedFormat(d) => {
                out.append("Unsupported format: ");
                out.append(d.as_str());
            },
        }
        out
    }
}

/// Whether `s` parses as a JSON document.
pub uninterp spec fn is_valid_json(s: Seq<char>) -> bool;

/// The pretty-printed rendering of a JSON document: a function of the
/// document text alone.
pub uninterp spec fn json_pretty(s: Seq<char>) -> Seq<char>;

/// Relies on `serde_json::from_str::<Value>` (which succeeds exactly on
/// parsable JSON, named `is_valid_json`) followed by
/// `serde_json::to_string_pretty` (whose rendering of the parsed
/// document `json_pretty` names).
#[verifier::external_body]
fn pretty_json(s: &str) -> (r: Option<String>)
    ensures
        r is Some <==> is_valid_json(s@),
        r is Some ==> r->0@ == json_pretty(s@),
{
    let value: serde_json::Value = serde_json::from_str(s).ok()?;
    serde_json::to_string_pretty(&value).ok()
}

/// Index of the first newline byte in `s`, or its length.
pub open spec fn spec_first_nl(s: Seq<u8>) -> int
    decreases s.len(),
{
    if s.len() == 0 {
        0
    } else if s[0] == 10 {
        0
    } else {
        1 + spec_first_nl(s.drop_first())
    }
}

/// `spec_first_nl` is in bounds, points at a newline when short of the
/// length, and nothing before it is a newline.
pub proof fn lemma_first_nl(s: Seq<u8>)
    ensures
        0 <= spec_first_nl(s) <= s.len(),
        spec_first_nl(s) < s.len() ==> s[spec_first_nl(s)] == 10,
        forall|j: int| 0 <= j < spec_first_nl(s) ==> s[j] != 10,
    decreases s.len(),
{
    if s.len() > 0 && s[0] != 10 {
        lemma_first_nl(s.drop_first());
        assert forall|j: int| 0 <= j < spec_first_nl(s) implies s[j] != 10 by {
            if j > 0 {
                assert(s.drop_first()[j - 1] == s[j]);
            }
        }
    }
}

/// The line holds only blank bytes (ASCII whitespace).
pub open spec fn spec_blank_line(line: Seq<u8>) -> bool {
    forall|j: int| 0 <= j < line.len() ==> 9 <= #[trigger] line[j] <= 13 || line[j] == 32
}

/// The document's bytes with blank lines removed: the non-blank lines,
/// joined again with single newlines.
pub open spec fn spec_doc_filter(s: Seq<u8>) -> Seq<u8>
    decreases s.len(),
{
    if s.len() == 0 {
        Seq::empty()
    } else {
        let i0 = spec_first_nl(s);
        let i = if i0 < 0 {
            0
        } else if i0 > s.len() {
            s.len() as int
        } else {
            i0
        };
        let line = s.subrange(0, i);
        if i < s.len() {
            let rest = spec_doc_filter(s.subrange(i + 1, s.len() as int));
            if spec_blank_line(line) {
                rest
            } else if rest.len() == 0 {
                line
            } else {
                line + seq![10u8] + rest
            }
        } else {
            if spec_blank_line(line) {
                Seq::empty()
            } else {
                line
            }
        }
    }
}

/// Index of the first newline byte, or the length.
pub(crate) fn first_nl(s: &[u8]) -> (r: usize)
    ensures
        r == spec_first_nl(s@),
        r <= s@.len(),
{
    proof {
        lemma_first_nl(s@);
    }
    let n = s.len();
    let mut i: usize = 0;
    while i < n
        invariant
            n == s@.len(),
            0 <= i <= n,
            forall|j: int| 0 <= j < i ==> s@[j] != 10,
        decreases n - i,
    {
        if s[i] == 10 {
            proof {
                lemma_first_nl_at(s@, i as int);
            }
            return i;
        }
        i += 1;
    }
    proof {
        if spec_first_nl(s@) < s@.len() {
            assert(false);
        }
    }
    n
}

/// If position `i` holds a newline and nothing before it does, it is the
/// first newline.
proof fn lemma_first_nl_at(s: Seq<u8>, i: int)
    requires
        0 <= i < s.len(),
        s[i] == 10,
        forall|j: int| 0 <= j < i ==> s[j] != 10,
    ensures
        spec_first_nl(s) == i,
    decreases s.len(),
{
    if i > 0 {
        assert(forall|j: int|
            0 <= j < s.drop_first().len() ==> #[trigger] s.drop_first()[j] == s[j + 1]);
        lemma_first_nl_at(s.drop_first(), i - 1);
    }
}

/// The line holds only blank bytes.
fn is_blank_line(line: &[u8]) -> (r: bool)
    ensures
        r == spec_blank_line(line@),
{
    let n = line.len();
    let mut i: usize = 0;
    while i < n
        invariant
            n == line@.len(),
            0 <= i <= n,
            forall|j: int| 0 <= j < i ==> 9 <= #[trigger] line@[j] <= 13 || line@[j] == 32,
        decreases n - i,
    {
        let b = line[i];
        if !(9 <= b && b <= 13) && b != 32 {
            return false;
        }
        i += 1;
    }
    true
}

/// Remove the blank lines of a document, joining the rest with single
/// newlines.
fn doc_filter(s: &[u8]) -> (r: Vec<u8>)
    ensures
        r@ == spec_doc_filter(s@),
    decreases s@.len(),
{
    if s.len() == 0 {
        proof {
            assert(spec_doc_filter(s@) =~= Seq::<u8>::empty());
        }
        return Vec::new();
    }
    proof {
        lemma_first_nl(s@);
    }
    let i = first_nl(s);
    let line = &s[0..i];
    proof {
        assert(line@ =~= s@.subrange(0, i as int));
    }
    let blank = is_blank_line(line);
    if i < s.len() {
        let tail = &s[i + 1..s.len()];
        proof {
            assert(tail@ =~= s@.subrange(i + 1, s@.len() as int));
        }
        let rest = doc_filter(tail);
        if blank {
            rest
        } else if rest.len() == 0 {
            let mut out: Vec<u8> = Vec::new();
            crate::bytes::push_bytes(&mut out, line);
            proof {
                assert(out@ =~= spec_doc_filter(s@));
            }
            out
        } else {
            let mut out: Vec<u8> = Vec::new();
            crate::bytes::push_bytes(&mut out, line);
            out.push(10);
            crate::bytes::push_bytes(&mut out, rest.as_slice());
            proof {
                assert(out@ =~= spec_doc_filter(s@));
            }
            out
        }
    } else {
        if blank {
            proof {
                assert(spec_doc_filter(s@) =~= Seq::<u8>::empty());
            }
            Vec::new()
        } else {
            let mut out: Vec<u8> = Vec::new();
            crate::bytes::push_bytes(&mut out, line);
            proof {
                assert(out@ =~= spec_doc_filter(s@));
            }
            out
        }
    }
}

/// The name a source path contributes to a description: the decoded
/// segment after the last slash, or the fallback when that segment is
/// empty or not valid UTF-8.
pub open spec fn spec_file_name_or(p: Seq<u8>, fallback: Seq<char>) -> Seq<char> {
    let cut0 = crate::watch::spec_after_last(p, 47);
    let cut = if cut0 < 0 {
        0
    } else if cut0 > p.len() {
        p.len() as int
    } else {
        cut0
    };
    let seg = p.subrange(cut, p.len() as int);
    if seg.len() > 0 && vstd::utf8::valid_utf8(seg) && vstd::utf8::decode_utf8(seg).len() > 0 {
        vstd::utf8::decode_utf8(seg)
    } else {
        fallback
    }
}

/// The file name of a path: what follows the last slash, decoded, or
/// the fallback.
fn file_name_or(path: &str, fallback: &str) -> (r: String)
    ensures
        r@ == spec_file_name_or(path.spec_bytes(), fallback@),
{
    let bytes = path.as_bytes();
    let start = crate::watch::after_last(bytes, 47);
    let name = &bytes[start..bytes.len()];
    proof {
        assert(name@ =~= path.spec_bytes().subrange(
            start as int,
            path.spec_bytes().len() as int,
        ));
    }
    if name.len() == 0 {
        return fallback.to_owned();
    }
    match utf8_to_string(name) {
        Some(s) => {
            if s.as_str().unicode_len() == 0 {
                fallback.to_owned()
            } else {
                s
            }
        },
        None => fallback.to_owned(),
    }
}

/// The fixed description for an image file.
pub open spec fn spec_image_note(name: Seq<char>) -> Seq<char> {
    "Image file detected: "@ + name
        + "\n\nNote: OCR and vision analysis not yet implemented. This would typically extract text from the image or generate a description."@
}

/// The fixed description for an audio file.
pub open spec fn spec_audio_note(name: Seq<char>) -> Seq<char> {
    "Audio file detected: "@ + name
        + "\n\nNote: Audio transcription not yet implemented. This would typically use Whisper or similar to transcribe speech to text."@
}

/// The fixed description for a video file.
pub open spec fn spec_video_note(name: Seq<char>) -> Seq<char> {
    "Video file detected: "@ + name
        + "\n\nNote: Video analysis not yet implemented. This would typically extract audio transcription and key frame descriptions."@
}

/// The fixed description for an archive.
pub open spec fn spec_archive_note() -> Seq<char> {
    "Archive file detected.\n\nNote: Archive extraction not yet implemented. This would typically list contents and extract text from supported files."@
}

/// The translator: decodes raw content into structured text.
pub struct Translator {
}

impl Translator {
    pub fn new() -> (r: Self) {
        Translator {  }
    }

    /// Decode plain text: succeeds exactly on valid UTF-8, yielding the
    /// decoded characters; anything else is an encoding error.
    pub fn translate_text(&self, bytes: &[u8]) -> (r: Result<String, TranslatorError>)
        ensures
            r is Ok <==> vstd::utf8::valid_utf8(bytes@),
            r is Ok ==> r->Ok_0@ == vstd::utf8::decode_utf8(bytes@),
            r is Err ==> r->Err_0 is EncodingError,
    {
        match utf8_to_string(bytes) {
            Some(s) => Ok(s),
            None => Err(TranslatorError::EncodingError("invalid UTF-8".to_owned())),
        }
    }

    /// Decode structured data: pretty-print it when it parses as JSON,
    /// hand the text back unchanged when it does not.
    pub fn translate_structured(&self, bytes: &[u8]) -> (r: Result<String, TranslatorError>)
        ensures
            r is Ok <==> vstd::utf8::valid_utf8(bytes@),
            r is Ok ==> {
                let text = vstd::utf8::decode_utf8(bytes@);
                (is_valid_json(text) ==> r->Ok_0@ == json_pretty(text)) && (!is_valid_json(text)
                    ==> r->Ok_0@ == text)
            },
            r is Err ==> r->Err_0 is EncodingError,
    {
        let text = match self.translate_text(bytes) {
            Ok(t) => t,
            Err(e) => {
                return Err(e);
            },
        };
        match pretty_json(text.as_str()) {
            Some(p) => Ok(p),
            None => Ok(text),
        }
    }

    /// Decode a document: drop blank lines, join the rest with single
    /// newlines, and decode leniently (invalid sequences replaced).
    pub fn translate_document(&self, bytes: &[u8]) -> (r: Result<String, TranslatorError>)
        ensures
            r is Ok,
            vstd::utf8::encode_utf8(r->Ok_0@) == utf8_lossy_bytes(spec_doc_filter(bytes@)),
    {
        let filtered = doc_filter(bytes);
        Ok(utf8_lossy(filtered.as_slice()))
    }

    /// Describe an image file (no OCR or vision pass is made here).
    pub fn translate_image(&self, source: Option<&str>) -> (r: Result<String, TranslatorError>)
        ensures
            r is Ok,
            source is None ==> r->Ok_0@ == spec_image_note("unknown.img"@),
            source matches Some(p) ==> r->Ok_0@ == spec_image_note(
                spec_file_name_or(p.spec_bytes(), "unknown.img"@),
            ),
    {
        let name = match source {
            Some(p) => file_name_or(p, "unknown.img"),
            None => "unknown.img".to_owned(),
        };
        let mut out = String::new();
        out.append("Image file detected: ");
        out.append(name.as_str());
        out.append(
            "\n\nNote: OCR and vision analysis not yet implemented. This would typically extract text from the image or generate a description.",
        );
        Ok(out)
    }

    /// Describe an audio file (no transcription is made here).
    pub fn translate_audio(&self, source: Option<&str>) -> (r: Result<String, TranslatorError>)
        ensures
            r is Ok,
            source is None ==> r->Ok_0@ == spec_audio_note("unknown.mp3"@),
            source matches Some(p) ==> r->Ok_0@ == spec_audio_note(
                spec_file_name_or(p.spec_bytes(), "unknown.mp3"@),
            ),
    {
        let name = match source {
            Some(p) => file_name_or(p, "unknown.mp3"),
            None => "unknown.mp3".to_owned(),
        };
        let mut out = String::new();
        out.append("Audio file detected: ");
        out.append(name.as_str());
        out.append(
            "\n\nNote: Audio transcription not yet implemented. This would typically use Whisper or similar to transcribe speech to text.",
        );
        Ok(out)
    }

    /// Describe a video file (no analysis is made here).
    pub fn translate_video(&self, source: Option<&str>) -> (r: Result<String, TranslatorError>)
        ensures
            r is Ok,
            source is None ==> r->Ok_0@ == spec_video_note("unknown.mp4"@),
            source matches Some(p) ==> r->Ok_0@ == spec_video_note(
                spec_file_name_or(p.spec_bytes(), "unknown.mp4"@),
            ),
    {
        let name = match source {
            Some(p) => file_name_or(p, "unknown.mp4"),
            None => "unknown.mp4".to_owned(),
        };
        let mut out = String::new();
        out.append("Video file detected: ");
        out.append(name.as_str());
        out.append(
            "\n\nNote: Video analysis not yet implemented. This would typically extract audio transcription and key frame descriptions.",
        );
        Ok(out)
    }

    /// Describe an archive (no extraction is made here).
    pub fn translate_archive(&self, _bytes: &[u8]) -> (r: Result<String, TranslatorError>)
        ensures
            r is Ok,
            r->Ok_0@ == spec_archive_note(),
    {
        Ok(
            "Archive file detected.\n\nNote: Archive extraction not yet implemented. This would typically list contents and extract text from supported files.".to_owned(),
        )
    }

    /// Translate raw bytes of a known content type, annotating the
    /// result with its source path and file name when one is given.
    /// Text, code and unknown content must be valid UTF-8; everything
    /// else is decoded or described leniently.
    pub fn translate_bytes(&self, bytes: &[u8], content_type: ContentType, source: Option<&str>)
        -> (r: Result<TranslatedContent, TranslatorError>)
        ensures
            r is Ok ==> r->Ok_0.content_type == content_type,
            (content_type == ContentType::Text || content_type == ContentType::Code
                || content_type == ContentType::Unknown) ==> (r is Ok <==> vstd::utf8::valid_utf8(
                bytes@,
            )) && (r is Ok ==> r->Ok_0.text@ == vstd::utf8::decode_utf8(bytes@)),
            content_type == ContentType::Structured ==> (r is Ok <==> vstd::utf8::valid_utf8(
                bytes@,
            )),
            r is Ok ==> r->Ok_0.summary is None,
            r is Ok && source is None ==> r->Ok_0.metadata@.len() == 0,
            r is Ok && source is Some ==> r->Ok_0.metadata@.len() == 2
                && r->Ok_0.metadata@[0].0@ == "source"@ && r->Ok_0.metadata@[0].1@ == source->0@
                && r->Ok_0.metadata@[1].0@ == "filename"@,
    {
        let text = match content_type {
            ContentType::Text => self.translate_text(bytes),
            ContentType::Code => self.translate_text(bytes),
            ContentType::Structured => self.translate_structured(bytes),
            ContentType::Document => self.translate_document(bytes),
            ContentType::Image => self.translate_image(source),
            ContentType::Audio => self.translate_audio(source),
            ContentType::Video => self.translate_video(source),
            ContentType::Archive => self.translate_archive(bytes),
            ContentType::Unknown => self.translate_text(bytes),
        };
        let text = match text {
            Ok(t) => t,
            Err(e) => {
                return Err(e);
            },
        };
        let translated = TranslatedContent::new(content_type, text);
        match source {
            Some(path) => {
                let name = file_name_or(path, "unknown");
                let translated = translated.with_metadata("source", path);
                let translated = translated.with_metadata("filename", name.as_str());
                Ok(translated)
            },
            None => Ok(translated),
        }
    }
}

} // verus!
