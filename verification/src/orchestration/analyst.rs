//! The analyst expert: pattern detection and recommendations over code
//! and text.

use vstd::prelude::*;
use vstd::string::{StringExecFns, StringSliceAdditionalSpecFns};
use crate::bytes::{is_sub, str_contains};
use crate::orchestration::experts::ExpertError;
use crate::orchestration::types::{
    Artifact, ExpertResult, ExpertType, ResultStatus, TranslatedContent,
};
use crate::text::{lower_of, spec_count_byte, spec_dec, spec_join};

verus! {

/// The analyst expert; it carries no state yet.
pub struct AnalystExpert {
}

/// The patterns the analyst reports for lowercased code: asynchrony,
/// struct or class design, function definitions, tests, error handling —
/// or the fallback line when none of them occurs.
pub open spec fn spec_code_patterns(lb: Seq<u8>) -> Seq<Seq<char>> {
    let found = (if is_sub(lb, "async".spec_bytes()) || is_sub(lb, "await".spec_bytes()) {
        seq!["Asynchronous programming patterns"@]
    } else {
        Seq::empty()
    }) + (if is_sub(lb, "struct".spec_bytes()) || is_sub(lb, "class".spec_bytes()) {
        seq!["Object-oriented or struct-based design"@]
    } else {
        Seq::empty()
    }) + (if is_sub(lb, "fn ".spec_bytes()) || is_sub(lb, "def ".spec_bytes()) || is_sub(
        lb,
        "function".spec_bytes(),
    ) {
        seq!["Function definitions present"@]
    } else {
        Seq::empty()
    }) + (if is_sub(lb, "test".spec_bytes()) || is_sub(lb, "assert".spec_bytes()) {
        seq!["Testing code detected"@]
    } else {
        Seq::empty()
    }) + (if is_sub(lb, "error".spec_bytes()) || is_sub(lb, "result".spec_bytes()) {
        seq!["Error handling patterns"@]
    } else {
        Seq::empty()
    });
    if found.len() == 0 {
        seq!["No specific patterns detected"@]
    } else {
        found
    }
}

/// The recommendation block for lowercased code: add tests when none are
/// mentioned; add comments when none occur; otherwise the all-clear.
pub open spec fn spec_code_recommendations(lb: Seq<u8>) -> Seq<char> {
    if !is_sub(lb, "test".spec_bytes()) {
        "1. Consider adding unit tests\n2. Document public APIs\n3. Add error handling where appropriate\n"@
    } else if !is_sub(lb, "//".spec_bytes()) && !is_sub(lb, "#".spec_bytes()) {
        "1. Add comments for complex logic\n2. Consider adding module-level documentation\n3. Review error handling coverage\n"@
    } else {
        "1. Code structure looks reasonable\n2. Consider performance profiling if needed\n3. Review for security best practices\n"@
    }
}

/// The insights the analyst reports for text, given its lowercased bytes
/// and its raw bytes: formal sections, enumerations, code content,
/// question-driven style — or general prose.
pub open spec fn spec_text_insights(lb: Seq<u8>, raw: Seq<u8>) -> Seq<Seq<char>> {
    let found = (if is_sub(lb, "introduction".spec_bytes()) || is_sub(
        lb,
        "conclusion".spec_bytes(),
    ) {
        seq!["Structured document with formal sections"@]
    } else {
        Seq::empty()
    }) + (if is_sub(lb, "first".spec_bytes()) || is_sub(lb, "second".spec_bytes()) || is_sub(
        lb,
        "third".spec_bytes(),
    ) {
        seq!["Enumerated or sequential content"@]
    } else {
        Seq::empty()
    }) + (if is_sub(raw, "```".spec_bytes()) || is_sub(lb, "code".spec_bytes()) {
        seq!["Contains code examples or technical content"@]
    } else {
        Seq::empty()
    }) + (if spec_count_byte(raw, 63) > 3 {
        seq!["Question-driven or FAQ-style content"@]
    } else {
        Seq::empty()
    });
    if found.len() == 0 {
        seq!["General prose content"@]
    } else {
        found
    }
}


/// A byte that `str::trim` would remove: ASCII whitespace.
pub open spec fn spec_ws(b: u8) -> bool {
    9 <= b <= 13 || b == 32
}

/// The line holds nothing but whitespace.
pub open spec fn spec_blank(line: Seq<u8>) -> bool {
    forall|j: int| 0 <= j < line.len() ==> spec_ws(#[trigger] line[j])
}

/// Index of the first non-whitespace byte, or the length.
pub open spec fn spec_first_non_ws(s: Seq<u8>) -> int
    decreases s.len(),
{
    if s.len() == 0 {
        0
    } else if !spec_ws(s[0]) {
        0
    } else {
        1 + spec_first_non_ws(s.drop_first())
    }
}

/// The line, leading whitespace removed, starts with `prefix`.
pub open spec fn spec_trimmed_starts_with(line: Seq<u8>, prefix: Seq<u8>) -> bool {
    let i0 = spec_first_non_ws(line);
    let i = if i0 < 0 {
        0
    } else if i0 > line.len() {
        line.len() as int
    } else {
        i0
    };
    i + prefix.len() <= line.len() && line.subrange(i, i + prefix.len()) == prefix
}

/// The line counts as a comment: trimmed, it starts with a line or
/// block comment marker.
pub open spec fn spec_comment(line: Seq<u8>) -> bool {
    spec_trimmed_starts_with(line, "//".spec_bytes()) || spec_trimmed_starts_with(
        line,
        "#".spec_bytes(),
    ) || spec_trimmed_starts_with(line, "/*".spec_bytes())
}

/// How many lines the text has, as `str::lines` counts them.
pub open spec fn spec_line_count(s: Seq<u8>) -> int
    decreases s.len(),
{
    if s.len() == 0 {
        0
    } else {
        let i0 = crate::orchestration::translator::spec_first_nl(s);
        let i = if i0 < 0 {
            0
        } else if i0 > s.len() {
            s.len() as int
        } else {
            i0
        };
        if i < s.len() {
            1 + spec_line_count(s.subrange(i + 1, s.len() as int))
        } else {
            1
        }
    }
}

/// How many of those lines are blank.
pub open spec fn spec_blank_count(s: Seq<u8>) -> int
    decreases s.len(),
{
    if s.len() == 0 {
        0
    } else {
        let i0 = crate::orchestration::translator::spec_first_nl(s);
        let i = if i0 < 0 {
            0
        } else if i0 > s.len() {
            s.len() as int
        } else {
            i0
        };
        let here: int = if spec_blank(s.subrange(0, i)) {
            1
        } else {
            0
        };
        if i < s.len() {
            here + spec_blank_count(s.subrange(i + 1, s.len() as int))
        } else {
            here
        }
    }
}

/// How many of those lines are comments.
pub open spec fn spec_comment_count(s: Seq<u8>) -> int
    decreases s.len(),
{
    if s.len() == 0 {
        0
    } else {
        let i0 = crate::orchestration::translator::spec_first_nl(s);
        let i = if i0 < 0 {
            0
        } else if i0 > s.len() {
            s.len() as int
        } else {
            i0
        };
        let here: int = if spec_comment(s.subrange(0, i)) {
            1
        } else {
            0
        };
        if i < s.len() {
            here + spec_comment_count(s.subrange(i + 1, s.len() as int))
        } else {
            here
        }
    }
}

/// A word starts at `j`: a non-whitespace byte not preceded by one.
pub open spec fn spec_word_start(s: Seq<u8>, j: int) -> bool {
    0 <= j < s.len() && !spec_ws(s[j]) && (j == 0 || spec_ws(s[j - 1]))
}

/// How many whitespace-separated words the text has.
pub open spec fn spec_word_count(s: Seq<u8>) -> int
    decreases s.len(),
{
    if s.len() == 0 {
        0
    } else {
        spec_word_count(s.drop_last()) + if spec_word_start(s, s.len() - 1) {
            1int
        } else {
            0int
        }
    }
}

/// How many paragraphs the text has: segments between blank-line
/// separators that hold any non-whitespace byte.
pub open spec fn spec_paragraph_count(s: Seq<u8>) -> int
    decreases s.len(),
{
    if s.len() == 0 {
        0
    } else {
        let i0 = spec_first_sep(s);
        let i = if i0 < 0 {
            0
        } else if i0 > s.len() {
            s.len() as int
        } else {
            i0
        };
        let here: int = if spec_blank(s.subrange(0, i)) {
            0
        } else {
            1
        };
        if i + 2 <= s.len() {
            here + spec_paragraph_count(s.subrange(i + 2, s.len() as int))
        } else {
            here
        }
    }
}

/// Index of the first double-newline separator, or the length.
pub open spec fn spec_first_sep(s: Seq<u8>) -> int
    decreases s.len(),
{
    if s.len() < 2 {
        s.len() as int
    } else if s[0] == 10 && s[1] == 10 {
        0
    } else {
        1 + spec_first_sep(s.drop_first())
    }
}

/// Word count never exceeds the length.
proof fn lemma_word_count_le_len(s: Seq<u8>)
    ensures
        0 <= spec_word_count(s) <= s.len(),
    decreases s.len(),
{
    if s.len() > 0 {
        lemma_word_count_le_len(s.drop_last());
    }
}

/// Count the whitespace-separated words.
fn count_words(s: &[u8]) -> (r: usize)
    ensures
        r == spec_word_count(s@),
{
    let n = s.len();
    let mut count: usize = 0;
    let mut i: usize = 0;
    while i < n
        invariant
            n == s@.len(),
            0 <= i <= n,
            count == spec_word_count(s@.subrange(0, i as int)),
            count <= i,
        decreases n - i,
    {
        proof {
            lemma_word_count_le_len(s@.subrange(0, i as int));
            let next = s@.subrange(0, i + 1);
            assert(next.drop_last() =~= s@.subrange(0, i as int));
            assert(next[next.len() - 1] == s@[i as int]);
            if i > 0 {
                assert(next[next.len() - 2] == s@[i - 1]);
            }
        }
        let here = !(9 <= s[i] && s[i] <= 13) && s[i] != 32;
        let starts = here && (i == 0 || ((9 <= s[i - 1] && s[i - 1] <= 13) || s[i - 1] == 32));
        if starts {
            count += 1;
        }
        i += 1;
    }
    proof {
        assert(s@.subrange(0, n as int) =~= s@);
    }
    count
}

/// The line holds nothing but whitespace.
fn is_blank(line: &[u8]) -> (r: bool)
    ensures
        r == spec_blank(line@),
{
    let n = line.len();
    let mut i: usize = 0;
    while i < n
        invariant
            n == line@.len(),
            0 <= i <= n,
            forall|j: int| 0 <= j < i ==> spec_ws(#[trigger] line@[j]),
        decreases n - i,
    {
        let b = line[i];
        if !(9 <= b && b <= 13) && b != 32 {
            return false;
        }
        i += 1;
    }
    true
}

/// Index of the first non-whitespace byte, or the length.
fn first_non_ws(s: &[u8]) -> (r: usize)
    ensures
        r == spec_first_non_ws(s@),
        r <= s@.len(),
{
    proof {
        lemma_first_non_ws_bounds(s@);
    }
    let n = s.len();
    let mut i: usize = 0;
    while i < n
        invariant
            n == s@.len(),
            0 <= i <= n,
            forall|j: int| 0 <= j < i ==> spec_ws(#[trigger] s@[j]),
        decreases n - i,
    {
        let b = s[i];
        if !(9 <= b && b <= 13) && b != 32 {
            proof {
                lemma_first_non_ws_at(s@, i as int);
            }
            return i;
        }
        i += 1;
    }
    proof {
        if spec_first_non_ws(s@) != s@.len() {
            lemma_first_non_ws_bounds(s@);
            assert(!spec_ws(s@[spec_first_non_ws(s@)]));
        }
    }
    n
}

proof fn lemma_first_non_ws_bounds(s: Seq<u8>)
    ensures
        0 <= spec_first_non_ws(s) <= s.len(),
        spec_first_non_ws(s) < s.len() ==> !spec_ws(s[spec_first_non_ws(s)]),
        forall|j: int| 0 <= j < spec_first_non_ws(s) ==> spec_ws(#[trigger] s[j]),
    decreases s.len(),
{
    if s.len() > 0 && spec_ws(s[0]) {
        lemma_first_non_ws_bounds(s.drop_first());
        assert forall|j: int| 0 <= j < spec_first_non_ws(s) implies spec_ws(#[trigger] s[j]) by {
            if j > 0 {
                assert(s.drop_first()[j - 1] == s[j]);
            }
        }
    }
}

proof fn lemma_first_non_ws_at(s: Seq<u8>, i: int)
    requires
        0 <= i < s.len(),
        !spec_ws(s[i]),
        forall|j: int| 0 <= j < i ==> spec_ws(#[trigger] s[j]),
    ensures
        spec_first_non_ws(s) == i,
    decreases s.len(),
{
    if i > 0 {
        assert(forall|j: int|
            0 <= j < s.drop_first().len() ==> #[trigger] s.drop_first()[j] == s[j + 1]);
        lemma_first_non_ws_at(s.drop_first(), i - 1);
    }
}

/// The line, leading whitespace removed, starts with `prefix`.
fn trimmed_starts_with(line: &[u8], prefix: &[u8]) -> (r: bool)
    ensures
        r == spec_trimmed_starts_with(line@, prefix@),
{
    let i = first_non_ws(line);
    if line.len() - i < prefix.len() {
        return false;
    }
    let window = &line[i..i + prefix.len()];
    proof {
        assert(window@ =~= line@.subrange(i as int, i + prefix@.len()));
    }
    crate::bytes::bytes_eq(window, prefix)
}

/// The line counts as a comment.
fn is_comment(line: &[u8]) -> (r: bool)
    ensures
        r == spec_comment(line@),
{
    trimmed_starts_with(line, "//".as_bytes()) || trimmed_starts_with(line, "#".as_bytes())
        || trimmed_starts_with(line, "/*".as_bytes())
}

/// Count the lines and, among them, the blank and the comment lines.
fn line_stats(s: &[u8]) -> (r: (usize, usize, usize))
    ensures
        r.0 == spec_line_count(s@),
        r.1 == spec_blank_count(s@),
        r.2 == spec_comment_count(s@),
        r.1 <= r.0,
        r.2 <= r.0,
        r.0 <= s@.len(),
    decreases s@.len(),
{
    if s.len() == 0 {
        return (0, 0, 0);
    }
    proof {
        crate::orchestration::translator::lemma_first_nl(s@);
    }
    let i = crate::orchestration::translator::first_nl(s);
    let line = &s[0..i];
    proof {
        assert(line@ =~= s@.subrange(0, i as int));
    }
    let blank: usize = if is_blank(line) {
        1
    } else {
        0
    };
    let comment: usize = if is_comment(line) {
        1
    } else {
        0
    };
    if i < s.len() {
        let tail = &s[i + 1..s.len()];
        proof {
            assert(tail@ =~= s@.subrange(i + 1, s@.len() as int));
        }
        let rest = line_stats(tail);
        (1 + rest.0, blank + rest.1, comment + rest.2)
    } else {
        (1, blank, comment)
    }
}

/// Count the paragraphs: blank-line separated segments with content.
fn count_paragraphs(s: &[u8]) -> (r: usize)
    ensures
        r == spec_paragraph_count(s@),
        r <= s@.len(),
    decreases s@.len(),
{
    if s.len() == 0 {
        return 0;
    }
    proof {
        lemma_first_sep(s@);
    }
    let i = first_sep(s);
    let part = &s[0..i];
    proof {
        assert(part@ =~= s@.subrange(0, i as int));
    }
    let here: usize = if is_blank(part) {
        0
    } else {
        1
    };
    if s.len() >= 2 && i <= s.len() - 2 {
        let tail = &s[i + 2..s.len()];
        proof {
            assert(tail@ =~= s@.subrange(i + 2, s@.len() as int));
        }
        here + count_paragraphs(tail)
    } else {
        here
    }
}

/// Index of the first double-newline separator, or the length.
fn first_sep(s: &[u8]) -> (r: usize)
    ensures
        r == spec_first_sep(s@),
        r <= s@.len(),
{
    proof {
        lemma_first_sep(s@);
    }
    let n = s.len();
    if n < 2 {
        return n;
    }
    let mut i: usize = 0;
    while i + 1 < n
        invariant
            n == s@.len(),
            n >= 2,
            0 <= i <= n - 1,
            forall|j: int| 0 <= j < i ==> !((#[trigger] s@[j]) == 10 && s@[j + 1] == 10),
        decreases n - i,
    {
        if s[i] == 10 && s[i + 1] == 10 {
            proof {
                lemma_first_sep_at(s@, i as int);
            }
            return i;
        }
        i += 1;
    }
    proof {
        lemma_first_sep_none(s@);
    }
    n
}

proof fn lemma_first_sep(s: Seq<u8>)
    ensures
        0 <= spec_first_sep(s) <= s.len(),
    decreases s.len(),
{
    if s.len() >= 2 && !(s[0] == 10 && s[1] == 10) {
        lemma_first_sep(s.drop_first());
    }
}

proof fn lemma_first_sep_at(s: Seq<u8>, i: int)
    requires
        0 <= i,
        i + 1 < s.len(),
        s[i] == 10 && s[i + 1] == 10,
        forall|j: int| 0 <= j < i ==> !((#[trigger] s[j]) == 10 && s[j + 1] == 10),
    ensures
        spec_first_sep(s) == i,
    decreases s.len(),
{
    if i > 0 {
        assert(forall|j: int|
            0 <= j < s.drop_first().len() ==> #[trigger] s.drop_first()[j] == s[j + 1]);
        lemma_first_sep_at(s.drop_first(), i - 1);
    }
}

proof fn lemma_first_sep_none(s: Seq<u8>)
    requires
        forall|j: int| 0 <= j && j + 1 < s.len() ==> !((#[trigger] s[j]) == 10 && s[j + 1] == 10),
    ensures
        spec_first_sep(s) == s.len(),
    decreases s.len(),
{
    if s.len() >= 2 {
        assert(forall|j: int|
            0 <= j < s.drop_first().len() ==> #[trigger] s.drop_first()[j] == s[j + 1]);
        lemma_first_sep_none(s.drop_first());
    }
}

/// The patterns rendered as a bulleted list, one per line.
pub open spec fn spec_bullets(items: Seq<Seq<char>>) -> Seq<char>
    decreases items.len(),
{
    if items.len() == 0 {
        Seq::empty()
    } else {
        spec_bullets(items.drop_last()) + "- "@ + items.last() + "\n"@
    }
}

/// Render items as a bulleted list.
fn bullets(items: &Vec<String>) -> (r: String)
    ensures
        r@ == spec_bullets(items@.map_values(|s: String| s@)),
{
    let mut out = String::new();
    let n = items.len();
    let mut i: usize = 0;
    while i < n
        invariant
            n == items@.len(),
            0 <= i <= n,
            out@ == spec_bullets(items@.subrange(0, i as int).map_values(|s: String| s@)),
        decreases n - i,
    {
        let ghost prefix = items@.subrange(0, i as int).map_values(|s: String| s@);
        out.append("- ");
        out.append(items[i].as_str());
        out.append("\n");
        proof {
            let next = items@.subrange(0, i + 1).map_values(|s: String| s@);
            assert(next.drop_last() =~= prefix);
            assert(next.last() == items@[i as int]@);
            assert(out@ =~= spec_bullets(next));
        }
        i += 1;
    }
    proof {
        assert(items@.subrange(0, n as int) =~= items@);
    }
    out
}

impl AnalystExpert {
    pub fn new() -> (r: Self) {
        AnalystExpert {  }
    }

    pub fn expert_type(&self) -> (r: ExpertType)
        ensures
            r == ExpertType::Analyst,
    {
        ExpertType::Analyst
    }

    pub fn capabilities(&self) -> (r: &'static str)
        ensures
            r@ == "Researches topics and provides in-depth analysis (code, text, data, performance, security)"@,
    {
        "Researches topics and provides in-depth analysis (code, text, data, performance, security)"
    }

    /// The patterns present in the code, by the fixed keyword scan over
    /// its lowercased text.
    pub fn detect_code_patterns(&self, code: &str) -> (r: Vec<String>)
        ensures
            r@.map_values(|s: String| s@) == spec_code_patterns(
                vstd::utf8::encode_utf8(lower_of(code@)),
            ),
            crate::text::spec_all_ascii(code@) ==> r@.map_values(|s: String| s@)
                == spec_code_patterns(vstd::utf8::encode_utf8(
                code@.map_values(|c: char| crate::text::spec_ascii_lower(c)),
            )),
            r@.len() > 0,
    {
        let lowered = crate::text::to_lowercase(code);
        let lb = lowered.as_str();
        let mut patterns: Vec<String> = Vec::new();
        if str_contains(lb, "async") || str_contains(lb, "await") {
            patterns.push("Asynchronous programming patterns".to_owned());
        }
        if str_contains(lb, "struct") || str_contains(lb, "class") {
            patterns.push("Object-oriented or struct-based design".to_owned());
        }
        if str_contains(lb, "fn ") || str_contains(lb, "def ") || str_contains(lb, "function") {
            patterns.push("Function definitions present".to_owned());
        }
        if str_contains(lb, "test") || str_contains(lb, "assert") {
            patterns.push("Testing code detected".to_owned());
        }
        if str_contains(lb, "error") || str_contains(lb, "result") {
            patterns.push("Error handling patterns".to_owned());
        }
        if patterns.len() == 0 {
            patterns.push("No specific patterns detected".to_owned());
        }
        proof {
            assert(patterns@.map_values(|s: String| s@) =~= spec_code_patterns(
                vstd::utf8::encode_utf8(lower_of(code@)),
            ));
        }
        patterns
    }

    /// The recommendation block for the code.
    pub fn code_recommendations(&self, code: &str) -> (r: &'static str)
        ensures
            r@ == spec_code_recommendations(vstd::utf8::encode_utf8(lower_of(code@))),
    {
        let lowered = crate::text::to_lowercase(code);
        let lb = lowered.as_str();
        if !str_contains(lb, "test") {
            "1. Consider adding unit tests\n2. Document public APIs\n3. Add error handling where appropriate\n"
        } else if !str_contains(lb, "//") && !str_contains(lb, "#") {
            "1. Add comments for complex logic\n2. Consider adding module-level documentation\n3. Review error handling coverage\n"
        } else {
            "1. Code structure looks reasonable\n2. Consider performance profiling if needed\n3. Review for security best practices\n"
        }
    }

    /// The content insights for text, joined as a dashed list.
    pub fn analyze_text_content(&self, text: &str) -> (r: String)
        ensures
            r@ == spec_join(
                spec_text_insights(
                    vstd::utf8::encode_utf8(lower_of(text@)),
                    vstd::utf8::encode_utf8(text@),
                ),
                "\n- "@,
            ),
    {
        let lowered = crate::text::to_lowercase(text);
        let lb = lowered.as_str();
        let mut insights: Vec<String> = Vec::new();
        if str_contains(lb, "introduction") || str_contains(lb, "conclusion") {
            insights.push("Structured document with formal sections".to_owned());
        }
        if str_contains(lb, "first") || str_contains(lb, "second") || str_contains(lb, "third") {
            insights.push("Enumerated or sequential content".to_owned());
        }
        if str_contains(text, "```") || str_contains(lb, "code") {
            insights.push("Contains code examples or technical content".to_owned());
        }
        if crate::text::count_byte(text.as_bytes(), 63) > 3 {
            insights.push("Question-driven or FAQ-style content".to_owned());
        }
        if insights.len() == 0 {
            insights.push("General prose content".to_owned());
        }
        proof {
            assert(insights@.map_values(|s: String| s@) =~= spec_text_insights(
                vstd::utf8::encode_utf8(lower_of(text@)),
                vstd::utf8::encode_utf8(text@),
            ));
        }
        crate::text::join_with(&insights, "\n- ")
    }

    /// The code analysis report: line metrics, the detected patterns,
    /// and the recommendations.
    pub fn analyze_code(&self, content: &TranslatedContent) -> (r: String)
        ensures
            r@.len() > 0,
    {
        let text = content.text.as_str();
        let stats = line_stats(text.as_bytes());
        let total = stats.0;
        let blank = stats.1;
        let comment = stats.2;
        // Blank and comment lines never overlap in practice; the guard
        // keeps the subtraction total even if they would.
        let code_lines = if total >= blank && total - blank >= comment {
            total - blank - comment
        } else {
            0
        };
        let mut report = String::new();
        report.append("# Code Analysis Report\n\n## Overview\n\nAnalyzed ");
        let t = crate::text::u64_to_string(total as u64);
        report.append(t.as_str());
        report.append(" lines of code.\n\n## Metrics\n\n- **Total lines**: ");
        report.append(t.as_str());
        report.append("\n- **Blank lines**: ");
        let b = crate::text::u64_to_string(blank as u64);
        report.append(b.as_str());
        report.append("\n- **Comment lines**: ");
        let c = crate::text::u64_to_string(comment as u64);
        report.append(c.as_str());
        report.append("\n- **Code lines**: ");
        let k = crate::text::u64_to_string(code_lines as u64);
        report.append(k.as_str());
        report.append("\n\n## Patterns Detected\n\n");
        let patterns = self.detect_code_patterns(text);
        let listed = bullets(&patterns);
        report.append(listed.as_str());
        report.append("\n## Recommendations\n\n");
        report.append(self.code_recommendations(text));
        proof {
            assert(r"# Code Analysis Report"@.len() > 0) by {
                reveal_strlit("# Code Analysis Report");
            }
            assert(report@.len() > 0) by {
                reveal_strlit("# Code Analysis Report\n\n## Overview\n\nAnalyzed ");
            }
        }
        report
    }

    /// The text analysis report: statistics, reading time and insights.
    /// Reading time assumes two hundred words a minute, rounded up.
    pub fn analyze_text(&self, content: &TranslatedContent) -> (r: String)
        ensures
            r@.len() > 0,
    {
        let text = content.text.as_str();
        let bytes = text.as_bytes();
        let words = count_words(bytes);
        let chars = text.unicode_len();
        let lines = line_stats(bytes).0;
        let paragraphs = count_paragraphs(bytes);
        let reading_time = words / 200 + if words % 200 != 0 {
            1
        } else {
            0
        };
        let mut report = String::new();
        report.append("# Text Analysis Report\n\n## Statistics\n\n- **Words**: ");
        let w = crate::text::u64_to_string(words as u64);
        report.append(w.as_str());
        report.append("\n- **Characters**: ");
        let c = crate::text::u64_to_string(chars as u64);
        report.append(c.as_str());
        report.append("\n- **Lines**: ");
        let l = crate::text::u64_to_string(lines as u64);
        report.append(l.as_str());
        report.append("\n- **Paragraphs**: ");
        let p = crate::text::u64_to_string(paragraphs as u64);
        report.append(p.as_str());
        report.append("\n\n## Reading Time\n\nApproximately ");
        let m = crate::text::u64_to_string(reading_time as u64);
        report.append(m.as_str());
        report.append(" minute(s)\n\n## Content Analysis\n\n");
        let insights = self.analyze_text_content(text);
        report.append(insights.as_str());
        proof {
            assert(report@.len() > 0) by {
                reveal_strlit("# Text Analysis Report\n\n## Statistics\n\n- **Words**: ");
            }
        }
        report
    }

    /// The structured-data report: a format guess, size figures, and
    /// fixed recommendations.
    pub fn analyze_structured(&self, content: &TranslatedContent) -> (r: String)
        ensures
            r@.len() > 0,
    {
        let text = content.text.as_str();
        let bytes = text.as_bytes();
        let mut report = String::new();
        report.append("# Structured Data Analysis\n\n## Format\n\n");
        let i = first_non_ws(bytes);
        let json_like = i < bytes.len() && bytes[i] == 123;
        if json_like {
            report.append("Detected format: JSON\n\n");
        } else if crate::bytes::str_contains(text, "---") {
            report.append("Detected format: YAML\n\n");
        } else if crate::bytes::str_contains(text, "<?xml") {
            report.append("Detected format: XML\n\n");
        } else {
            report.append("Format: Structured (unknown type)\n\n");
        }
        report.append("## Analysis\n\n- **Size**: ");
        let size = crate::text::u64_to_string(text.len() as u64);
        report.append(size.as_str());
        report.append(" bytes\n- **Lines**: ");
        let lines = crate::text::u64_to_string(line_stats(bytes).0 as u64);
        report.append(lines.as_str());
        report.append(
            "\n\n## Recommendations\n\n- Validate against schema if available\n- Consider compression for large datasets\n- Ensure proper escaping of special characters\n",
        );
        proof {
            assert(report@.len() > 0) by {
                reveal_strlit("# Structured Data Analysis\n\n## Format\n\n");
            }
        }
        report
    }

    /// The fallback report for any other content type.
    pub fn generic_analysis(&self, content: &TranslatedContent) -> (r: String)
        ensures
            r@.len() > 0,
    {
        let text = content.text.as_str();
        let mut report = String::new();
        report.append("# Analysis Report\n\n## Content Type\n");
        report.append(content.content_type.name());
        report.append("\n\n## Size\n- ");
        let size = crate::text::u64_to_string(text.len() as u64);
        report.append(size.as_str());
        report.append(" bytes\n- ");
        let lines = crate::text::u64_to_string(line_stats(text.as_bytes()).0 as u64);
        report.append(lines.as_str());
        report.append(" lines\n\n## Summary\n");
        match &content.summary {
            Some(summary) => report.append(summary.as_str()),
            None => report.append("No summary available"),
        }
        report.append(
            "\n\n## Next Steps\n1. Determine specific analysis requirements\n2. Apply domain-specific analysis tools\n3. Generate detailed insights\n\n## Available Analysis Types\n- **Code**: Complexity, patterns, quality metrics\n- **Text**: Readability, structure, sentiment\n- **Structured Data**: Schema validation, statistics\n- **Performance**: Bottlenecks, optimization opportunities\n- **Security**: Vulnerability assessment, best practices\n\nPlease specify the type of analysis needed for more detailed results.",
        );
        proof {
            assert(report@.len() > 0) by {
                reveal_strlit("# Analysis Report\n\n## Content Type\n");
            }
        }
        report
    }

    /// Analyze content by its type and wrap the report in one artifact.
    pub fn analyze(&self, content: &TranslatedContent) -> (r: (String, Vec<Artifact>))
        ensures
            r.0@.len() > 0,
            r.1@.len() == 1,
            r.1@[0].name@ == "analysis_report.md"@,
            r.1@[0].content@ == r.0@,
            r.1@[0].artifact_type@ == "analysis"@,
    {
        let analysis = match content.content_type {
            crate::orchestration::types::ContentType::Code => self.analyze_code(content),
            crate::orchestration::types::ContentType::Text => self.analyze_text(content),
            crate::orchestration::types::ContentType::Structured => self.analyze_structured(
                content,
            ),
            _ => self.generic_analysis(content),
        };
        let mut artifacts: Vec<Artifact> = Vec::new();
        artifacts.push(Artifact::new("analysis_report.md", analysis.as_str(), "analysis"));
        (analysis, artifacts)
    }

    /// Process content: always succeeds with the analysis report and its
    /// one artifact.
    pub fn process(&self, content: &TranslatedContent) -> (r: Result<ExpertResult, ExpertError>)
        ensures
            r is Ok,
            r->Ok_0.expert == ExpertType::Analyst,
            r->Ok_0.status == ResultStatus::Success,
            r->Ok_0.error is None,
            r->Ok_0.output@.len() > 0,
            r->Ok_0.artifacts@.len() == 1,
    {
        let (output, artifacts) = self.analyze(content);
        Ok(ExpertResult::success(ExpertType::Analyst, output).with_artifacts(artifacts))
    }
}

impl crate::orchestration::experts::Expert for AnalystExpert {
    fn expert_type(&self) -> ExpertType {
        ExpertType::Analyst
    }

    fn capabilities(&self) -> &'static str {
        "Researches topics and provides in-depth analysis (code, text, data, performance, security)"
    }
}

} // verus!
