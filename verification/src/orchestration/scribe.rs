//! The scribe expert: renders content as a note for a markdown vault.
//! Deciding the note's place and name is verified here; writing the note
//! is file I/O and belongs to the embedding application.

use vstd::prelude::*;
use vstd::string::StringExecFns;
use crate::orchestration::types::ExpertType;
use crate::orchestration::types::TranslatedContent;
use crate::text::lemma_ascii_bytes_valid_utf8;

verus! {

/// One byte of a note title, sanitized for a file name: letters, digits,
/// spaces and dashes stay; everything else becomes an underscore.
pub open spec fn spec_sanitize_byte(b: u8) -> u8 {
    if (48 <= b <= 57) || (65 <= b <= 90) || (97 <= b <= 122) || b == 32 || b == 45 {
        b
    } else {
        95
    }
}

/// A title sanitized byte by byte.
pub open spec fn spec_sanitized(s: Seq<u8>) -> Seq<u8> {
    s.map_values(|b: u8| spec_sanitize_byte(b))
}

/// The sanitized title as characters.
pub open spec fn spec_sanitized_chars(title: Seq<char>) -> Seq<char> {
    spec_sanitized(vstd::utf8::encode_utf8(title)).map_values(|b: u8| b as char)
}

/// The vault-relative path of a note: vault, location, sanitized title,
/// the `.md` suffix.
pub open spec fn spec_note_path(vault: Seq<char>, location: Seq<char>, title: Seq<char>) -> Seq<
    char,
> {
    vault + "/"@ + location + "/"@ + spec_sanitized_chars(title) + ".md"@
}

/// The scribe: where its vault lives and the default note location.
pub struct ScribeExpert {
    vault_path: String,
    default_location: String,
}

impl ScribeExpert {
    pub closed spec fn spec_vault_path(&self) -> Seq<char> {
        self.vault_path@
    }

    pub closed spec fn spec_default_location(&self) -> Seq<char> {
        self.default_location@
    }

    /// The default scribe, writing under `./vault` (the embedding
    /// application may point it at a home-directory vault instead).
    pub fn new() -> (r: Self)
        ensures
            r.spec_vault_path() == "./vault"@,
            r.spec_default_location() == "Clarity"@,
    {
        ScribeExpert {
            vault_path: "./vault".to_owned(),
            default_location: crate::orchestration::types::default_vault_location(),
        }
    }

    /// A scribe writing into the given vault.
    pub fn with_vault(vault_path: String) -> (r: Self)
        ensures
            r.spec_vault_path() == vault_path@,
            r.spec_default_location() == "Clarity"@,
    {
        ScribeExpert {
            vault_path,
            default_location: crate::orchestration::types::default_vault_location(),
        }
    }

    pub fn expert_type(&self) -> (r: ExpertType)
        ensures
            r == ExpertType::Scribe,
    {
        ExpertType::Scribe
    }

    pub fn capabilities(&self) -> (r: &'static str)
        ensures
            r@ == "Documents information in Obsidian vault with proper formatting, tags, and backlinks"@,
    {
        "Documents information in Obsidian vault with proper formatting, tags, and backlinks"
    }

    /// Sanitize a title for use as a file name.
    fn sanitize_title(title: &str) -> (r: String)
        ensures
            r@ == spec_sanitized_chars(title@),
    {
        let bytes = title.as_bytes();
        let n = bytes.len();
        let mut out: Vec<u8> = Vec::new();
        let mut i: usize = 0;
        while i < n
            invariant
                n == bytes@.len(),
                0 <= i <= n,
                out@ == spec_sanitized(bytes@.subrange(0, i as int)),
            decreases n - i,
        {
            let b = bytes[i];
            let keep = (48 <= b && b <= 57) || (65 <= b && b <= 90) || (97 <= b && b <= 122) || b
                == 32 || b == 45;
            out.push(if keep { b } else { 95 });
            proof {
                assert(out@ =~= spec_sanitized(bytes@.subrange(0, i + 1)));
            }
            i += 1;
        }
        proof {
            assert(bytes@.subrange(0, n as int) =~= bytes@);
            assert(forall|j: int| 0 <= j < out@.len() ==> #[trigger] out@[j] < 128);
            lemma_ascii_bytes_valid_utf8(out@);
        }
        match crate::text::utf8_to_string(out.as_slice()) {
            Some(s) => s,
            None => vstd::pervasive::unreached(),
        }
    }

    /// Where a note with this title goes: under the vault, in the
    /// location the content's `vault_location` metadata names (or the
    /// default location), as a sanitized-title markdown file.
    pub fn determine_note_path(&self, content: &TranslatedContent, title: &str) -> (r: String)
        ensures
            (forall|j: int|
                0 <= j < content.metadata@.len() ==> (#[trigger] content.metadata@[j]).0@
                    != "vault_location"@) ==> r@ == spec_note_path(
                self.spec_vault_path(),
                self.spec_default_location(),
                title@,
            ),
            (exists|j: int|
                0 <= j < content.metadata@.len() && (#[trigger] content.metadata@[j]).0@
                    == "vault_location"@) ==> exists|j: int|
                0 <= j < content.metadata@.len() && (#[trigger] content.metadata@[j]).0@
                    == "vault_location"@ && r@ == spec_note_path(
                    self.spec_vault_path(),
                    content.metadata@[j].1@,
                    title@,
                ),
    {
        let location = match content.metadata_get("vault_location") {
            Some(l) => crate::bytes::clone_string(l),
            None => crate::bytes::clone_string(&self.default_location),
        };
        let sanitized = Self::sanitize_title(title);
        let mut path = crate::bytes::clone_string(&self.vault_path);
        path.append("/");
        path.append(location.as_str());
        path.append("/");
        path.append(sanitized.as_str());
        path.append(".md");
        path
    }
}

impl crate::orchestration::experts::Expert for ScribeExpert {
    fn expert_type(&self) -> ExpertType {
        ExpertType::Scribe
    }

    fn capabilities(&self) -> &'static str {
        "Documents information in Obsidian vault with proper formatting, tags, and backlinks"
    }
}

} // verus!
