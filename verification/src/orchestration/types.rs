//! Core data of the orchestration layer: content classification, expert
//! taxonomy, routing decisions, artifacts and results.

use vstd::prelude::*;
use vstd::string::StringSliceAdditionalSpecFns;
use crate::bytes::str_eq;

verus! {

/// The kind of content being processed.
#[derive(Debug, Clone, Copy, PartialEq, Eq, Structural)]
pub enum ContentType {
    Text,
    Code,
    Document,
    Audio,
    Video,
    Image,
    Archive,
    /// JSON, YAML, XML and similar.
    Structured,
    Unknown,
}

/// The content type that a (lowercased) file extension names.
pub open spec fn spec_content_type(e: Seq<char>) -> ContentType {
    if e == "txt"@ || e == "md"@ || e == "markdown"@ {
        ContentType::Text
    } else if e == "rs"@ || e == "py"@ || e == "js"@ || e == "ts"@ || e == "go"@ || e == "c"@
        || e == "cpp"@ || e == "java"@ || e == "rb"@ || e == "php"@ || e == "sh"@ || e == "bash"@
        || e == "zsh"@ {
        ContentType::Code
    } else if e == "pdf"@ || e == "doc"@ || e == "docx"@ || e == "odt"@ || e == "rtf"@ {
        ContentType::Document
    } else if e == "mp3"@ || e == "wav"@ || e == "flac"@ || e == "ogg"@ || e == "m4a"@ || e
        == "aac"@ {
        ContentType::Audio
    } else if e == "mp4"@ || e == "avi"@ || e == "mkv"@ || e == "mov"@ || e == "webm"@ || e
        == "flv"@ {
        ContentType::Video
    } else if e == "jpg"@ || e == "jpeg"@ || e == "png"@ || e == "gif"@ || e == "svg"@ || e
        == "webp"@ || e == "bmp"@ {
        ContentType::Image
    } else if e == "zip"@ || e == "tar"@ || e == "gz"@ || e == "7z"@ || e == "rar"@ || e == "bz2"@ {
        ContentType::Archive
    } else if e == "json"@ || e == "yaml"@ || e == "yml"@ || e == "xml"@ || e == "toml"@ || e
        == "csv"@ {
        ContentType::Structured
    } else {
        ContentType::Unknown
    }
}

impl ContentType {
    /// Detect the content type from a file extension, case-insensitively.
    pub fn from_extension(ext: &str) -> (r: ContentType)
        ensures
            r == spec_content_type(crate::text::lower_of(ext@)),
            crate::text::spec_all_ascii(ext@) ==> r == spec_content_type(
                ext@.map_values(|c: char| crate::text::spec_ascii_lower(c)),
            ),
    {
        let e = crate::text::to_lowercase(ext);
        let s = e.as_str();
        if str_eq(s, "txt") || str_eq(s, "md") || str_eq(s, "markdown") {
            ContentType::Text
        } else if str_eq(s, "rs") || str_eq(s, "py") || str_eq(s, "js") || str_eq(s, "ts")
            || str_eq(s, "go") || str_eq(s, "c") || str_eq(s, "cpp") || str_eq(s, "java") || str_eq(
            s,
            "rb",
        ) || str_eq(s, "php") || str_eq(s, "sh") || str_eq(s, "bash") || str_eq(s, "zsh") {
            ContentType::Code
        } else if str_eq(s, "pdf") || str_eq(s, "doc") || str_eq(s, "docx") || str_eq(s, "odt")
            || str_eq(s, "rtf") {
            ContentType::Document
        } else if str_eq(s, "mp3") || str_eq(s, "wav") || str_eq(s, "flac") || str_eq(s, "ogg")
            || str_eq(s, "m4a") || str_eq(s, "aac") {
            ContentType::Audio
        } else if str_eq(s, "mp4") || str_eq(s, "avi") || str_eq(s, "mkv") || str_eq(s, "mov")
            || str_eq(s, "webm") || str_eq(s, "flv") {
            ContentType::Video
        } else if str_eq(s, "jpg") || str_eq(s, "jpeg") || str_eq(s, "png") || str_eq(s, "gif")
            || str_eq(s, "svg") || str_eq(s, "webp") || str_eq(s, "bmp") {
            ContentType::Image
        } else if str_eq(s, "zip") || str_eq(s, "tar") || str_eq(s, "gz") || str_eq(s, "7z")
            || str_eq(s, "rar") || str_eq(s, "bz2") {
            ContentType::Archive
        } else if str_eq(s, "json") || str_eq(s, "yaml") || str_eq(s, "yml") || str_eq(s, "xml")
            || str_eq(s, "toml") || str_eq(s, "csv") {
            ContentType::Structured
        } else {
            ContentType::Unknown
        }
    }

    /// A stable name for the content type (used in reports and notes).
    pub fn name(&self) -> (r: &'static str)
        ensures
            r@ == spec_content_type_name(*self),
    {
        match self {
            ContentType::Text => "Text",
            ContentType::Code => "Code",
            ContentType::Document => "Document",
            ContentType::Audio => "Audio",
            ContentType::Video => "Video",
            ContentType::Image => "Image",
            ContentType::Archive => "Archive",
            ContentType::Structured => "Structured",
            ContentType::Unknown => "Unknown",
        }
    }
}

/// The name `ContentType::name` renders.
pub open spec fn spec_content_type_name(c: ContentType) -> Seq<char> {
    match c {
        ContentType::Text => "Text"@,
        ContentType::Code => "Code"@,
        ContentType::Document => "Document"@,
        ContentType::Audio => "Audio"@,
        ContentType::Video => "Video"@,
        ContentType::Image => "Image"@,
        ContentType::Archive => "Archive"@,
        ContentType::Structured => "Structured"@,
        ContentType::Unknown => "Unknown"@,
    }
}

/// Content after translation into structured text form.
#[derive(Debug)]
pub struct TranslatedContent {
    pub content_type: ContentType,
    pub text: String,
    /// Key/value annotations, in insertion order.
    pub metadata: Vec<(String, String)>,
    pub summary: Option<String>,
}

impl TranslatedContent {
    pub fn new(content_type: ContentType, text: String) -> (r: Self)
        ensures
            r.content_type == content_type,
            r.text@ == text@,
            r.metadata@.len() == 0,
            r.summary is None,
    {
        TranslatedContent { content_type, text, metadata: Vec::new(), summary: None }
    }

    /// Add one metadata entry; earlier entries are kept.
    pub fn with_metadata(self, key: &str, value: &str) -> (r: Self)
        ensures
            r.content_type == self.content_type,
            r.text@ == self.text@,
            r.summary == self.summary,
            r.metadata@.len() == self.metadata@.len() + 1,
            forall|j: int|
                0 <= j < self.metadata@.len() ==> #[trigger] r.metadata@[j] == self.metadata@[j],
            r.metadata@.last().0@ == key@,
            r.metadata@.last().1@ == value@,
    {
        let mut m = self;
        m.metadata.push((key.to_owned(), value.to_owned()));
        m
    }

    /// Set the summary; anything set before is replaced.
    pub fn with_summary(self, summary: &str) -> (r: Self)
        ensures
            r.content_type == self.content_type,
            r.text@ == self.text@,
            r.metadata == self.metadata,
            r.summary is Some && r.summary->0@ == summary@,
    {
        let mut m = self;
        m.summary = Some(summary.to_owned());
        m
    }

    /// The value stored under `key`, if any (the first entry wins).
    pub fn metadata_get(&self, key: &str) -> (r: Option<&String>)
        ensures
            r is Some ==> exists|j: int|
                0 <= j < self.metadata@.len() && (#[trigger] self.metadata@[j]).0@ == key@
                    && self.metadata@[j].1@ == r->0@,
            r is None ==> forall|j: int|
                0 <= j < self.metadata@.len() ==> (#[trigger] self.metadata@[j]).0@ != key@,
    {
        let n = self.metadata.len();
        let mut i: usize = 0;
        while i < n
            invariant
                n == self.metadata@.len(),
                0 <= i <= n,
                forall|j: int| 0 <= j < i ==> (#[trigger] self.metadata@[j]).0@ != key@,
            decreases n - i,
        {
            if str_eq(self.metadata[i].0.as_str(), key) {
                return Some(&self.metadata[i].1);
            }
            i += 1;
        }
        None
    }
}

/// Expert specializations.
#[derive(Debug, Clone, Copy, PartialEq, Eq, Hash, Structural)]
pub enum ExpertType {
    /// Creates artifacts and files.
    Producer,
    /// Generates creative content.
    Artist,
    /// Documents in a notes vault.
    Scribe,
    /// Executes actions with tools.
    Agent,
    /// Research and analysis.
    Analyst,
}

/// The short name of an expert type.
pub open spec fn spec_expert_name(e: ExpertType) -> Seq<char> {
    match e {
        ExpertType::Producer => "Producer"@,
        ExpertType::Artist => "Artist"@,
        ExpertType::Scribe => "Scribe"@,
        ExpertType::Agent => "Agent"@,
        ExpertType::Analyst => "Analyst"@,
    }
}

/// The one-line description of an expert type.
pub open spec fn spec_expert_description(e: ExpertType) -> Seq<char> {
    match e {
        ExpertType::Producer => "Creates files, artifacts, and structured outputs"@,
        ExpertType::Artist => "Generates creative content (stories, images, designs)"@,
        ExpertType::Scribe => "Documents information in Obsidian vault"@,
        ExpertType::Agent => "Executes actions using available tools"@,
        ExpertType::Analyst => "Researches topics and provides analysis"@,
    }
}

impl ExpertType {
    pub fn as_str(&self) -> (r: &'static str)
        ensures
            r@ == spec_expert_name(*self),
            r@.len() > 0,
    {
        proof {
            reveal_strlit("Producer");
            reveal_strlit("Artist");
            reveal_strlit("Scribe");
            reveal_strlit("Agent");
            reveal_strlit("Analyst");
        }
        match self {
            ExpertType::Producer => "Producer",
            ExpertType::Artist => "Artist",
            ExpertType::Scribe => "Scribe",
            ExpertType::Agent => "Agent",
            ExpertType::Analyst => "Analyst",
        }
    }

    pub fn description(&self) -> (r: &'static str)
        ensures
            r@ == spec_expert_description(*self),
            r@.len() > 0,
    {
        proof {
            reveal_strlit("Creates files, artifacts, and structured outputs");
            reveal_strlit("Generates creative content (stories, images, designs)");
            reveal_strlit("Documents information in Obsidian vault");
            reveal_strlit("Executes actions using available tools");
            reveal_strlit("Researches topics and provides analysis");
        }
        match self {
            ExpertType::Producer => "Creates files, artifacts, and structured outputs",
            ExpertType::Artist => "Generates creative content (stories, images, designs)",
            ExpertType::Scribe => "Documents information in Obsidian vault",
            ExpertType::Agent => "Executes actions using available tools",
            ExpertType::Analyst => "Researches topics and provides analysis",
        }
    }
}

/// How the chosen experts are run.
#[derive(Debug, Clone, Copy, PartialEq, Eq, Structural)]
pub enum ExecutionMode {
    /// All experts run simultaneously.
    Parallel,
    /// Experts run one after another.
    Sequential,
}

/// A routing decision: which experts handle the content, why, and how.
#[derive(Debug)]
pub struct RoutingDecision {
    pub experts: Vec<ExpertType>,
    pub reasoning: String,
    pub execution: ExecutionMode,
}

/// Status of an expert's processing.
#[derive(Debug, Clone, Copy, PartialEq, Eq, Structural)]
pub enum ResultStatus {
    Success,
    /// Completed with warnings.
    Partial,
    Failed,
}

/// An artifact produced by an expert.
#[derive(Debug)]
pub struct Artifact {
    pub name: String,
    pub content: String,
    /// A free-form tag: "file", "note", "report" and the like.
    pub artifact_type: String,
    /// Where the artifact is to be written, if anywhere.
    pub path: Option<String>,
}

impl Artifact {
    pub fn new(name: &str, content: &str, artifact_type: &str) -> (r: Self)
        ensures
            r.name@ == name@,
            r.content@ == content@,
            r.artifact_type@ == artifact_type@,
            r.path is None,
    {
        Artifact {
            name: name.to_owned(),
            content: content.to_owned(),
            artifact_type: artifact_type.to_owned(),
            path: None,
        }
    }

    pub fn with_path(self, path: &str) -> (r: Self)
        ensures
            r.name@ == self.name@,
            r.content@ == self.content@,
            r.artifact_type@ == self.artifact_type@,
            r.path is Some && r.path->0@ == path@,
    {
        let mut a = self;
        a.path = Some(path.to_owned());
        a
    }
}

/// What one expert produced.
#[derive(Debug)]
pub struct ExpertResult {
    pub expert: ExpertType,
    pub output: String,
    pub artifacts: Vec<Artifact>,
    pub status: ResultStatus,
    pub error: Option<String>,
}

impl ExpertResult {
    /// A successful result carrying `output` and no artifacts yet.
    pub fn success(expert: ExpertType, output: String) -> (r: Self)
        ensures
            r.expert == expert,
            r.output@ == output@,
            r.artifacts@.len() == 0,
            r.status == ResultStatus::Success,
            r.error is None,
    {
        ExpertResult {
            expert,
            output,
            artifacts: Vec::new(),
            status: ResultStatus::Success,
            error: None,
        }
    }

    /// A failed result carrying the error text and empty output.
    pub fn failed(expert: ExpertType, error: String) -> (r: Self)
        ensures
            r.expert == expert,
            r.output@.len() == 0,
            r.artifacts@.len() == 0,
            r.status == ResultStatus::Failed,
            r.error is Some && r.error->0@ == error@,
    {
        ExpertResult {
            expert,
            output: String::new(),
            artifacts: Vec::new(),
            status: ResultStatus::Failed,
            error: Some(error),
        }
    }

    /// Replace the artifacts, keeping everything else.
    pub fn with_artifacts(self, artifacts: Vec<Artifact>) -> (r: Self)
        ensures
            r.expert == self.expert,
            r.output@ == self.output@,
            r.artifacts == artifacts,
            r.status == self.status,
            r.error == self.error,
    {
        let mut m = self;
        m.artifacts = artifacts;
        m
    }
}

/// Configuration of individual experts.
#[derive(Debug)]
pub struct ExpertConfig {
    pub producer: ProducerConfig,
    pub scribe: ScribeConfig,
    pub agent: AgentConfig,
}

impl Default for ExpertConfig {
    fn default() -> (r: Self) {
        ExpertConfig {
            producer: ProducerConfig::default(),
            scribe: ScribeConfig::default(),
            agent: AgentConfig::default(),
        }
    }
}

/// Where the producer writes artifacts, and its default language.
#[derive(Debug)]
pub struct ProducerConfig {
    pub output_dir: String,
    pub default_language: String,
}

pub fn default_output_dir() -> (r: String)
    ensures
        r@ == "./artifacts"@,
{
    "./artifacts".to_owned()
}

pub fn default_language() -> (r: String)
    ensures
        r@ == "rust"@,
{
    "rust".to_owned()
}

impl Default for ProducerConfig {
    fn default() -> (r: Self)
        ensures
            r.output_dir@ == "./artifacts"@,
            r.default_language@ == "rust"@,
    {
        ProducerConfig { output_dir: default_output_dir(), default_language: default_language() }
    }
}

/// Where the scribe's vault lives and its default note location.
#[derive(Debug)]
pub struct ScribeConfig {
    pub vault_path: String,
    pub default_location: String,
}

pub fn default_vault_location() -> (r: String)
    ensures
        r@ == "Clarity"@,
{
    "Clarity".to_owned()
}

impl Default for ScribeConfig {
    fn default() -> (r: Self)
        ensures
            r.vault_path@ == "./vault"@,
            r.default_location@ == "Clarity"@,
    {
        ScribeConfig { vault_path: "./vault".to_owned(), default_location: default_vault_location() }
    }
}

/// Which tools the agent may use and whether destructive actions need
/// confirmation.
#[derive(Debug)]
pub struct AgentConfig {
    pub confirm_destructive: bool,
    pub allowed_tools: Vec<String>,
}

pub fn default_confirm() -> (r: bool)
    ensures
        r,
{
    true
}

pub fn default_allowed_tools() -> (r: Vec<String>)
    ensures
        r@.len() == 3,
        r@[0]@ == "bash"@,
        r@[1]@ == "http"@,
        r@[2]@ == "file"@,
{
    let mut v: Vec<String> = Vec::new();
    v.push("bash".to_owned());
    v.push("http".to_owned());
    v.push("file".to_owned());
    v
}

impl Default for AgentConfig {
    fn default() -> (r: Self)
        ensures
            r.confirm_destructive,
            r.allowed_tools@.len() == 3,
    {
        AgentConfig { confirm_destructive: default_confirm(), allowed_tools: default_allowed_tools() }
    }
}

} // verus!
