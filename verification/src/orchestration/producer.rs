//! The producer expert: turns content into artifacts to be written out.
//! The writing itself is file I/O and belongs to the embedding
//! application; everything decided here — names, paths, artifact kinds —
//! is verified.

use vstd::prelude::*;
use vstd::string::StringExecFns;
use crate::orchestration::experts::ExpertError;
use crate::orchestration::types::{
    Artifact, ContentType, ExpertResult, ExpertType, ResultStatus, TranslatedContent,
};

verus! {

/// The producer: where its artifacts go.
pub struct ProducerExpert {
    output_dir: String,
}

/// The artifact kind the producer chooses for a content type.
pub open spec fn spec_artifact_kind(c: ContentType) -> Seq<char> {
    match c {
        ContentType::Code => "code"@,
        ContentType::Structured => "config"@,
        ContentType::Text => "document"@,
        _ => "generic"@,
    }
}

/// The file name the producer falls back to for a content type.
pub open spec fn spec_default_filename(c: ContentType) -> Seq<char> {
    match c {
        ContentType::Code => "generated.rs"@,
        ContentType::Structured => "config.json"@,
        ContentType::Text => "document.md"@,
        _ => "artifact.txt"@,
    }
}

impl ProducerExpert {
    pub closed spec fn spec_output_dir(&self) -> Seq<char> {
        self.output_dir@
    }

    /// The default producer, writing under `./artifacts`.
    pub fn new() -> (r: Self)
        ensures
            r.spec_output_dir() == "./artifacts"@,
    {
        ProducerExpert { output_dir: crate::orchestration::types::default_output_dir() }
    }

    /// A producer writing under the given directory.
    pub fn with_output_dir(output_dir: String) -> (r: Self)
        ensures
            r.spec_output_dir() == output_dir@,
    {
        ProducerExpert { output_dir }
    }

    pub fn expert_type(&self) -> (r: ExpertType)
        ensures
            r == ExpertType::Producer,
    {
        ExpertType::Producer
    }

    pub fn capabilities(&self) -> (r: &'static str)
        ensures
            r@ == "Creates files, artifacts, and structured outputs (code, configs, documents)"@,
    {
        "Creates files, artifacts, and structured outputs (code, configs, documents)"
    }

    /// Build one artifact: named by the content's `filename` metadata (or
    /// the default for `kind`'s content type), holding the content's
    /// text, placed under the output directory.
    fn build_artifact(&self, content: &TranslatedContent, kind: &str, fallback: &str) -> (r:
        Artifact)
        ensures
            r.content@ == content.text@,
            r.artifact_type@ == kind@,
            r.path is Some && r.path->0@ == self.spec_output_dir() + "/"@ + r.name@,
            (forall|j: int|
                0 <= j < content.metadata@.len() ==> (#[trigger] content.metadata@[j]).0@
                    != "filename"@) ==> r.name@ == fallback@,
            (exists|j: int|
                0 <= j < content.metadata@.len() && (#[trigger] content.metadata@[j]).0@
                    == "filename"@) ==> exists|j: int|
                0 <= j < content.metadata@.len() && (#[trigger] content.metadata@[j]).0@
                    == "filename"@ && content.metadata@[j].1@ == r.name@,
    {
        let filename = match content.metadata_get("filename") {
            Some(f) => crate::bytes::clone_string(f),
            None => fallback.to_owned(),
        };
        let mut path = crate::bytes::clone_string(&self.output_dir);
        path.append("/");
        path.append(filename.as_str());
        Artifact::new(filename.as_str(), content.text.as_str(), kind).with_path(path.as_str())
    }

    pub fn create_code_artifact(&self, content: &TranslatedContent) -> (r: Result<
        Artifact,
        ExpertError,
    >)
        ensures
            r is Ok,
            r->Ok_0.artifact_type@ == "code"@,
            r->Ok_0.content@ == content.text@,
    {
        Ok(self.build_artifact(content, "code", "generated.rs"))
    }

    pub fn create_config_artifact(&self, content: &TranslatedContent) -> (r: Result<
        Artifact,
        ExpertError,
    >)
        ensures
            r is Ok,
            r->Ok_0.artifact_type@ == "config"@,
            r->Ok_0.content@ == content.text@,
    {
        Ok(self.build_artifact(content, "config", "config.json"))
    }

    pub fn create_document_artifact(&self, content: &TranslatedContent) -> (r: Result<
        Artifact,
        ExpertError,
    >)
        ensures
            r is Ok,
            r->Ok_0.artifact_type@ == "document"@,
            r->Ok_0.content@ == content.text@,
    {
        Ok(self.build_artifact(content, "document", "document.md"))
    }

    pub fn create_generic_artifact(&self, content: &TranslatedContent) -> (r: Result<
        Artifact,
        ExpertError,
    >)
        ensures
            r is Ok,
            r->Ok_0.artifact_type@ == "generic"@,
            r->Ok_0.content@ == content.text@,
    {
        Ok(self.build_artifact(content, "generic", "artifact.txt"))
    }

    /// Choose by content type what artifact to create: code for code,
    /// config for structured data, document for text, generic otherwise.
    pub fn analyze_and_create(&self, content: &TranslatedContent) -> (r: Result<
        Vec<Artifact>,
        ExpertError,
    >)
        ensures
            r is Ok,
            r->Ok_0@.len() == 1,
            r->Ok_0@[0].artifact_type@ == spec_artifact_kind(content.content_type),
            r->Ok_0@[0].content@ == content.text@,
    {
        let mut artifacts: Vec<Artifact> = Vec::new();
        let a = match content.content_type {
            ContentType::Code => self.create_code_artifact(content),
            ContentType::Structured => self.create_config_artifact(content),
            ContentType::Text => self.create_document_artifact(content),
            _ => self.create_generic_artifact(content),
        };
        match a {
            Ok(artifact) => {
                artifacts.push(artifact);
                Ok(artifacts)
            },
            Err(e) => Err(e),
        }
    }

    /// Decide the artifacts for the content and describe what was
    /// created.  Writing the artifacts to disk is the embedding
    /// application's step, taken from the result's artifact list.
    pub fn process(&self, content: &TranslatedContent) -> (r: Result<ExpertResult, ExpertError>)
        ensures
            r is Ok,
            r->Ok_0.expert == ExpertType::Producer,
            r->Ok_0.status == ResultStatus::Success,
            r->Ok_0.error is None,
            r->Ok_0.artifacts@.len() == 1,
            r->Ok_0.artifacts@[0].artifact_type@ == spec_artifact_kind(content.content_type),
    {
        let artifacts = match self.analyze_and_create(content) {
            Ok(a) => a,
            Err(e) => {
                return Err(e);
            },
        };
        let mut output = String::new();
        output.append("Created ");
        let count = crate::text::u64_to_string(artifacts.len() as u64);
        output.append(count.as_str());
        output.append(" artifact(s):\n");
        let n = artifacts.len();
        let mut i: usize = 0;
        while i < n
            invariant
                n == artifacts@.len(),
                0 <= i <= n,
            decreases n - i,
        {
            if i > 0 {
                output.append("\n");
            }
            output.append("  - ");
            output.append(artifacts[i].name.as_str());
            output.append(" (");
            output.append(artifacts[i].artifact_type.as_str());
            output.append(")");
            i += 1;
        }
        Ok(ExpertResult::success(ExpertType::Producer, output).with_artifacts(artifacts))
    }
}

impl crate::orchestration::experts::Expert for ProducerExpert {
    fn expert_type(&self) -> ExpertType {
        ExpertType::Producer
    }

    fn capabilities(&self) -> &'static str {
        "Creates files, artifacts, and structured outputs (code, configs, documents)"
    }
}

} // verus!
