//! The artist expert: creative suggestions shaped by the content.

use vstd::prelude::*;
use vstd::string::{StringExecFns, StringSliceAdditionalSpecFns};
use crate::bytes::{is_sub, str_contains};
use crate::orchestration::experts::ExpertError;
use crate::orchestration::types::{
    spec_content_type_name, Artifact, ExpertResult, ExpertType, ResultStatus, TranslatedContent,
};
use crate::text::lower_of;

verus! {

/// The artist expert; it carries no state yet.
pub struct ArtistExpert {
}

/// The story-structure suggestion.
pub open spec fn spec_story() -> Seq<char> {
    "## Story Structure Suggestion\n\n**Three-Act Structure:**\n1. **Setup** - Introduce characters, setting, and initial conflict\n2. **Confrontation** - Build tension, complications arise\n3. **Resolution** - Climax and denouement\n\n**Key Elements:**\n- Compelling protagonist with clear motivation\n- Escalating stakes\n- Satisfying resolution\n\nWould you like me to develop a specific story outline?"@
}

/// The poetry-format suggestion.
pub open spec fn spec_poetry() -> Seq<char> {
    "## Poetry Format Suggestions\n\n**Potential Forms:**\n- **Free Verse** - No strict meter or rhyme\n- **Haiku** - 5-7-5 syllable pattern\n- **Sonnet** - 14 lines with specific rhyme scheme\n- **Limerick** - Humorous 5-line form\n\n**Poetic Devices to Consider:**\n- Metaphor and simile\n- Alliteration\n- Imagery\n- Enjambment\n\nWhat tone or theme would you like to explore?"@
}

/// The visual-representation suggestion.
pub open spec fn spec_visual() -> Seq<char> {
    "## Visual Representation\n\n**Diagram Formats:**\n- Flowcharts\n- Architecture diagrams\n- Mind maps\n- Entity-relationship diagrams\n\nWould you like me to create a specific diagram?"@
}

/// The design-approach suggestion.
pub open spec fn spec_design() -> Seq<char> {
    "## Design Approach\n\n**Key Principles:**\n- **Balance** - Visual equilibrium\n- **Contrast** - Highlighting important elements\n- **Hierarchy** - Clear information flow\n- **Whitespace** - Breathing room\n- **Consistency** - Unified aesthetic\n\n**Process:**\n1. Understand requirements\n2. Sketch wireframes\n3. Define visual language\n4. Iterate and refine\n\nWhat type of design are you envisioning?"@
}

/// The generic creative response for a content type.
pub open spec fn spec_generic_creative(c: &TranslatedContent) -> Seq<char> {
    "## Creative Analysis\n\n**Content Type:** "@ + spec_content_type_name(c.content_type)
        + "\n\n**Creative Opportunities:**\n- Transform into engaging narrative\n- Add visual elements or diagrams\n- Apply artistic styling\n- Enhance with creative metaphors\n- Structure for maximum impact\n\n**Recommendations:**\nBased on the content, I can help with:\n1. Creative writing (stories, poems, essays)\n2. Visual representations (diagrams)\n3. Design mockups and layouts\n4. Engaging presentations\n\nWhat creative direction would you like to pursue?"@
}

/// Which creative block the lowercased text selects.
pub open spec fn spec_creative_intent(c: &TranslatedContent) -> Seq<char> {
    let lb = vstd::utf8::encode_utf8(lower_of(c.text@));
    "# Creative Content Generation\n\n"@ + if is_sub(lb, "story".spec_bytes()) || is_sub(
        lb,
        "narrative".spec_bytes(),
    ) {
        spec_story()
    } else if is_sub(lb, "poem".spec_bytes()) || is_sub(lb, "verse".spec_bytes()) {
        spec_poetry()
    } else if is_sub(lb, "diagram".spec_bytes()) || is_sub(lb, "visual".spec_bytes()) {
        spec_visual()
    } else if is_sub(lb, "design".spec_bytes()) || is_sub(lb, "layout".spec_bytes()) {
        spec_design()
    } else {
        spec_generic_creative(c)
    }
}

impl ArtistExpert {
    pub fn new() -> (r: Self) {
        ArtistExpert {  }
    }

    pub fn expert_type(&self) -> (r: ExpertType)
        ensures
            r == ExpertType::Artist,
    {
        ExpertType::Artist
    }

    pub fn capabilities(&self) -> (r: &'static str)
        ensures
            r@ == "Generates creative content (stories, poems, designs, visual layouts)"@,
    {
        "Generates creative content (stories, poems, designs, visual layouts)"
    }

    pub fn suggest_story_structure(&self) -> (r: &'static str)
        ensures
            r@ == spec_story(),
    {
        "## Story Structure Suggestion\n\n**Three-Act Structure:**\n1. **Setup** - Introduce characters, setting, and initial conflict\n2. **Confrontation** - Build tension, complications arise\n3. **Resolution** - Climax and denouement\n\n**Key Elements:**\n- Compelling protagonist with clear motivation\n- Escalating stakes\n- Satisfying resolution\n\nWould you like me to develop a specific story outline?"
    }

    pub fn suggest_poetry_format(&self) -> (r: &'static str)
        ensures
            r@ == spec_poetry(),
    {
        "## Poetry Format Suggestions\n\n**Potential Forms:**\n- **Free Verse** - No strict meter or rhyme\n- **Haiku** - 5-7-5 syllable pattern\n- **Sonnet** - 14 lines with specific rhyme scheme\n- **Limerick** - Humorous 5-line form\n\n**Poetic Devices to Consider:**\n- Metaphor and simile\n- Alliteration\n- Imagery\n- Enjambment\n\nWhat tone or theme would you like to explore?"
    }

    pub fn suggest_visual_representation(&self) -> (r: &'static str)
        ensures
            r@ == spec_visual(),
    {
        "## Visual Representation\n\n**Diagram Formats:**\n- Flowcharts\n- Architecture diagrams\n- Mind maps\n- Entity-relationship diagrams\n\nWould you like me to create a specific diagram?"
    }

    pub fn suggest_design_approach(&self) -> (r: &'static str)
        ensures
            r@ == spec_design(),
    {
        "## Design Approach\n\n**Key Principles:**\n- **Balance** - Visual equilibrium\n- **Contrast** - Highlighting important elements\n- **Hierarchy** - Clear information flow\n- **Whitespace** - Breathing room\n- **Consistency** - Unified aesthetic\n\n**Process:**\n1. Understand requirements\n2. Sketch wireframes\n3. Define visual language\n4. Iterate and refine\n\nWhat type of design are you envisioning?"
    }

    /// The generic creative response naming the content type.
    pub fn generic_creative_response(&self, content: &TranslatedContent) -> (r: String)
        ensures
            r@ == spec_generic_creative(content),
    {
        let mut out = String::new();
        out.append("## Creative Analysis\n\n**Content Type:** ");
        out.append(content.content_type.name());
        out.append(
            "\n\n**Creative Opportunities:**\n- Transform into engaging narrative\n- Add visual elements or diagrams\n- Apply artistic styling\n- Enhance with creative metaphors\n- Structure for maximum impact\n\n**Recommendations:**\nBased on the content, I can help with:\n1. Creative writing (stories, poems, essays)\n2. Visual representations (diagrams)\n3. Design mockups and layouts\n4. Engaging presentations\n\nWhat creative direction would you like to pursue?",
        );
        out
    }

    /// Choose the creative direction the lowercased text asks for:
    /// stories, poetry, diagrams or design, else the generic response.
    pub fn analyze_creative_intent(&self, content: &TranslatedContent) -> (r: String)
        ensures
            r@ == spec_creative_intent(content),
    {
        let lowered = crate::text::to_lowercase(content.text.as_str());
        let lb = lowered.as_str();
        let mut out = String::new();
        out.append("# Creative Content Generation\n\n");
        if str_contains(lb, "story") || str_contains(lb, "narrative") {
            out.append(self.suggest_story_structure());
        } else if str_contains(lb, "poem") || str_contains(lb, "verse") {
            out.append(self.suggest_poetry_format());
        } else if str_contains(lb, "diagram") || str_contains(lb, "visual") {
            out.append(self.suggest_visual_representation());
        } else if str_contains(lb, "design") || str_contains(lb, "layout") {
            out.append(self.suggest_design_approach());
        } else {
            let g = self.generic_creative_response(content);
            out.append(g.as_str());
        }
        out
    }

    /// The creative output together with its one artifact.
    pub fn create_content(&self, content: &TranslatedContent) -> (r: (String, Vec<Artifact>))
        ensures
            r.0@ == spec_creative_intent(content),
            r.1@.len() == 1,
            r.1@[0].name@ == "creative_output.md"@,
            r.1@[0].content@ == spec_creative_intent(content),
            r.1@[0].artifact_type@ == "creative"@,
    {
        let creative_output = self.analyze_creative_intent(content);
        let mut artifacts: Vec<Artifact> = Vec::new();
        artifacts.push(Artifact::new("creative_output.md", creative_output.as_str(), "creative"));
        (creative_output, artifacts)
    }

    /// Process content: always succeeds with the creative output and its
    /// artifact.
    pub fn process(&self, content: &TranslatedContent) -> (r: Result<ExpertResult, ExpertError>)
        ensures
            r is Ok,
            r->Ok_0.expert == ExpertType::Artist,
            r->Ok_0.status == ResultStatus::Success,
            r->Ok_0.error is None,
            r->Ok_0.output@ == spec_creative_intent(content),
            r->Ok_0.artifacts@.len() == 1,
    {
        let (output, artifacts) = self.create_content(content);
        Ok(ExpertResult::success(ExpertType::Artist, output).with_artifacts(artifacts))
    }
}

impl crate::orchestration::experts::Expert for ArtistExpert {
    fn expert_type(&self) -> ExpertType {
        ExpertType::Artist
    }

    fn capabilities(&self) -> &'static str {
        "Generates creative content (stories, poems, designs, visual layouts)"
    }
}

} // verus!
