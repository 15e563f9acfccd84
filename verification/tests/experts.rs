//! The experts: taxonomy, registry, and each expert's decisions.

use clarity::orchestration::agent::AgentExpert;
use clarity::orchestration::analyst::AnalystExpert;
use clarity::orchestration::artist::ArtistExpert;
use clarity::orchestration::experts::{ExpertRegistry, RegisteredExpert};
use clarity::orchestration::producer::ProducerExpert;
use clarity::orchestration::scribe::ScribeExpert;
use clarity::orchestration::types::{
    Artifact, ContentType, ExpertResult, ExpertType, ResultStatus, TranslatedContent,
};

#[test]
fn test_content_type_detection() {
    assert_eq!(ContentType::from_extension("rs"), ContentType::Code);
    assert_eq!(ContentType::from_extension("mp3"), ContentType::Audio);
    assert_eq!(ContentType::from_extension("json"), ContentType::Structured);
    assert_eq!(ContentType::from_extension("unknown"), ContentType::Unknown);
}

#[test]
fn content_type_detection_is_case_insensitive() {
    // Would fail if the case folding handed its input back unchanged.
    assert_eq!(ContentType::from_extension("RS"), ContentType::Code);
    assert_eq!(ContentType::from_extension("Md"), ContentType::Text);
    assert_eq!(ContentType::from_extension("JSON"), ContentType::Structured);
}

#[test]
fn test_expert_descriptions() {
    let producer = ExpertType::Producer;
    assert_eq!(producer.as_str(), "Producer");
    assert!(!producer.description().is_empty());
}

#[test]
fn expert_names_and_descriptions() {
    assert_eq!(ExpertType::Artist.as_str(), "Artist");
    assert_eq!(ExpertType::Scribe.as_str(), "Scribe");
    assert_eq!(ExpertType::Agent.as_str(), "Agent");
    assert_eq!(ExpertType::Analyst.as_str(), "Analyst");
    assert_eq!(
        ExpertType::Analyst.description(),
        "Researches topics and provides analysis",
    );
}

#[test]
fn test_destructive_detection() {
    let agent = AgentExpert::new();
    assert!(agent.might_be_destructive("rm -rf /"));
    assert!(agent.might_be_destructive("delete all files"));
    assert!(!agent.might_be_destructive("list files"));
}

#[test]
fn test_agent_creation() {
    let agent = AgentExpert::new();
    assert_eq!(agent.expert_type(), ExpertType::Agent);
}

#[test]
fn agent_plans_actions_from_keywords() {
    let agent = AgentExpert::new();
    let content = TranslatedContent::new(
        ContentType::Text,
        "Please fetch the page and then run the script".to_string(),
    );
    let actions = agent.determine_actions(&content);
    assert_eq!(actions.len(), 2);
    assert_eq!(actions[0].tool, "http");
    assert_eq!(actions[1].tool, "bash");
    assert!(!actions[1].destructive);

    let nothing = TranslatedContent::new(ContentType::Text, "just a note".to_string());
    let actions = agent.determine_actions(&nothing);
    assert_eq!(actions.len(), 1);
    assert_eq!(actions[0].tool, "analysis");

    let risky = TranslatedContent::new(
        ContentType::Text,
        "run this to delete everything".to_string(),
    );
    let actions = agent.determine_actions(&risky);
    assert_eq!(actions[0].tool, "bash");
    assert!(actions[0].destructive);
}

#[test]
fn agent_refuses_tools_outside_the_allowed_list() {
    let agent = AgentExpert::with_tools(vec!["http".to_string()]);
    let content = TranslatedContent::new(ContentType::Text, "run the build".to_string());
    let actions = agent.determine_actions(&content);
    assert_eq!(actions[0].tool, "bash");
    let r = agent.execute_action(&actions[0]);
    assert!(r.is_err());
    assert!(r.err().unwrap().message().starts_with("Configuration error: "));
}

#[test]
fn agent_process_reports_every_action() {
    let agent = AgentExpert::new();
    let content = TranslatedContent::new(ContentType::Text, "fetch the page".to_string());
    let result = agent.process(&content).unwrap();
    assert_eq!(result.expert, ExpertType::Agent);
    assert_eq!(result.status, ResultStatus::Success);
    assert!(result.output.starts_with("Executed 1 action(s):"));
    assert_eq!(result.artifacts.len(), 1);
    assert_eq!(result.artifacts[0].name, "action_http.txt");
}

#[test]
fn test_analyst_creation() {
    let analyst = AnalystExpert::new();
    assert_eq!(analyst.expert_type(), ExpertType::Analyst);
}

#[test]
fn test_code_pattern_detection() {
    let analyst = AnalystExpert::new();
    let code = "async fn test() { await something(); }";
    let patterns = analyst.detect_code_patterns(code);
    assert!(!patterns.is_empty());
}

#[test]
fn analyst_pattern_list_is_exact() {
    let analyst = AnalystExpert::new();
    let code = "async fn test() { await something(); }";
    let patterns = analyst.detect_code_patterns(code);
    assert_eq!(
        patterns,
        vec![
            "Asynchronous programming patterns".to_string(),
            "Function definitions present".to_string(),
            "Testing code detected".to_string(),
        ],
    );
    let none = analyst.detect_code_patterns("12345");
    assert_eq!(none, vec!["No specific patterns detected".to_string()]);
}

#[test]
fn analyst_recommendations_follow_the_code() {
    let analyst = AnalystExpert::new();
    assert!(analyst.code_recommendations("fn main() {}").starts_with(
        "1. Consider adding unit tests",
    ));
    assert!(analyst.code_recommendations("fn test_x() {}").starts_with(
        "1. Add comments for complex logic",
    ));
    assert!(analyst.code_recommendations("// a test of x").starts_with(
        "1. Code structure looks reasonable",
    ));
}

#[test]
fn analyst_text_insights() {
    let analyst = AnalystExpert::new();
    let insights = analyst.analyze_text_content("plain words only here");
    assert_eq!(insights, "General prose content");
    let insights = analyst.analyze_text_content("Introduction\n\nFirst point");
    assert_eq!(
        insights,
        "Structured document with formal sections\n- Enumerated or sequential content",
    );
}

#[test]
fn test_artist_creation() {
    let artist = ArtistExpert::new();
    assert_eq!(artist.expert_type(), ExpertType::Artist);
}

#[test]
fn artist_picks_the_creative_direction() {
    let artist = ArtistExpert::new();
    let story = TranslatedContent::new(ContentType::Text, "tell me a story".to_string());
    let out = artist.analyze_creative_intent(&story);
    assert!(out.starts_with("# Creative Content Generation\n\n## Story Structure Suggestion"));

    let poem = TranslatedContent::new(ContentType::Text, "a short poem".to_string());
    assert!(artist.analyze_creative_intent(&poem).contains("Poetry Format Suggestions"));

    let plain = TranslatedContent::new(ContentType::Text, "hello".to_string());
    assert!(artist.analyze_creative_intent(&plain).contains("## Creative Analysis"));

    let result = artist.process(&story).unwrap();
    assert_eq!(result.expert, ExpertType::Artist);
    assert_eq!(result.artifacts.len(), 1);
    assert_eq!(result.artifacts[0].name, "creative_output.md");
}

#[test]
fn test_producer_creation() {
    let producer = ProducerExpert::new();
    assert_eq!(producer.expert_type(), ExpertType::Producer);
}

#[test]
fn producer_names_and_places_artifacts() {
    let producer = ProducerExpert::with_output_dir("out".to_string());
    let code = TranslatedContent::new(ContentType::Code, "fn main() {}".to_string());
    let artifacts = producer.analyze_and_create(&code).unwrap();
    assert_eq!(artifacts.len(), 1);
    assert_eq!(artifacts[0].name, "generated.rs");
    assert_eq!(artifacts[0].artifact_type, "code");
    assert_eq!(artifacts[0].path.as_deref(), Some("out/generated.rs"));

    let named = TranslatedContent::new(ContentType::Code, "x".to_string())
        .with_metadata("filename", "lib.rs");
    let artifacts = producer.analyze_and_create(&named).unwrap();
    assert_eq!(artifacts[0].name, "lib.rs");

    let text = TranslatedContent::new(ContentType::Text, "notes".to_string());
    let artifacts = producer.analyze_and_create(&text).unwrap();
    assert_eq!(artifacts[0].artifact_type, "document");
    assert_eq!(artifacts[0].name, "document.md");

    let result = producer.process(&text).unwrap();
    assert!(result.output.starts_with("Created 1 artifact(s):"));
}

#[test]
fn test_scribe_creation() {
    let scribe = ScribeExpert::new();
    assert_eq!(scribe.expert_type(), ExpertType::Scribe);
}

#[test]
fn scribe_places_notes_in_the_vault() {
    let scribe = ScribeExpert::with_vault("/vault".to_string());
    let content = TranslatedContent::new(ContentType::Text, "x".to_string());
    let path = scribe.determine_note_path(&content, "My Note: a/b");
    assert_eq!(path, "/vault/Clarity/My Note_ a_b.md");

    let placed = TranslatedContent::new(ContentType::Text, "x".to_string())
        .with_metadata("vault_location", "Inbox");
    let path = scribe.determine_note_path(&placed, "idea-1");
    assert_eq!(path, "/vault/Inbox/idea-1.md");
}

#[test]
fn registry_holds_one_expert_per_specialization() {
    let registry = ExpertRegistry::new();
    for t in [
        ExpertType::Producer,
        ExpertType::Artist,
        ExpertType::Scribe,
        ExpertType::Agent,
        ExpertType::Analyst,
    ] {
        let e = registry.get(t).unwrap();
        assert_eq!(e.expert_type(), t);
    }

    // Registering again replaces, never duplicates.
    let mut registry = ExpertRegistry::new();
    registry.register(RegisteredExpert::Agent(AgentExpert::with_tools(vec![
        "http".to_string(),
    ])));
    assert_eq!(registry.get(ExpertType::Agent).unwrap().expert_type(), ExpertType::Agent);
}

#[test]
fn expert_results_carry_their_status() {
    let ok = ExpertResult::success(ExpertType::Analyst, "done".to_string());
    assert_eq!(ok.status, ResultStatus::Success);
    assert!(ok.error.is_none());

    let failed = ExpertResult::failed(ExpertType::Agent, "boom".to_string());
    assert_eq!(failed.status, ResultStatus::Failed);
    assert_eq!(failed.error.as_deref(), Some("boom"));
    assert!(failed.output.is_empty());

    let with = ok.with_artifacts(vec![Artifact::new("a", "b", "c").with_path("p")]);
    assert_eq!(with.artifacts.len(), 1);
    assert_eq!(with.artifacts[0].path.as_deref(), Some("p"));
}

#[test]
fn analyst_code_report_counts_lines() {
    let analyst = AnalystExpert::new();
    let code = TranslatedContent::new(
        ContentType::Code,
        "// entry\nfn main() {\n\n    body();\n}\n".to_string(),
    );
    let report = analyst.analyze_code(&code);
    assert!(report.starts_with("# Code Analysis Report"));
    assert!(report.contains("- **Total lines**: 5"));
    assert!(report.contains("- **Blank lines**: 1"));
    assert!(report.contains("- **Comment lines**: 1"));
    assert!(report.contains("- **Code lines**: 3"));
    assert!(report.contains("- Function definitions present\n"));
}

#[test]
fn analyst_text_report_counts_words() {
    let analyst = AnalystExpert::new();
    let text = TranslatedContent::new(
        ContentType::Text,
        "one two three\n\nfour five".to_string(),
    );
    let report = analyst.analyze_text(&text);
    assert!(report.contains("- **Words**: 5"));
    assert!(report.contains("- **Characters**: 24"));
    assert!(report.contains("- **Lines**: 3"));
    assert!(report.contains("- **Paragraphs**: 2"));
    assert!(report.contains("Approximately 1 minute(s)"));
}

#[test]
fn analyst_structured_report_guesses_the_format() {
    let analyst = AnalystExpert::new();
    let json = TranslatedContent::new(ContentType::Structured, "  {\"a\":1}".to_string());
    assert!(analyst.analyze_structured(&json).contains("Detected format: JSON"));
    let yaml = TranslatedContent::new(ContentType::Structured, "---\na: 1".to_string());
    assert!(analyst.analyze_structured(&yaml).contains("Detected format: YAML"));
    let xml = TranslatedContent::new(ContentType::Structured, "<?xml version=\"1.0\"?>".to_string());
    assert!(analyst.analyze_structured(&xml).contains("Detected format: XML"));
    let other = TranslatedContent::new(ContentType::Structured, "a,b,c".to_string());
    assert!(analyst.analyze_structured(&other).contains("Format: Structured (unknown type)"));
}

#[test]
fn analyst_generic_report_uses_the_summary() {
    let analyst = AnalystExpert::new();
    let without = TranslatedContent::new(ContentType::Audio, "bytes".to_string());
    assert!(analyst.generic_analysis(&without).contains("No summary available"));
    let with = TranslatedContent::new(ContentType::Audio, "bytes".to_string())
        .with_summary("a short clip");
    assert!(analyst.generic_analysis(&with).contains("a short clip"));

    let result = analyst.process(&without).unwrap();
    assert_eq!(result.expert, ExpertType::Analyst);
    assert_eq!(result.artifacts.len(), 1);
    assert_eq!(result.artifacts[0].name, "analysis_report.md");
}
