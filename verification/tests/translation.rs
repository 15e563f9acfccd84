//! The translator, the text utilities, the MIME classifier, the
//! configuration merge, keys and payload encryption.

use clarity::config::{AgentConfig, AgentInfo, MergedConfig, SharedConfig};
use clarity::encryption::{decrypt_nip44, encrypt_nip44};
use clarity::error::Error;
use clarity::orchestration::translator::{Translator, TranslatorError};
use clarity::orchestration::types::ContentType;
use clarity::signer::{from_sk, generate, public_key_hex};
use clarity::text::u64_to_string;
use clarity::watch::{default_debounce, default_ollama_endpoint, determine_file_type};
use clarity::imagen::{FluxModel, ImageGenConfig, ImageGenError, StableDiffusionVersion};
use clarity::orchestration::orchestrator::OrchestratorError;
use clarity::orchestration::types::ExpertType;

#[test]
fn test_translate_text() {
    let translator = Translator::new();
    let text = b"Hello, world!";
    let result = translator.translate_bytes(text, ContentType::Text, None);
    assert!(result.is_ok());
    let translated = result.unwrap();
    assert_eq!(translated.text, "Hello, world!");
    assert!(translated.summary.is_none());
}

#[test]
fn test_translate_json() {
    let translator = Translator::new();
    let json = br#"{"key":"value"}"#;
    let result = translator.translate_bytes(json, ContentType::Structured, None);
    assert!(result.is_ok());
    let translated = result.unwrap();
    assert!(translated.text.contains("key"));
    assert!(translated.text.contains("value"));
}

#[test]
fn structured_content_is_pretty_printed() {
    // Would fail if the JSON reformatting handed its input back
    // unchanged: pretty form spans lines.
    let translator = Translator::new();
    let out = translator.translate_bytes(b"{\"k\":1}", ContentType::Structured, None).unwrap();
    assert!(out.text.contains('\n'));
    // Non-JSON structured text passes through unchanged.
    let out = translator.translate_bytes(b"k: v", ContentType::Structured, None).unwrap();
    assert_eq!(out.text, "k: v");
}

#[test]
fn invalid_utf8_text_is_an_encoding_error() {
    let translator = Translator::new();
    let r = translator.translate_bytes(&[0x66, 0xff, 0x66], ContentType::Text, None);
    assert!(matches!(r, Err(TranslatorError::EncodingError(_))));
    // Valid multi-byte text decodes exactly.
    let ok = translator.translate_bytes("caf\u{e9}".as_bytes(), ContentType::Text, None).unwrap();
    assert_eq!(ok.text, "caf\u{e9}");
}

#[test]
fn documents_lose_their_blank_lines() {
    let translator = Translator::new();
    let doc = b"first line\n\n   \nsecond line\n\t\nthird";
    let out = translator.translate_bytes(doc, ContentType::Document, None).unwrap();
    assert_eq!(out.text, "first line\nsecond line\nthird");

    // Lenient decoding replaces invalid bytes instead of failing.
    let out = translator.translate_bytes(&[0x61, 0xff, 0x62], ContentType::Document, None).unwrap();
    assert_eq!(out.text, "a\u{fffd}b");
}

#[test]
fn media_and_archives_are_described() {
    let translator = Translator::new();
    let img = translator
        .translate_bytes(&[1, 2, 3], ContentType::Image, Some("/tmp/cat.png"))
        .unwrap();
    assert!(img.text.starts_with("Image file detected: cat.png"));
    let audio = translator.translate_bytes(&[1], ContentType::Audio, None).unwrap();
    assert!(audio.text.starts_with("Audio file detected: unknown.mp3"));
    let video = translator.translate_bytes(&[1], ContentType::Video, None).unwrap();
    assert!(video.text.starts_with("Video file detected: unknown.mp4"));
    let archive = translator.translate_bytes(&[1], ContentType::Archive, None).unwrap();
    assert!(archive.text.starts_with("Archive file detected."));
}

#[test]
fn translated_bytes_carry_source_metadata() {
    let translator = Translator::new();
    let out = translator
        .translate_bytes(b"text", ContentType::Text, Some("/home/u/notes.txt"))
        .unwrap();
    assert_eq!(out.metadata.len(), 2);
    assert_eq!(out.metadata[0], ("source".to_string(), "/home/u/notes.txt".to_string()));
    assert_eq!(out.metadata[1], ("filename".to_string(), "notes.txt".to_string()));
    assert_eq!(out.metadata_get("filename").map(|s| s.as_str()), Some("notes.txt"));
    assert!(out.metadata_get("missing").is_none());
}

#[test]
fn mime_types_follow_the_extension() {
    assert_eq!(determine_file_type("notes.md"), "text/plain");
    assert_eq!(determine_file_type("/a/b/song.MP3"), "audio/mpeg");
    assert_eq!(determine_file_type("main.rs"), "text/rust");
    assert_eq!(determine_file_type("archive.7z"), "application/x-7z-compressed");
    assert_eq!(determine_file_type("noext"), "application/octet-stream");
    assert_eq!(determine_file_type(".bashrc"), "application/octet-stream");
    assert_eq!(determine_file_type("dir.d/file"), "application/octet-stream");
}

#[test]
fn watcher_defaults() {
    assert_eq!(default_debounce(), 200);
    assert_eq!(default_ollama_endpoint(), "http://localhost:11434");
}

#[test]
fn decimal_rendering_is_exact() {
    assert_eq!(u64_to_string(0), "0");
    assert_eq!(u64_to_string(7), "7");
    assert_eq!(u64_to_string(42), "42");
    assert_eq!(u64_to_string(1048576), "1048576");
    assert_eq!(u64_to_string(u64::MAX), "18446744073709551615");
}

#[test]
fn test_nip44_encryption() {
    let keys1 = generate();
    let keys2 = generate();

    let plaintext = "Hello, Nostr!";

    let ciphertext = encrypt_nip44(&keys1, &public_key_hex(&keys2), plaintext).unwrap();
    assert_ne!(ciphertext, plaintext);

    let decrypted = decrypt_nip44(&keys2, &public_key_hex(&keys1), &ciphertext).unwrap();
    assert_eq!(plaintext, decrypted);
}

#[test]
fn nip44_rejects_the_wrong_key() {
    let keys1 = generate();
    let keys2 = generate();
    let intruder = generate();
    let ciphertext = encrypt_nip44(&keys1, &public_key_hex(&keys2), "secret").unwrap();
    let r = decrypt_nip44(&intruder, &public_key_hex(&keys1), &ciphertext);
    assert!(matches!(r, Err(Error::Decryption(_))));
}

#[test]
fn keys_parse_exactly_when_valid() {
    let keys = generate();
    let pk = public_key_hex(&keys);
    assert_eq!(pk.len(), 64);
    assert!(from_sk("not a key").is_err());
    assert!(
        from_sk("6b911fd37cdf5c81d4c0adb1ab7fa822ed253ab0ad9aa18d77257c88b29b718e").is_ok(),
    );
}

#[test]
fn merged_config_prefers_the_agent_sections() {
    let mut shared = SharedConfig::default();
    shared.keys.push(("a1".to_string(), "sharedkey".to_string()));
    shared.keys.push(("empty".to_string(), String::new()));

    let agent = AgentConfig {
        agent: AgentInfo { name: "a1".to_string(), subject: "math".to_string(), about: None },
        nostr: None,
        ollama: None,
        encryption: None,
    };
    let merged = MergedConfig::load(&shared, agent, "a1");
    assert_eq!(merged.agent.name, "a1");
    assert_eq!(merged.nostr.private_key.as_deref(), Some("sharedkey"));
    // With no agent nostr section, the shared relay list is inherited.
    assert_eq!(merged.nostr.relays, vec!["wss://strfry.atlantislabs.space".to_string()]);
    assert_eq!(merged.ollama.model, "llama3.2");
    assert_eq!(merged.encryption.mode, "optional");

    // An empty key entry counts as no key at all.
    assert!(shared.get_key("empty").is_none());
    assert!(shared.get_key("nobody").is_none());
    assert_eq!(shared.get_key("a1").as_deref(), Some("sharedkey"));
}

#[test]
fn error_messages_carry_class_and_detail() {
    assert_eq!(Error::Timeout.message(), "timeout: ");
    assert_eq!(Error::Transport("down".to_string()).message(), "transport: down");
    assert_eq!(Error::Encryption("e".to_string()).label(), "encryption");
    assert_eq!(Error::Decryption("d".to_string()).label(), "decryption");
    assert_eq!(Error::SessionNotFound("s".to_string()).label(), "session not found");
    assert_eq!(Error::InvalidMessage("m".to_string()).label(), "invalid message");
    assert_eq!(Error::Protocol("p".to_string()).label(), "protocol");
    assert_eq!(Error::Other("o".to_string()).label(), "other");
}

#[test]
fn subscription_covers_exactly_the_two_inbound_kinds() {
    let kinds = clarity::constants::subscription_kinds();
    assert_eq!(kinds, vec![25910u16, 1059u16]);
    assert_eq!(clarity::constants::SERVER_ANNOUNCEMENT_KIND, 11316);
    assert_eq!(clarity::constants::TOOLS_LIST_KIND, 11317);
    assert_eq!(clarity::constants::RESOURCES_LIST_KIND, 11318);
    assert_eq!(clarity::constants::RESOURCETEMPLATES_LIST_KIND, 11319);
    assert_eq!(clarity::constants::PROMPTS_LIST_KIND, 11320);
    assert_eq!(clarity::constants::MAX_MESSAGE_SIZE, 1024 * 1024);
}

#[test]
fn system_prompt_names_the_three_tools() {
    let p = clarity::bootstrap::get_system_prompt();
    assert!(p.starts_with("You have 3 tools."));
    assert!(p.contains("write_file"));
    assert!(p.contains("read_file"));
    assert!(p.contains("run_file"));
}

#[test]
fn image_generation_data() {
    assert_eq!(FluxModel::Schnell.repo(), "black-forest-labs/FLUX.1-schnell");
    assert_eq!(FluxModel::Dev.default_steps(), 50);
    assert_eq!(StableDiffusionVersion::Turbo.repo(), "stabilityai/sdxl-turbo");
    assert_eq!(StableDiffusionVersion::Xl.default_steps(), 30);

    let config = ImageGenConfig::default();
    assert_eq!(config.width, 1024);
    assert!(config.validate().is_ok());
    let mut odd = ImageGenConfig::default();
    odd.width = 1001;
    assert!(matches!(odd.validate(), Err(ImageGenError::InvalidConfig(_))));
}

#[test]
fn orchestrator_errors_carry_class_and_detail() {
    assert_eq!(
        OrchestratorError::NetworkError("down".to_string()).message(),
        "Network error: down",
    );
    assert_eq!(
        OrchestratorError::ExpertNotFound(ExpertType::Scribe).message(),
        "Expert not found: Scribe",
    );
    assert_eq!(
        OrchestratorError::ParseError("bad json".to_string()).message(),
        "Parse error: bad json",
    );
}

#[test]
fn translator_errors_carry_class_and_detail() {
    assert_eq!(
        TranslatorError::EncodingError("bad".to_string()).message(),
        "Encoding error: bad",
    );
    assert_eq!(
        TranslatorError::UnsupportedFormat("tiff".to_string()).message(),
        "Unsupported format: tiff",
    );
    assert_eq!(TranslatorError::IoError("gone".to_string()).message(), "IO error: gone");
}
