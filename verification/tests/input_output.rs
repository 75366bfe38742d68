//! Input resolution, validation, and output formatting.

use pegasus::app::{App, RuntimeError};
use pegasus::config::{Config, GeneralConfig, LLMConfig};
use pegasus::input::{validate_content, InputError, InputSource};
use pegasus::output::OutputFormat;

fn bare_config() -> Config {
    Config {
        llm: LLMConfig { url: None },
        general: GeneralConfig { custom_dictionary_path: None },
    }
}

#[test]
fn inline_text_is_returned_unchanged() {
    let r = validate_content("helo wrld".to_string()).unwrap();
    assert_eq!(r, "helo wrld");
    let r = validate_content("  padded but not empty  ".to_string()).unwrap();
    assert_eq!(r, "  padded but not empty  ");
}

#[test]
fn blank_content_is_rejected() {
    assert!(matches!(
        validate_content(String::new()),
        Err(InputError::EmptyInput)
    ));
    assert!(matches!(
        validate_content("   \t \n  ".to_string()),
        Err(InputError::EmptyInput)
    ));
}

#[test]
fn resolution_prefers_inline_text() {
    let r = InputSource::resolve_input_source(Some("abc".to_string()), None).unwrap();
    assert!(matches!(r, InputSource::Input(t) if t == "abc"));
    let r = InputSource::resolve_input_source(
        Some("abc".to_string()),
        Some("/tmp/x.txt".to_string()),
    )
    .unwrap();
    assert!(matches!(r, InputSource::Input(t) if t == "abc"));
    let r = InputSource::resolve_input_source(None, Some("/tmp/x.txt".to_string())).unwrap();
    assert!(matches!(r, InputSource::File(p) if p == "/tmp/x.txt"));
}

#[test]
fn missing_input_is_an_error() {
    let r = InputSource::resolve_input_source(None, None);
    assert!(matches!(r, Err(InputError::NoInputProvided)));
    let msg = InputError::NoInputProvided.message();
    assert_eq!(msg, "No input provided: use --file or --text");
}

#[test]
fn input_error_messages() {
    let e = InputError::FileReadError {
        path: "/tmp/missing.txt".to_string(),
        error: "gone".to_string(),
    };
    assert_eq!(e.message(), "Failed to read file '/tmp/missing.txt': gone");
    assert_eq!(InputError::EmptyInput.message(), "Input is empty");
}

#[test]
fn output_format_from_flags() {
    assert_eq!(OutputFormat::from_flags(false), OutputFormat::Text);
    assert_eq!(OutputFormat::from_flags(true), OutputFormat::Json);
}

#[test]
fn text_mode_is_identity() {
    let app = App::new(bare_config());
    let out = app
        .format_output("Hello world".to_string(), OutputFormat::Text)
        .unwrap();
    assert_eq!(out, "Hello world");
}

#[test]
fn json_mode_wraps_the_text() {
    let app = App::new(bare_config());
    let out = app
        .format_output("hello".to_string(), OutputFormat::Json)
        .unwrap();
    assert_eq!(out, "{\"text\":\"hello\"}");
}

#[test]
fn json_mode_escapes_the_text() {
    let app = App::new(bare_config());
    let out = app
        .format_output("a \"quoted\" line\nand another".to_string(), OutputFormat::Json)
        .unwrap();
    assert_eq!(out, "{\"text\":\"a \\\"quoted\\\" line\\nand another\"}");
}

#[test]
fn runtime_error_messages() {
    assert_eq!(
        RuntimeError::Input("bad".to_string()).message(),
        "Input Error: bad"
    );
    assert_eq!(RuntimeError::LLM("down".to_string()).message(), "LLM Error: down");
    assert_eq!(
        RuntimeError::Refinement("empty".to_string()).message(),
        "Refinement Error: empty"
    );
}
