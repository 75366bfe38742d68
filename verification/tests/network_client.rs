//! Network decisions, LLM client assembly and extraction, the simulated
//! refinement flow, and temporary-file bookkeeping.

use pegasus::app::App;
use pegasus::client::{LLMClient, LLMError};
use pegasus::config::{Config, GeneralConfig, LLMConfig};
use pegasus::files::{FileError, TemporaryFile};
use pegasus::input::{validate_content, InputSource};
use pegasus::network::{HttpClient, NetworkError};
use pegasus::output::OutputFormat;
use pegasus::prompts::{build_system_prompt, build_user_prompt};
use pegasus::response::{ChatCompletionResponse, Choice, ResponseMessage};

fn answer(content: &str) -> ChatCompletionResponse {
    ChatCompletionResponse {
        choices: vec![Choice {
            message: ResponseMessage {
                content: content.to_string(),
            },
        }],
    }
}

#[test]
fn url_validation_accepts_and_rejects() {
    let c = HttpClient::new("http://127.0.0.1:8080".to_string());
    assert!(c.validate_url().is_ok());
    let c = HttpClient::new("not a url".to_string());
    assert!(matches!(
        c.validate_url(),
        Err(NetworkError::InvalidURL(u)) if u == "not a url"
    ));
}

#[test]
fn probe_accepts_200_and_404_only() {
    let c = HttpClient::new("http://x".to_string());
    assert!(c.evaluate_probe(Some(200)).is_ok());
    assert!(c.evaluate_probe(Some(404)).is_ok());
    assert!(matches!(
        c.evaluate_probe(Some(500)),
        Err(NetworkError::InvalidURL(u)) if u == "http://x"
    ));
    assert!(matches!(
        c.evaluate_probe(None),
        Err(NetworkError::RequestFailed)
    ));
}

#[test]
fn request_url_joins_with_one_slash() {
    let c = HttpClient::new("http://x:1".to_string());
    assert_eq!(c.request_url("v1/chat/completions"), "http://x:1/v1/chat/completions");
    let c = HttpClient::new("http://x:1/".to_string());
    assert_eq!(c.request_url("v1/chat/completions"), "http://x:1/v1/chat/completions");
}

#[test]
fn post_status_must_be_a_success() {
    assert!(HttpClient::evaluate_post_status(200).is_ok());
    assert!(HttpClient::evaluate_post_status(299).is_ok());
    assert!(matches!(
        HttpClient::evaluate_post_status(300),
        Err(NetworkError::ResponseError)
    ));
    assert!(matches!(
        HttpClient::evaluate_post_status(404),
        Err(NetworkError::ResponseError)
    ));
}

#[test]
fn network_error_messages() {
    assert_eq!(
        NetworkError::InvalidURL("u".to_string()).message(),
        "Invalid service URL: 'u'. Please check your configuration file."
    );
    assert_eq!(
        NetworkError::RequestFailed.message(),
        "Failed to connect to service. Please verify the service is running and accessible."
    );
    assert_eq!(
        NetworkError::ResponseError.message(),
        "Service returned an error. Please check the service logs and try again."
    );
    assert_eq!(
        NetworkError::DecodeError.message(),
        "Failed to decode service response. The service may be experiencing issues or the format may be unsupported."
    );
}

#[test]
fn refinement_request_holds_both_prompts() {
    let client = LLMClient::new(
        "http://x".to_string(),
        "test-model".to_string(),
        String::new(),
    );
    let request = client.build_refinement_request("sys".to_string(), "usr".to_string());
    assert_eq!(request.model, "test-model");
    assert_eq!(request.messages.len(), 2);
    assert_eq!(request.messages[0].role, "system");
    assert_eq!(request.messages[0].content, "sys");
    assert_eq!(request.messages[1].role, "user");
    assert_eq!(request.messages[1].content, "usr");
}

#[test]
fn auth_header_appears_only_with_a_key() {
    let client = LLMClient::new("http://x".to_string(), "m".to_string(), String::new());
    assert!(client.auth_headers().is_none());
    let client = LLMClient::new(
        "http://x".to_string(),
        "m".to_string(),
        "test-key".to_string(),
    );
    let headers = client.auth_headers().unwrap();
    assert_eq!(headers.len(), 1);
    assert_eq!(headers[0].0, "Authorization");
    assert_eq!(headers[0].1, "Bearer test-key");
}

#[test]
fn extraction_trims_the_first_choice() {
    let r = LLMClient::extract_refined_text(answer("  Hello world \n")).unwrap();
    assert_eq!(r, "Hello world");
}

#[test]
fn extraction_rejects_an_empty_choice_list() {
    let r = LLMClient::extract_refined_text(ChatCompletionResponse { choices: Vec::new() });
    assert!(matches!(
        r,
        Err(LLMError::InvalidResponse(m)) if m == "No choices in response"
    ));
}

#[test]
fn extraction_rejects_blank_content() {
    let r = LLMClient::extract_refined_text(answer("   \n\t "));
    assert!(matches!(
        r,
        Err(LLMError::RefinementFailed(m)) if m == "LLM returned empty content"
    ));
}

#[test]
fn llm_error_messages() {
    assert_eq!(
        LLMError::ApiRequestFailed("x".to_string()).message(),
        "LLM API request failed: x"
    );
    assert_eq!(
        LLMError::InvalidResponse("y".to_string()).message(),
        "Invalid API response: y"
    );
    assert_eq!(
        LLMError::RefinementFailed("z".to_string()).message(),
        "Text refinement failed: z"
    );
}

#[test]
fn refinement_flow_with_a_mocked_service() {
    let config = Config {
        llm: LLMConfig { url: None },
        general: GeneralConfig {
            custom_dictionary_path: Some(String::new()),
        },
    };
    let app = App::new(config);
    let source =
        InputSource::resolve_input_source(Some("helo wrld".to_string()), None).unwrap();
    let input_text = match source {
        InputSource::Input(text) => validate_content(text).unwrap(),
        InputSource::File(_) => unreachable!(),
    };
    assert_eq!(app.config.get_custom_dictionary_path(), "");
    let dictionary: Vec<String> = Vec::new();
    let client = app.create_llm_client();
    assert_eq!(client.base_url, "http://127.0.0.1:8080");
    let request = client.build_refinement_request(
        build_system_prompt(&dictionary),
        build_user_prompt(&input_text),
    );
    assert_eq!(request.messages[1].content.contains("helo wrld"), true);
    let refined = LLMClient::extract_refined_text(answer("Hello world")).unwrap();
    let out = app
        .format_output(refined, OutputFormat::from_flags(false))
        .unwrap();
    assert_eq!(out, "Hello world");
}

#[test]
fn temporary_file_bookkeeping() {
    let mut tmp = TemporaryFile::new("/tmp/pegasus-scratch.txt".to_string());
    assert_eq!(tmp.path(), "/tmp/pegasus-scratch.txt");
    assert!(tmp.should_cleanup);
    tmp.keep();
    assert!(!tmp.should_cleanup);
    assert_eq!(tmp.path(), "/tmp/pegasus-scratch.txt");
}

#[test]
fn file_error_messages() {
    assert_eq!(
        FileError::DirectoryCreate("/etc/nope".to_string()).message(),
        "Cannot create directory '/etc/nope'. Please check permissions."
    );
    assert_eq!(
        FileError::FileRemove("gone".to_string()).message(),
        "Cannot remove file 'gone'. Please check if the file exists and you have permission to delete it."
    );
    assert_eq!(
        FileError::FileRead("locked".to_string()).message(),
        "Cannot read file 'locked'. Please check if the file exists and you have permission to access it."
    );
    assert_eq!(
        FileError::FileNotFound("/tmp/x".to_string()).message(),
        "File not found: '/tmp/x'. Please verify the file path and try again."
    );
}
