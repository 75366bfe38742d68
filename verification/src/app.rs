//! Application-level pieces of the refinement flow: the runtime error
//! taxonomy, dictionary parsing, client creation, and output formatting.
//! The binary wires these around its file and network I/O.

use vstd::prelude::*;

verus! {

use vstd::string::*;
use crate::client::LLMClient;
use crate::config::{Config, spec_llm_url};
use crate::output::OutputFormat;
use crate::text::{spec_lines, split_lines, trimmed, trim_str};

/// Application runtime errors.
#[derive(Debug)]
pub enum RuntimeError {
    /// Reading or validating the input failed.
    Input(String),
    /// Talking to the LLM failed.
    LLM(String),
    /// The refinement or its formatting failed.
    Refinement(String),
}

impl RuntimeError {
    /// The view of the message that `message` renders for this error.
    pub open spec fn spec_message(self) -> Seq<char> {
        match self {
            RuntimeError::Input(detail) => "Input Error: "@ + detail@,
            RuntimeError::LLM(detail) => "LLM Error: "@ + detail@,
            RuntimeError::Refinement(detail) => "Refinement Error: "@ + detail@,
        }
    }

    /// Renders the error as a human-readable message.
    pub fn message(&self) -> (r: String)
        ensures
            r@ == self.spec_message(),
    {
        let mut r = String::new();
        match self {
            RuntimeError::Input(detail) => {
                r.append("Input Error: ");
                r.append(detail.as_str());
            },
            RuntimeError::LLM(detail) => {
                r.append("LLM Error: ");
                r.append(detail.as_str());
            },
            RuntimeError::Refinement(detail) => {
                r.append("Refinement Error: ");
                r.append(detail.as_str());
            },
        }
        r
    }
}

/// The dictionary read out of a list of lines: every line that, trimmed,
/// is neither empty nor a `#` comment, trimmed and in order.
pub open spec fn spec_dictionary(lines: Seq<Seq<char>>) -> Seq<Seq<char>>
    decreases lines.len(),
{
    if lines.len() == 0 {
        Seq::empty()
    } else {
        let rest = spec_dictionary(lines.drop_last());
        let t = trimmed(lines.last());
        if t.len() > 0 && t[0] != '#' {
            rest + seq![t]
        } else {
            rest
        }
    }
}

/// Reads the dictionary words out of dictionary file content: one term per
/// line, trimmed, with blank lines and `#` comments discarded, in file
/// order.
pub fn dictionary_words(content: &str) -> (r: Vec<String>)
    ensures
        r.deep_view() == spec_dictionary(spec_lines(content@)),
{
    let lines = split_lines(content);
    let ghost lv = lines.deep_view();
    let n = lines.len();
    let mut r: Vec<String> = Vec::new();
    let mut i: usize = 0;
    proof {
        assert(r.deep_view() =~= spec_dictionary(lv.take(0)));
    }
    while i < n
        invariant
            n == lines.len(),
            lv == lines.deep_view(),
            i <= n,
            r.deep_view() == spec_dictionary(lv.take(i as int)),
        decreases n - i,
    {
        let ghost old_r = r.deep_view();
        let t = trim_str(lines[i].as_str());
        if !t.is_empty() && t.get_char(0) != '#' {
            r.push(t.to_owned());
            proof {
                assert(r.deep_view() =~= old_r.push(trimmed(lv[i as int])));
            }
        }
        proof {
            assert(lv.take(i + 1).drop_last() =~= lv.take(i as int));
            assert(lv.take(i + 1).last() == lv[i as int]);
            assert(r.deep_view() =~= spec_dictionary(lv.take(i + 1)));
        }
        i = i + 1;
    }
    proof {
        assert(lv.take(n as int) =~= lv);
    }
    r
}

/// What serde_json's serializer produces for a string value: the quoted,
/// escaped JSON string literal.
pub uninterp spec fn json_quoted(s: Seq<char>) -> Seq<char>;

/// Relies on `serde_json::to_string` on a `&str` value: the result depends
/// on the characters alone, and the call cannot fail there (in serde_json
/// errors come only from the writer, and the writer is a `Vec<u8>`).
#[verifier::external_body]
fn json_string_literal(s: &str) -> (r: Result<String, String>)
    ensures
        (match r {
            Ok(text) => text@ == json_quoted(s@),
            Err(_) => false,
        }),
{
    serde_json::to_string(s).map_err(|e| e.to_string())
}

/// The application: the loaded configuration and the pure steps of the
/// refinement flow.
pub struct App {
    pub config: Config,
}

impl App {
    /// Creates the application around a loaded configuration.
    pub fn new(config: Config) -> (r: Self)
        ensures
            r.config == config,
    {
        App { config }
    }

    /// Creates an LLM client for the configured URL, with the default
    /// model name and no API key.
    pub fn create_llm_client(&self) -> (r: LLMClient)
        ensures
            r.base_url@ == spec_llm_url(self.config),
            r.model@ == "default"@,
            r.api_key@.len() == 0,
    {
        LLMClient::new(self.config.get_llm_url(), "default".to_owned(), String::new())
    }

    /// Formats the refined text: `Text` mode returns it unchanged, and
    /// `Json` mode wraps it as a one-field `{"text": ...}` JSON envelope.
    /// Both modes always succeed.
    pub fn format_output(&self, refined_text: String, format: OutputFormat) -> (r: Result<
        String,
        RuntimeError,
    >)
        ensures
            format == OutputFormat::Text ==> r == Ok::<String, RuntimeError>(refined_text),
            format == OutputFormat::Json ==> (match r {
                Ok(text) => text@ == "{\"text\":"@ + json_quoted(refined_text@) + "}"@,
                Err(_) => false,
            }),
    {
        match format {
            OutputFormat::Text => Ok(refined_text),
            OutputFormat::Json => {
                match json_string_literal(refined_text.as_str()) {
                    Ok(quoted) => {
                        let mut text = String::new();
                        text.append("{\"text\":");
                        text.append(quoted.as_str());
                        text.append("}");
                        Ok(text)
                    },
                    Err(e) => {
                        let mut msg = String::new();
                        msg.append("Failed to serialize JSON: ");
                        msg.append(e.as_str());
                        Err(RuntimeError::Refinement(msg))
                    },
                }
            },
        }
    }
}

} // verus!
