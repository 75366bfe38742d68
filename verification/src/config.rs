//! Configuration: the TOML-backed settings for the service URL and the
//! custom dictionary path, with defaults substituted for absent fields at
//! read time.
//!
//! Locating and reading the configuration file is the binary's job; this
//! module turns configuration text into settings and back.

use vstd::prelude::*;

verus! {

use vstd::string::*;

/// Configuration-related errors.
#[derive(Debug)]
pub enum ConfigError {
    /// The configuration file exists but could not be read.
    FileRead(String),
    /// The configuration text could not be parsed or rendered.
    Parse(String),
}

impl ConfigError {
    /// The view of the message that `message` renders for this error.
    pub open spec fn spec_message(self) -> Seq<char> {
        match self {
            ConfigError::FileRead(detail) => "Cannot read configuration file: '"@ + detail@
                + "'. Please check file permissions and ensure the file exists."@,
            ConfigError::Parse(detail) => "Configuration file is invalid: '"@ + detail@
                + "'. Please check the syntax and ensure all required fields are present."@,
        }
    }

    /// Renders the error as a human-readable message.
    pub fn message(&self) -> (r: String)
        ensures
            r@ == self.spec_message(),
    {
        let mut r = String::new();
        match self {
            ConfigError::FileRead(detail) => {
                r.append("Cannot read configuration file: '");
                r.append(detail.as_str());
                r.append("'. Please check file permissions and ensure the file exists.");
            },
            ConfigError::Parse(detail) => {
                r.append("Configuration file is invalid: '");
                r.append(detail.as_str());
                r.append("'. Please check the syntax and ensure all required fields are present.");
            },
        }
        r
    }
}

/// Settings for the LLM service.
pub struct LLMConfig {
    /// The base URL of the service, when set.
    pub url: Option<String>,
}

/// General application settings.
pub struct GeneralConfig {
    /// The path of the custom dictionary file, when set; the empty string
    /// means that no dictionary is configured.
    pub custom_dictionary_path: Option<String>,
}

/// The whole configuration.
pub struct Config {
    pub llm: LLMConfig,
    pub general: GeneralConfig,
}

/// The effective LLM URL of a configuration: the configured one, or the
/// default local address.
pub open spec fn spec_llm_url(c: Config) -> Seq<char> {
    match c.llm.url {
        Some(url) => url@,
        None => "http://127.0.0.1:8080"@,
    }
}

/// The effective dictionary path of a configuration: the configured one, or
/// the empty string.
pub open spec fn spec_dictionary_path(c: Config) -> Seq<char> {
    match c.general.custom_dictionary_path {
        Some(path) => path@,
        None => Seq::empty(),
    }
}

/// What looking a single string entry up in configuration text yields:
/// the parser's or type error's message when the text is not valid TOML,
/// the section is no table, or the entry is present with a non-string
/// value; otherwise whether the section is present, and the string under
/// `key` in it when there is one.
pub uninterp spec fn toml_lookup(content: Seq<char>, section: Seq<char>, key: Seq<char>) -> Result<
    (bool, Option<Seq<char>>),
    Seq<char>,
>;

/// Relies on `toml::from_str::<toml::Value>`, `toml::Value::get` and
/// `toml::Value::try_into` (for the typed table and string reads, whose
/// errors carry the type mismatch); the result depends on the arguments
/// alone.
#[verifier::external_body]
fn toml_string_entry(content: &str, section: &str, key: &str) -> (r: Result<
    (bool, Option<String>),
    String,
>)
    ensures
        (match r {
            Ok((section_present, value)) => toml_lookup(content@, section@, key@) == Ok::<
                (bool, Option<Seq<char>>),
                Seq<char>,
            >((section_present, value.deep_view())),
            Err(e) => toml_lookup(content@, section@, key@) matches Err(m) && m == e@,
        }),
{
    let doc: toml::Value = toml::from_str(content).map_err(|e| e.to_string())?;
    let sec = match doc.get(section) {
        None => return Ok((false, None)),
        Some(s) => s.clone(),
    };
    let table: toml::Table = sec.try_into().map_err(|e: toml::de::Error| e.to_string())?;
    match table.get(key) {
        None => Ok((true, None)),
        Some(v) => {
            let s: String = v.clone().try_into().map_err(|e: toml::de::Error| e.to_string())?;
            Ok((true, Some(s)))
        },
    }
}

/// The view of an optional borrowed string.
pub open spec fn opt_text(o: Option<&str>) -> Option<Seq<char>> {
    match o {
        Some(s) => Some(s@),
        None => None,
    }
}

/// The TOML document that the serializer renders for two sections of at
/// most one string entry each; an absent value leaves its section empty.
pub uninterp spec fn toml_render(
    section1: Seq<char>,
    key1: Seq<char>,
    value1: Option<Seq<char>>,
    section2: Seq<char>,
    key2: Seq<char>,
    value2: Option<Seq<char>>,
) -> Seq<char>;

/// Relies on `toml::to_string_pretty` on a `toml::Table` of two sections
/// with at most one string entry each; the result depends on the arguments
/// alone, and the call cannot fail there (in toml's serializer only
/// unsupported values fail, and these tables hold only strings).
#[verifier::external_body]
fn toml_two_entry_document(
    section1: &str,
    key1: &str,
    value1: Option<&str>,
    section2: &str,
    key2: &str,
    value2: Option<&str>,
) -> (r: Result<String, String>)
    ensures
        (match r {
            Ok(text) => text@ == toml_render(
                section1@,
                key1@,
                opt_text(value1),
                section2@,
                key2@,
                opt_text(value2),
            ),
            Err(_) => false,
        }),
{
    let mut first = toml::Table::new();
    if let Some(v) = value1 {
        first.insert(key1.to_owned(), toml::Value::String(v.to_owned()));
    }
    let mut second = toml::Table::new();
    if let Some(v) = value2 {
        second.insert(key2.to_owned(), toml::Value::String(v.to_owned()));
    }
    let mut root = toml::Table::new();
    root.insert(section1.to_owned(), toml::Value::Table(first));
    root.insert(section2.to_owned(), toml::Value::Table(second));
    toml::to_string_pretty(&root).map_err(|e| e.to_string())
}

impl Config {
    /// The effective LLM URL: the configured one, or the default
    /// `http://127.0.0.1:8080`.
    pub fn get_llm_url(&self) -> (r: String)
        ensures
            r@ == spec_llm_url(*self),
    {
        match &self.llm.url {
            Some(url) => url.clone(),
            None => "http://127.0.0.1:8080".to_owned(),
        }
    }

    /// The effective dictionary path: the configured one, or the empty
    /// string meaning that no dictionary is configured.
    pub fn get_custom_dictionary_path(&self) -> (r: String)
        ensures
            r@ == spec_dictionary_path(*self),
    {
        match &self.general.custom_dictionary_path {
            Some(path) => path.clone(),
            None => String::new(),
        }
    }

    /// Reads a configuration out of TOML text.  Malformed text, a missing
    /// section, or a present entry of the wrong type fails with a `Parse`
    /// error; an absent entry inside its section is left unset.
    pub fn from_toml_str(content: &str) -> (r: Result<Config, ConfigError>)
        ensures
            (match r {
                Ok(c) => {
                    &&& toml_lookup(content@, "llm"@, "url"@) matches Ok(u) && u.0
                        && c.llm.url.deep_view() == u.1
                    &&& toml_lookup(content@, "general"@, "custom_dictionary_path"@) matches Ok(d)
                        && d.0 && c.general.custom_dictionary_path.deep_view() == d.1
                },
                Err(e) => {
                    &&& e matches ConfigError::Parse(msg) && (match toml_lookup(
                        content@,
                        "llm"@,
                        "url"@,
                    ) {
                        Err(m) => msg@ == m,
                        Ok(u) => {
                            if !u.0 {
                                msg@ == "missing field `llm`"@
                            } else {
                                match toml_lookup(content@, "general"@, "custom_dictionary_path"@) {
                                    Err(m2) => msg@ == m2,
                                    Ok(d) => !d.0 && msg@ == "missing field `general`"@,
                                }
                            }
                        },
                    })
                },
            }),
    {
        let (llm_present, url) = match toml_string_entry(content, "llm", "url") {
            Ok(entry) => entry,
            Err(e) => {
                return Err(ConfigError::Parse(e));
            },
        };
        if !llm_present {
            return Err(ConfigError::Parse("missing field `llm`".to_owned()));
        }
        let (general_present, dictionary_path) = match toml_string_entry(
            content,
            "general",
            "custom_dictionary_path",
        ) {
            Ok(entry) => entry,
            Err(e) => {
                return Err(ConfigError::Parse(e));
            },
        };
        if !general_present {
            return Err(ConfigError::Parse("missing field `general`".to_owned()));
        }
        Ok(
            Config {
                llm: LLMConfig { url },
                general: GeneralConfig { custom_dictionary_path: dictionary_path },
            },
        )
    }

    /// Renders the configuration as TOML text, writing each setting as it
    /// stands and leaving an unset one out of its section.  Rendering two
    /// string entries never fails.
    pub fn to_toml_string(&self) -> (r: Result<String, ConfigError>)
        ensures
            r matches Ok(text) && text@ == toml_render(
                "llm"@,
                "url"@,
                self.llm.url.deep_view(),
                "general"@,
                "custom_dictionary_path"@,
                self.general.custom_dictionary_path.deep_view(),
            ),
    {
        let url: Option<&str> = match &self.llm.url {
            Some(u) => Some(u.as_str()),
            None => None,
        };
        let dictionary_path: Option<&str> = match &self.general.custom_dictionary_path {
            Some(p) => Some(p.as_str()),
            None => None,
        };
        match toml_two_entry_document(
            "llm",
            "url",
            url,
            "general",
            "custom_dictionary_path",
            dictionary_path,
        ) {
            Ok(text) => Ok(text),
            Err(e) => Err(ConfigError::Parse(e)),
        }
    }
}

impl Default for Config {
    /// The default configuration: the local default URL and no dictionary.
    fn default() -> (r: Self)
        ensures
            (match r.llm.url {
                Some(url) => url@ == "http://127.0.0.1:8080"@,
                None => false,
            }),
            (match r.general.custom_dictionary_path {
                Some(path) => path@ == Seq::<char>::empty(),
                None => false,
            }),
    {
        Config {
            llm: LLMConfig { url: Some("http://127.0.0.1:8080".to_owned()) },
            general: GeneralConfig { custom_dictionary_path: Some(String::new()) },
        }
    }
}

} // verus!
