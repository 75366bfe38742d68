//! Configuration parsing, rendering, and defaults.

use pegasus::config::{Config, ConfigError, GeneralConfig, LLMConfig};

#[test]
fn defaults_round_trip_through_toml() {
    let default = Config::default();
    let text = default.to_toml_string().unwrap();
    let loaded = Config::from_toml_str(&text).unwrap();
    assert_eq!(loaded.get_llm_url(), "http://127.0.0.1:8080");
    assert_eq!(loaded.get_custom_dictionary_path(), "");
}

#[test]
fn configured_values_are_read_back() {
    let text = "[llm]\nurl = \"http://example.com:9999\"\n\n[general]\ncustom_dictionary_path = \"/tmp/dict.txt\"\n";
    let c = Config::from_toml_str(text).unwrap();
    assert_eq!(c.get_llm_url(), "http://example.com:9999");
    assert_eq!(c.get_custom_dictionary_path(), "/tmp/dict.txt");
}

#[test]
fn absent_entries_fall_back_to_defaults() {
    let c = Config::from_toml_str("[llm]\n[general]\n").unwrap();
    assert!(c.llm.url.is_none());
    assert!(c.general.custom_dictionary_path.is_none());
    assert_eq!(c.get_llm_url(), "http://127.0.0.1:8080");
    assert_eq!(c.get_custom_dictionary_path(), "");
}

#[test]
fn absent_entries_survive_the_round_trip() {
    let c = Config {
        llm: LLMConfig { url: None },
        general: GeneralConfig {
            custom_dictionary_path: None,
        },
    };
    let text = c.to_toml_string().unwrap();
    let loaded = Config::from_toml_str(&text).unwrap();
    assert!(loaded.llm.url.is_none());
    assert!(loaded.general.custom_dictionary_path.is_none());
}

#[test]
fn malformed_toml_is_a_parse_error() {
    let r = Config::from_toml_str("this is [ not toml");
    assert!(matches!(r, Err(ConfigError::Parse(_))));
}

#[test]
fn missing_sections_are_parse_errors() {
    let r = Config::from_toml_str("");
    assert!(matches!(r, Err(ConfigError::Parse(m)) if m == "missing field `llm`"));
    let r = Config::from_toml_str("[llm]\n");
    assert!(matches!(r, Err(ConfigError::Parse(m)) if m == "missing field `general`"));
}

#[test]
fn wrong_typed_entries_are_parse_errors() {
    let r = Config::from_toml_str("[llm]\nurl = 123\n\n[general]\n");
    assert!(matches!(r, Err(ConfigError::Parse(_))));
    let r = Config::from_toml_str("llm = 5\n\n[general]\n");
    assert!(matches!(r, Err(ConfigError::Parse(_))));
    let r = Config::from_toml_str("[llm]\n[general]\ncustom_dictionary_path = false\n");
    assert!(matches!(r, Err(ConfigError::Parse(_))));
}

#[test]
fn getters_substitute_defaults_at_read_time() {
    let c = Config {
        llm: LLMConfig { url: None },
        general: GeneralConfig {
            custom_dictionary_path: None,
        },
    };
    assert_eq!(c.get_llm_url(), "http://127.0.0.1:8080");
    assert_eq!(c.get_custom_dictionary_path(), "");
    let c = Config {
        llm: LLMConfig {
            url: Some("http://localhost:1".to_string()),
        },
        general: GeneralConfig {
            custom_dictionary_path: Some("words.txt".to_string()),
        },
    };
    assert_eq!(c.get_llm_url(), "http://localhost:1");
    assert_eq!(c.get_custom_dictionary_path(), "words.txt");
}

#[test]
fn config_error_messages() {
    assert_eq!(
        ConfigError::FileRead("denied".to_string()).message(),
        "Cannot read configuration file: 'denied'. Please check file permissions and ensure the file exists."
    );
    assert_eq!(
        ConfigError::Parse("bad syntax".to_string()).message(),
        "Configuration file is invalid: 'bad syntax'. Please check the syntax and ensure all required fields are present."
    );
}
