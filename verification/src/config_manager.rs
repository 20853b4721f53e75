//! The settings: what makes them valid, and replacing them as a whole.
//!
//! Whether a directory is there, or a file, is found out by the caller and
//! handed in as `PathFacts`; the rules themselves are all here.

use crate::decimal::plus_parsed_u32;
use crate::decimal::parse_plus_u32;
use crate::io_error::io_error_text;
use crate::state::{default_config, AppConfig, ConfigView};
use crate::text::{chars_of, concat, concat3, concat4, debug_quoted, has_prefix, is_blank, quote, str_is_blank};
use vstd::prelude::*;
use vstd::std_specs::convert::FromSpecImpl;

verus! {

/// Declares `serde_json::Error` as a type of which nothing is known but
/// that it exists: a value of it is carried along, never looked into.
#[verifier::external_type_specification]
#[verifier::external_body]
pub struct ExSerdeJsonError(serde_json::Error);

/// Writes out a JSON error with its `Display` impl (`ToString::to_string`):
/// serde_json's message, with line and column where it knows them. Nothing
/// is promised of the wording.
#[verifier::external_body]
pub(crate) fn json_error_text(e: &serde_json::Error) -> (r: String) {
    e.to_string()
}

/// What can go wrong with the settings.
#[derive(Debug)]
pub enum ConfigError {
    IoError(std::io::Error),
    SerializationError(serde_json::Error),
    ValidationError(String),
}

impl From<std::io::Error> for ConfigError {
    fn from(error: std::io::Error) -> (r: Self) {
        ConfigError::IoError(error)
    }
}

impl FromSpecImpl<std::io::Error> for ConfigError {
    open spec fn obeys_from_spec() -> bool {
        true
    }

    open spec fn from_spec(error: std::io::Error) -> Self {
        ConfigError::IoError(error)
    }
}

impl From<serde_json::Error> for ConfigError {
    fn from(error: serde_json::Error) -> (r: Self) {
        ConfigError::SerializationError(error)
    }
}

impl FromSpecImpl<serde_json::Error> for ConfigError {
    open spec fn obeys_from_spec() -> bool {
        true
    }

    open spec fn from_spec(error: serde_json::Error) -> Self {
        ConfigError::SerializationError(error)
    }
}

/// The message of an error, apart from the wording of an error that came
/// from outside.
pub open spec fn config_error_prefix(e: ConfigError) -> Seq<char> {
    match e {
        ConfigError::IoError(_) => "IO error: "@,
        ConfigError::SerializationError(_) => "Serialization error: "@,
        ConfigError::ValidationError(msg) => "Validation error: "@ + msg@,
    }
}

impl ConfigError {
    /// The message of the error. For a validation error it is exactly the
    /// prefix; for the others the outside wording follows the prefix.
    pub fn to_string(&self) -> (r: String)
        ensures
            has_prefix(r@, config_error_prefix(*self)),
            self is ValidationError ==> r@ == config_error_prefix(*self),
    {
        let r = match self {
            ConfigError::IoError(e) => {
                let text = io_error_text(e);
                concat("IO error: ", text.as_str())
            },
            ConfigError::SerializationError(e) => {
                let text = json_error_text(e);
                concat("Serialization error: ", text.as_str())
            },
            ConfigError::ValidationError(msg) => concat("Validation error: ", msg.as_str()),
        };
        proof {
            let p = config_error_prefix(*self);
            assert(r@.subrange(0, p.len() as int) =~= p);
        }
        r
    }
}

/// What the file system says of the paths that the settings name.
#[derive(Debug, Clone)]
pub struct PathFacts {
    /// Why the output directory is neither there nor could be made; `None`
    /// where it is there now.
    pub output_dir_error: Option<String>,
    /// The same for the directory of temporary files.
    pub temp_dir_error: Option<String>,
    /// Whether the cookies file that the settings name is there.
    pub cookies_file_exists: bool,
}

/// Keeps the path of the settings file and judges settings.
pub struct ConfigManager {
    config_file_path: String,
}

/// The first thing that is wrong with the settings, as a message; `None`
/// where they are valid. The checks run in this order: the two directories,
/// the cookies file, the itag, the ceiling on concurrent downloads, the
/// cover, the truncation, the templates.
pub open spec fn config_fault(cfg: ConfigView, facts: PathFacts) -> Option<Seq<char>> {
    if facts.output_dir_error is Some {
        Some(
            "Cannot create output directory "@ + debug_quoted(cfg.output_path) + ": "@
                + facts.output_dir_error->0@,
        )
    } else if facts.temp_dir_error is Some {
        Some(
            "Cannot create temp directory "@ + debug_quoted(cfg.temp_path) + ": "@
                + facts.temp_dir_error->0@,
        )
    } else if cfg.cookies_path is Some && !facts.cookies_file_exists {
        Some("Cookies file does not exist: "@ + debug_quoted(cfg.cookies_path->0))
    } else if plus_parsed_u32(cfg.itag) is None {
        Some("Invalid itag format: '"@ + cfg.itag + "'. Must be a number."@)
    } else if cfg.concurrent_limit == 0 {
        Some("Concurrent limit must be greater than 0"@)
    } else if cfg.concurrent_limit > 10 {
        Some("Concurrent limit should not exceed 10 for stability"@)
    } else if cfg.cover_size == 0 {
        Some("Cover size must be greater than 0"@)
    } else if cfg.cover_quality == 0 || cfg.cover_quality > 100 {
        Some("Cover quality must be between 1 and 100"@)
    } else if cfg.truncate == Some(0u32) {
        Some("Truncate value must be greater than 0 if specified"@)
    } else if is_blank(cfg.template_folder) {
        Some("Template folder cannot be empty"@)
    } else if is_blank(cfg.template_file) {
        Some("Template file cannot be empty"@)
    } else {
        None
    }
}

/// The outcome of a validation says exactly what `config_fault` finds.
pub open spec fn reports_fault(r: Result<(), ConfigError>, fault: Option<Seq<char>>) -> bool {
    match r {
        Ok(_) => fault is None,
        Err(e) => e is ValidationError && fault == Some(e->ValidationError_0@),
    }
}

fn invalid(message: String) -> (r: Result<(), ConfigError>)
    ensures
        r is Err,
        r->Err_0 is ValidationError,
        r->Err_0->ValidationError_0 == message,
{
    Err(ConfigError::ValidationError(message))
}

impl ConfigManager {
    /// The path of the settings file.
    pub closed spec fn path(&self) -> Seq<char> {
        self.config_file_path@
    }

    /// A manager for the settings file at the given path.
    pub fn new(config_file_path: String) -> (r: Self)
        ensures
            r.path() == config_file_path@,
    {
        Self { config_file_path }
    }

    /// Judges the settings, given what the file system says of their paths.
    pub fn validate_config(&self, config: &AppConfig, facts: &PathFacts) -> (r: Result<
        (),
        ConfigError,
    >)
        ensures
            reports_fault(r, config_fault(config@, *facts)),
    {
        match &facts.output_dir_error {
            Some(e) => {
                let quoted = quote(config.output_path.as_str());
                return invalid(
                    concat4("Cannot create output directory ", quoted.as_str(), ": ", e.as_str()),
                );
            },
            None => {},
        }
        match &facts.temp_dir_error {
            Some(e) => {
                let quoted = quote(config.temp_path.as_str());
                return invalid(
                    concat4("Cannot create temp directory ", quoted.as_str(), ": ", e.as_str()),
                );
            },
            None => {},
        }
        match &config.cookies_path {
            Some(path) => {
                if !facts.cookies_file_exists {
                    let quoted = quote(path.as_str());
                    return invalid(concat("Cookies file does not exist: ", quoted.as_str()));
                }
            },
            None => {},
        }
        let itag = chars_of(config.itag.as_str());
        if parse_plus_u32(itag.as_slice()).is_none() {
            return invalid(
                concat3("Invalid itag format: '", config.itag.as_str(), "'. Must be a number."),
            );
        }
        if config.concurrent_limit == 0 {
            return invalid("Concurrent limit must be greater than 0".to_owned());
        }
        if config.concurrent_limit > 10 {
            return invalid("Concurrent limit should not exceed 10 for stability".to_owned());
        }
        if config.cover_size == 0 {
            return invalid("Cover size must be greater than 0".to_owned());
        }
        if config.cover_quality == 0 || config.cover_quality > 100 {
            return invalid("Cover quality must be between 1 and 100".to_owned());
        }
        match config.truncate {
            Some(n) => {
                if n == 0 {
                    return invalid("Truncate value must be greater than 0 if specified".to_owned());
                }
            },
            None => {},
        }
        if str_is_blank(config.template_folder.as_str()) {
            return invalid("Template folder cannot be empty".to_owned());
        }
        if str_is_blank(config.template_file.as_str()) {
            return invalid("Template file cannot be empty".to_owned());
        }
        Ok(())
    }

    /// Replaces the settings by `updates` where those are valid, and leaves
    /// them alone where not.
    pub fn update_config(
        &self,
        current_config: &mut AppConfig,
        updates: AppConfig,
        facts: &PathFacts,
    ) -> (r: Result<(), ConfigError>)
        ensures
            reports_fault(r, config_fault(updates@, *facts)),
            r is Ok ==> *final(current_config) == updates,
            r is Err ==> *final(current_config) == *old(current_config),
    {
        match self.validate_config(&updates, facts) {
            Ok(_) => {
                *current_config = updates;
                Ok(())
            },
            Err(e) => Err(e),
        }
    }

    /// The settings that a fresh installation starts with.
    pub fn reset_to_defaults(&self) -> (r: AppConfig)
        ensures
            r@ == default_config(),
    {
        AppConfig::default()
    }

    /// The path of the settings file.
    pub fn get_config_file_path(&self) -> (r: &String)
        ensures
            r@ == self.path(),
    {
        &self.config_file_path
    }
}

} // verus!
