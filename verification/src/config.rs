//! Configuration of the chat service.

use vstd::prelude::*;

use crate::text::concat3;

verus! {

/// The settings the service reads at start-up. Secrets are not kept here:
/// the `*_env` fields name the environment variables that hold them.
pub struct AppConfig {
    pub port: u16,
    pub jwt_encoding_key_env: String,
    pub jwt_decoding_key_env: String,
    pub jwt_expiration_hours: i64,
    pub database_url_env: String,
    pub redis_url_env: String,
    pub resource_base_url: String,
    pub upload_dir: String,
}

/// Why the configuration file could not be loaded. Each variant keeps the
/// underlying failure's text, or the path that could not be used.
pub enum ConfigLoadError {
    CurrentExe(String),
    NoParentDir,
    PathNotText(String),
    Read(String),
    Parse(String),
}

/// The text that describes a failure to load the configuration.
pub open spec fn config_error_text(e: ConfigLoadError) -> Seq<char> {
    match e {
        ConfigLoadError::CurrentExe(m) => "Failed to get current exe path: "@ + m@ + "."@,
        ConfigLoadError::NoParentDir => "Failed to get parent directory of current exe."@,
        ConfigLoadError::PathNotText(p) => "Failed to convert config path to string: "@ + p@ + "."@,
        ConfigLoadError::Read(m) => "Failed to read config file: "@ + m@ + "."@,
        ConfigLoadError::Parse(m) => "Failed to parse config file: "@ + m@ + "."@,
    }
}

impl ConfigLoadError {
    /// The text that describes this failure.
    pub fn to_text(&self) -> (res: String)
        ensures
            res@ == config_error_text(*self),
    {
        match self {
            ConfigLoadError::CurrentExe(m) => concat3(
                "Failed to get current exe path: ",
                m.as_str(),
                ".",
            ),
            ConfigLoadError::NoParentDir => "Failed to get parent directory of current exe.".to_owned(),
            ConfigLoadError::PathNotText(p) => concat3(
                "Failed to convert config path to string: ",
                p.as_str(),
                ".",
            ),
            ConfigLoadError::Read(m) => concat3("Failed to read config file: ", m.as_str(), "."),
            ConfigLoadError::Parse(m) => concat3("Failed to parse config file: ", m.as_str(), "."),
        }
    }
}

/// The configuration the service starts with: the one loaded from the file
/// next to the executable, or the reason it could not be loaded.
pub fn initialize_config(loaded: Result<AppConfig, ConfigLoadError>) -> (res: Result<
    AppConfig,
    ConfigLoadError,
>)
    ensures
        res == loaded,
{
    let config = loaded?;
    Ok(config)
}

} // verus!
