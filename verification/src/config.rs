//! Startup configuration: the two required secrets and the fatal error when
//! one is missing. The caller reads the environment and hands the values in
//! as plain options; no ambient lookup happens here.

use vstd::prelude::*;

verus! {

/// The secrets every invocation needs: the API key and the identifier of the
/// configured search instance.
#[derive(Debug, Clone)]
pub struct Config {
    pub api_key: String,
    pub engine_id: String,
}

/// A required configuration value is missing. Fatal: the invocation must end
/// with a non-zero exit status before any network activity.
#[derive(Debug, Clone, Copy, PartialEq, Eq, Structural)]
pub enum ConfigError {
    MissingApiKey,
    MissingEngineId,
}

impl Config {
    /// Validates the values read from the environment. The API key is checked
    /// first, so when both are missing the reported error names the key.
    pub fn from_env_values(api_key: Option<String>, engine_id: Option<String>) -> (r: Result<
        Config,
        ConfigError,
    >)
        ensures
            r is Ok <==> (api_key.is_some() && engine_id.is_some()),
            r is Ok ==> r.unwrap().api_key@ == api_key.unwrap()@ && r.unwrap().engine_id@
                == engine_id.unwrap()@,
            api_key.is_none() ==> r == Result::<Config, ConfigError>::Err(
                ConfigError::MissingApiKey,
            ),
            api_key.is_some() && engine_id.is_none() ==> r == Result::<Config, ConfigError>::Err(
                ConfigError::MissingEngineId,
            ),
    {
        match api_key {
            None => Err(ConfigError::MissingApiKey),
            Some(key) => match engine_id {
                None => Err(ConfigError::MissingEngineId),
                Some(id) => Ok(Config { api_key: key, engine_id: id }),
            },
        }
    }
}

impl ConfigError {
    /// The diagnostic the user sees, naming the missing variable.
    pub fn message(&self) -> (r: String)
        ensures
            *self is MissingApiKey ==> r@ == "GOOGLE_API_KEY not set"@,
            *self is MissingEngineId ==> r@ == "SEARCH_ENGINE_ID not set"@,
    {
        match self {
            ConfigError::MissingApiKey => "GOOGLE_API_KEY not set".to_owned(),
            ConfigError::MissingEngineId => "SEARCH_ENGINE_ID not set".to_owned(),
        }
    }
}

} // verus!
