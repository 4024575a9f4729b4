//! Process configuration: the container identifier and the API token.
//!
//! Reading the two environment variables is the caller's business; this
//! module only decides whether a configuration is complete and which error
//! names the first missing value.

use vstd::prelude::*;

verus! {

/// A required configuration value was absent.
#[derive(Debug, Clone, Copy)]
pub enum ConfigError {
    MissingDatabaseId,
    MissingApiToken,
}

impl ConfigError {
    /// The descriptive message that names the missing variable.
    pub fn message(&self) -> (r: String)
        ensures
            self is MissingDatabaseId ==> r@ == "NOTION_DIARY_DATABASE_ID must be set."@,
            self is MissingApiToken ==> r@ == "NOTION_API_TOKEN must be set."@,
    {
        match self {
            ConfigError::MissingDatabaseId => String::from_str("NOTION_DIARY_DATABASE_ID must be set."),
            ConfigError::MissingApiToken => String::from_str("NOTION_API_TOKEN must be set."),
        }
    }
}

/// The two required configuration values.
#[derive(Debug)]
pub struct Env {
    pub database_id: String,
    pub api_token: String,
}

impl Env {
    /// Accepts a configuration exactly when both values are present; a
    /// missing database identifier is reported before a missing token.
    pub fn from_values(database_id: Option<String>, api_token: Option<String>) -> (r: Result<
        Env,
        ConfigError,
    >)
        ensures
            r is Ok <==> database_id is Some && api_token is Some,
            r matches Ok(e) ==> database_id == Some(e.database_id) && api_token == Some(
                e.api_token,
            ),
            database_id is None ==> (r matches Err(c) && c is MissingDatabaseId),
            database_id is Some && api_token is None ==> (r matches Err(c)
                && c is MissingApiToken),
    {
        let database_id = match database_id {
            Some(v) => v,
            None => {
                return Err(ConfigError::MissingDatabaseId);
            },
        };
        let api_token = match api_token {
            Some(v) => v,
            None => {
                return Err(ConfigError::MissingApiToken);
            },
        };
        Ok(Env { database_id, api_token })
    }
}

} // verus!
