//! Process settings, with their defaults.

use vstd::prelude::*;
use vstd::string::*;

verus! {

/// Where the server listens, where its database is, and its session secret.
#[derive(Debug, Clone)]
pub struct AppConfig {
    pub database_url: String,
    pub server_addr: String,
    pub session_secret: String,
}

/// A setting's value, or `default` when it is not set.
fn or_default(value: Option<String>, default: &str) -> (r: String)
    ensures
        match value {
            Some(v) => r@ == v@,
            None => r@ == default@,
        },
{
    match value {
        Some(v) => v,
        None => String::from_str(default),
    }
}

impl AppConfig {
    /// The settings from the values found in the environment, each falling back
    /// to its default when it is not set.
    pub fn from_values(
        database_url: Option<String>,
        server_addr: Option<String>,
        session_secret: Option<String>,
    ) -> (r: AppConfig)
        ensures
            r.database_url@ == match database_url {
                Some(v) => v@,
                None => "sqlite://hackademy.db"@,
            },
            r.server_addr@ == match server_addr {
                Some(v) => v@,
                None => "0.0.0.0:3000"@,
            },
            r.session_secret@ == match session_secret {
                Some(v) => v@,
                None => "random_secret"@,
            },
    {
        AppConfig {
            database_url: or_default(database_url, "sqlite://hackademy.db"),
            server_addr: or_default(server_addr, "0.0.0.0:3000"),
            session_secret: or_default(session_secret, "random_secret"),
        }
    }
}

} // verus!
