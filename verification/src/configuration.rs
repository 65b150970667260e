//! Configuration values, as plain data; reading them from files and the
//! environment is the surrounding layer's work.

use vstd::prelude::*;

use crate::secret::SecretString;
use crate::text::lower_of;
use crate::text::str_eq;
use crate::text::to_lowercase;

verus! {

/// Representation of the settings.
pub struct Settings {
    pub application: ApplicationSettings,
    pub database: DatabaseSettings,
}

/// Representation of the application's settings.
pub struct ApplicationSettings {
    pub host: String,
    pub port: u16,
}

/// Representation of the database's settings.
pub struct DatabaseSettings {
    pub username: String,
    pub password: SecretString,
    pub host: String,
    pub port: u16,
    pub database_name: String,
    pub require_ssl: bool,
}

/// Representation of the runtime environments.
#[derive(Debug)]
pub enum RuntimeEnvironment {
    Development,
    Production,
}

impl RuntimeEnvironment {
    /// The canonical name of the environment.
    pub fn as_str(&self) -> (r: &'static str)
        ensures
            self is Development ==> r@ == "development"@,
            self is Production ==> r@ == "production"@,
    {
        match self {
            RuntimeEnvironment::Development => "development",
            RuntimeEnvironment::Production => "production",
        }
    }

    /// Performs the conversion from a free-form string: the lowercased form
    /// must name one of the supported environments.
    pub fn try_from(s: String) -> (r: Result<RuntimeEnvironment, String>)
        ensures
            (r matches Ok(e) && e is Development) == (lower_of(s@) == "development"@),
            (r matches Ok(e) && e is Production) == (lower_of(s@) == "production"@),
            r matches Err(m) ==> m@ == "`"@ + lower_of(s@)
                + "` is not a supported environment. Use either `development` or `production`."@,
            (r is Err) == (lower_of(s@) != "development"@ && lower_of(s@) != "production"@),
    {
        proof {
            reveal_strlit("development");
            reveal_strlit("production");
            assert("development"@.len() == 11);
            assert("production"@.len() == 10);
            assert("development"@ != "production"@);
        }
        let lowered = to_lowercase(s.as_str());
        if str_eq(lowered.as_str(), "development") {
            Ok(RuntimeEnvironment::Development)
        } else if str_eq(lowered.as_str(), "production") {
            Ok(RuntimeEnvironment::Production)
        } else {
            let mut m = String::from_str("`");
            m.append(lowered.as_str());
            m.append("` is not a supported environment. Use either `development` or `production`.");
            Err(m)
        }
    }
}

} // verus!
