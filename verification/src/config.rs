//! Configuration types of the exporter, their defaults, and how a
//! configured secret value is resolved.
//!
//! The file format itself (JSON, with defaults for missing fields) is read
//! by the binary around this library; these are the values it fills in.

use vstd::prelude::*;

verus! {

/// Target users and standalone works that should be scraped.
pub struct TargetConfig {
    pub users: Vec<u64>,
    pub works: Vec<u64>,
}

/// HTTP server bind address and port settings.
pub struct ServerConfig {
    pub bind: String,
    pub port: u16,
}

/// The default bind address is localhost.
pub fn default_bind() -> (bind: String)
    ensures
        bind@ == "127.0.0.1"@,
{
    "127.0.0.1".to_string()
}

/// The default port is 6825.
pub fn default_port() -> (port: u16)
    ensures
        port == 6825,
{
    6825
}

impl Default for ServerConfig {
    fn default() -> (config: Self)
        ensures
            config.bind@ == "127.0.0.1"@,
            config.port == 6825,
    {
        ServerConfig { bind: default_bind(), port: default_port() }
    }
}

/// String value that can be inlined or loaded from an environment variable.
pub enum StringOrEnvRef {
    String(String),
    EnvRef { env: String },
}

/// Where the value of a [`StringOrEnvRef`] comes from.
pub enum ValueSource {
    /// The value is given inline.
    Inline(String),
    /// The value is that of the environment variable with this name.
    Env(String),
}

/// An environment variable that a configured value refers to could not be read.
pub struct EnvVarMissing {
    /// The name of the variable.
    pub name: String,
    /// Why it could not be read, as the environment reported it.
    pub reason: String,
}

/// The environment variable that holds the refresh token by default.
pub fn default_refresh_token() -> (value: StringOrEnvRef)
    ensures
        value matches StringOrEnvRef::EnvRef { env } && env@ == "PIXIV_REFRESH_TOKEN"@,
{
    StringOrEnvRef::EnvRef { env: "PIXIV_REFRESH_TOKEN".to_string() }
}

impl StringOrEnvRef {
    /// Says where the concrete string comes from: the literal itself for
    /// `String`, the variable named by `env` for `EnvRef`.
    pub fn get_value(&self) -> (source: ValueSource)
        ensures
            match self {
                StringOrEnvRef::String(value) => source matches ValueSource::Inline(v) && v@ == value@,
                StringOrEnvRef::EnvRef { env } => source matches ValueSource::Env(name) && name@ == env@,
            },
    {
        match self {
            StringOrEnvRef::String(value) => ValueSource::Inline(value.clone()),
            StringOrEnvRef::EnvRef { env } => ValueSource::Env(env.clone()),
        }
    }
}

/// Finishes resolving a value whose source is the environment variable
/// `name`, given what reading that variable gave: its text, or the reason
/// it could not be read. A variable that could not be read is an error.
pub fn resolve_env_value(name: &String, read: Result<String, String>) -> (value: Result<String, EnvVarMissing>)
    ensures
        match read {
            Ok(text) => value matches Ok(v) && v@ == text@,
            Err(reason) => value matches Err(e) && e.name@ == name@ && e.reason@ == reason@,
        },
{
    match read {
        Ok(text) => Ok(text),
        Err(reason) => Err(EnvVarMissing { name: name.clone(), reason }),
    }
}

/// The text of the message for a variable that could not be read.
pub open spec fn env_var_missing_message(name: Seq<char>, reason: Seq<char>) -> Seq<char> {
    "Environment variable "@ + name + " not found: "@ + reason
}

impl EnvVarMissing {
    /// The human-readable message: `Environment variable NAME not found: REASON`.
    pub fn message(&self) -> (text: String)
        ensures
            text@ == env_var_missing_message(self.name@, self.reason@),
    {
        let mut text = "Environment variable ".to_string();
        text.append(self.name.as_str());
        text.append(" not found: ");
        text.append(self.reason.as_str());
        text
    }
}

} // verus!
