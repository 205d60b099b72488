//! The assistant's settings: where the recogniser and the dialogue backend
//! are. They are read once, when the assistant starts.

use vstd::prelude::*;
use crate::text::{parse_port, port_of};

verus! {

/// The four settings.
#[derive(Debug, PartialEq, Eq, Clone, Copy)]
pub enum Setting {
    JuliusHost,
    JuliusPort,
    KotonohaHost,
    KotonohaPort,
}

impl Setting {
    /// The environment variable that holds the setting.
    pub fn name(&self) -> (name: &'static str)
        ensures
            name@ == match *self {
                Setting::JuliusHost => "JULIUS_HOST"@,
                Setting::JuliusPort => "JULIUS_PORT"@,
                Setting::KotonohaHost => "KOTONOHA_HOST"@,
                Setting::KotonohaPort => "KOTONOHA_PORT"@,
            },
    {
        match self {
            Setting::JuliusHost => "JULIUS_HOST",
            Setting::JuliusPort => "JULIUS_PORT",
            Setting::KotonohaHost => "KOTONOHA_HOST",
            Setting::KotonohaPort => "KOTONOHA_PORT",
        }
    }
}

/// Why the settings could not be read.
#[derive(Debug, PartialEq, Eq, Clone, Copy)]
pub enum ConfigError {
    /// The setting is not there.
    Missing(Setting),
    /// The setting is there and is no port number.
    NotAPort(Setting),
}

/// What the environment holds for each setting, if anything.
#[derive(Debug, PartialEq, Eq)]
pub struct Environment {
    pub julius_host: Option<String>,
    pub julius_port: Option<String>,
    pub kotonoha_host: Option<String>,
    pub kotonoha_port: Option<String>,
}

/// [`Environment`] with its texts as sequences of characters.
pub struct EnvironmentView {
    pub julius_host: Option<Seq<char>>,
    pub julius_port: Option<Seq<char>>,
    pub kotonoha_host: Option<Seq<char>>,
    pub kotonoha_port: Option<Seq<char>>,
}

/// The view of a value that may be absent.
pub open spec fn value_view(value: Option<String>) -> Option<Seq<char>> {
    match value {
        Some(text) => Some(text@),
        None => None,
    }
}

impl View for Environment {
    type V = EnvironmentView;

    open spec fn view(&self) -> EnvironmentView {
        EnvironmentView {
            julius_host: value_view(self.julius_host),
            julius_port: value_view(self.julius_port),
            kotonoha_host: value_view(self.kotonoha_host),
            kotonoha_port: value_view(self.kotonoha_port),
        }
    }
}

/// The settings of a running assistant.
#[derive(Debug, PartialEq, Eq)]
pub struct AkaneConfig {
    pub julius_host: String,
    pub julius_port: u16,
    pub kotonoha_host: String,
    pub kotonoha_port: u16,
}

/// [`AkaneConfig`] with its texts as sequences of characters.
pub struct AkaneConfigView {
    pub julius_host: Seq<char>,
    pub julius_port: u16,
    pub kotonoha_host: Seq<char>,
    pub kotonoha_port: u16,
}

impl View for AkaneConfig {
    type V = AkaneConfigView;

    open spec fn view(&self) -> AkaneConfigView {
        AkaneConfigView {
            julius_host: self.julius_host@,
            julius_port: self.julius_port,
            kotonoha_host: self.kotonoha_host@,
            kotonoha_port: self.kotonoha_port,
        }
    }
}

/// A setting that must be there.
pub open spec fn required(setting: Setting, value: Option<Seq<char>>) -> Result<
    Seq<char>,
    ConfigError,
> {
    match value {
        Some(text) => Ok(text),
        None => Err(ConfigError::Missing(setting)),
    }
}

/// A setting that must be there and be a port number.
pub open spec fn required_port(setting: Setting, value: Option<Seq<char>>) -> Result<
    u16,
    ConfigError,
> {
    match value {
        Some(text) => match port_of(text) {
            Some(port) => Ok(port),
            None => Err(ConfigError::NotAPort(setting)),
        },
        None => Err(ConfigError::Missing(setting)),
    }
}

/// The settings that an environment gives. They are looked at in the order
/// recogniser host, recogniser port, backend host, backend port, and the
/// first one that is missing or unreadable is the error.
pub open spec fn configured(env: EnvironmentView) -> Result<AkaneConfigView, ConfigError> {
    match required(Setting::JuliusHost, env.julius_host) {
        Err(e) => Err(e),
        Ok(julius_host) => match required_port(Setting::JuliusPort, env.julius_port) {
            Err(e) => Err(e),
            Ok(julius_port) => match required(Setting::KotonohaHost, env.kotonoha_host) {
                Err(e) => Err(e),
                Ok(kotonoha_host) => match required_port(
                    Setting::KotonohaPort,
                    env.kotonoha_port,
                ) {
                    Err(e) => Err(e),
                    Ok(kotonoha_port) => Ok(
                        AkaneConfigView { julius_host, julius_port, kotonoha_host, kotonoha_port },
                    ),
                },
            },
        },
    }
}

/// The value of a setting, which must be there.
pub fn load_env(setting: Setting, value: Option<String>) -> (loaded: Result<String, ConfigError>)
    ensures
        match required(setting, value_view(value)) {
            Ok(text) => loaded matches Ok(l) && l@ == text,
            Err(e) => loaded == Err::<String, ConfigError>(e),
        },
{
    match value {
        Some(text) => Ok(text),
        None => Err(ConfigError::Missing(setting)),
    }
}

/// The value of a setting that is a port number.
fn load_port(setting: Setting, value: Option<String>) -> (loaded: Result<u16, ConfigError>)
    ensures
        loaded == required_port(setting, value_view(value)),
{
    let text = load_env(setting, value)?;
    match parse_port(text.as_str()) {
        Some(port) => Ok(port),
        None => Err(ConfigError::NotAPort(setting)),
    }
}

/// The recogniser's host.
pub fn load_julius_host(value: Option<String>) -> (loaded: Result<String, ConfigError>)
    ensures
        match required(Setting::JuliusHost, value_view(value)) {
            Ok(text) => loaded matches Ok(l) && l@ == text,
            Err(e) => loaded == Err::<String, ConfigError>(e),
        },
{
    load_env(Setting::JuliusHost, value)
}

/// The recogniser's port.
pub fn load_julius_port(value: Option<String>) -> (loaded: Result<u16, ConfigError>)
    ensures
        loaded == required_port(Setting::JuliusPort, value_view(value)),
{
    load_port(Setting::JuliusPort, value)
}

/// The dialogue backend's host.
pub fn load_kotonoha_host(value: Option<String>) -> (loaded: Result<String, ConfigError>)
    ensures
        match required(Setting::KotonohaHost, value_view(value)) {
            Ok(text) => loaded matches Ok(l) && l@ == text,
            Err(e) => loaded == Err::<String, ConfigError>(e),
        },
{
    load_env(Setting::KotonohaHost, value)
}

/// The dialogue backend's port.
pub fn load_kotonoha_port(value: Option<String>) -> (loaded: Result<u16, ConfigError>)
    ensures
        loaded == required_port(Setting::KotonohaPort, value_view(value)),
{
    load_port(Setting::KotonohaPort, value)
}

impl AkaneConfig {
    /// The settings that the environment gives, or the first of them that is
    /// missing or unreadable.
    pub fn from_env(env: Environment) -> (config: Result<AkaneConfig, ConfigError>)
        ensures
            match configured(env@) {
                Ok(expected) => config matches Ok(c) && c@ == expected,
                Err(e) => config == Err::<AkaneConfig, ConfigError>(e),
            },
    {
        let julius_host = load_julius_host(env.julius_host)?;
        let julius_port = load_julius_port(env.julius_port)?;
        let kotonoha_host = load_kotonoha_host(env.kotonoha_host)?;
        let kotonoha_port = load_kotonoha_port(env.kotonoha_port)?;
        Ok(AkaneConfig { julius_host, julius_port, kotonoha_host, kotonoha_port })
    }
}

} // verus!
