//! The agent's configuration and the choice between setting up and relaying.

use vstd::prelude::*;
use vstd::string::*;

verus! {

/// The settings that the agent runs on.
#[derive(Clone, Debug, PartialEq, Eq)]
pub struct Config {
    /// The credential sent with every relayed payload.
    pub api_key: String,
    /// Where the OCR output is fetched.
    pub ocr_url: String,
    /// The base address of the remote service.
    pub froggi_url: String,
    /// Cycles per second.
    pub updates_per_second: u8,
}

/// A configuration as plain values.
pub ghost struct ConfigView {
    pub api_key: Seq<char>,
    pub ocr_url: Seq<char>,
    pub froggi_url: Seq<char>,
    pub updates_per_second: u8,
}

impl View for Config {
    type V = ConfigView;

    open spec fn view(&self) -> ConfigView {
        ConfigView {
            api_key: self.api_key@,
            ocr_url: self.ocr_url@,
            froggi_url: self.froggi_url@,
            updates_per_second: self.updates_per_second,
        }
    }
}

/// The address of the local OCR service.
pub open spec fn default_ocr_url() -> Seq<char> {
    "http://localhost:18099/json?pivot"@
}

/// The rate of a configuration that names none.
pub const DEFAULT_UPDATES_PER_SECOND: u8 = 5;

/// The path that is appended to the remote address for relaying.
pub open spec fn relay_suffix() -> Seq<char> {
    seq!['/', 'o', 'c', 'r']
}

/// The path that stands between the remote address and a key to check.
pub open spec fn key_check_infix() -> Seq<char> {
    "/api/key/check/"@
}

/// Where a payload is relayed to under the remote address `froggi_url`.
pub open spec fn relay_target_of(froggi_url: Seq<char>) -> Seq<char> {
    froggi_url + relay_suffix()
}

/// Where `key` is checked under the remote address `froggi_url`.
pub open spec fn key_check_target_of(froggi_url: Seq<char>, key: Seq<char>) -> Seq<char> {
    froggi_url + key_check_infix() + key
}

impl ConfigView {
    /// The defaults with the remote address and the key filled in.
    pub open spec fn with_credentials(froggi_url: Seq<char>, api_key: Seq<char>) -> ConfigView {
        ConfigView {
            api_key,
            ocr_url: default_ocr_url(),
            froggi_url,
            updates_per_second: DEFAULT_UPDATES_PER_SECOND,
        }
    }

    /// A configuration can be run on if its rate is not zero.
    pub open spec fn well_formed(self) -> bool {
        self.updates_per_second >= 1
    }
}

impl Config {
    /// The configuration before the operator has supplied anything: the local
    /// OCR address, five cycles per second, no remote address and no key.
    pub fn default() -> (config: Config)
        ensures
            config@ == ConfigView::with_credentials(Seq::empty(), Seq::empty()),
            config@.well_formed(),
    {
        Config {
            api_key: String::new(),
            ocr_url: String::from_str("http://localhost:18099/json?pivot"),
            froggi_url: String::new(),
            updates_per_second: DEFAULT_UPDATES_PER_SECOND,
        }
    }

    /// The defaults with the remote address and the key filled in.
    pub fn with_credentials(froggi_url: String, api_key: String) -> (config: Config)
        ensures
            config@ == ConfigView::with_credentials(froggi_url@, api_key@),
            config@.well_formed(),
    {
        let defaults = Config::default();
        Config {
            api_key,
            ocr_url: defaults.ocr_url,
            froggi_url,
            updates_per_second: defaults.updates_per_second,
        }
    }

    /// Whether the configuration can be run on.
    pub fn is_well_formed(&self) -> (ok: bool)
        ensures
            ok == self@.well_formed(),
    {
        self.updates_per_second >= 1
    }

    /// The address that payloads are relayed to.
    pub fn relay_target(&self) -> (target: String)
        ensures
            target@ == relay_target_of(self@.froggi_url),
    {
        proof {
            reveal_strlit("/ocr");
            assert("/ocr"@ =~= relay_suffix());
        }
        let mut target = self.froggi_url.clone();
        target.append("/ocr");
        target
    }
}

/// The address at which the remote service checks `key`.
pub fn key_check_target(froggi_url: &str, key: &str) -> (target: String)
    ensures
        target@ == key_check_target_of(froggi_url@, key@),
{
    let mut target = String::from_str(froggi_url);
    target.append("/api/key/check/");
    target.append(key);
    target
}

/// What the driver found where the configuration is kept.
#[derive(Clone, Debug, PartialEq, Eq)]
pub enum Artifact {
    /// Nothing that could be opened.
    Absent,
    /// A file that could be opened and not read.
    Unreadable,
    /// A file whose text is no configuration.
    Malformed,
    /// A configuration.
    Loaded(Config),
}

/// What the process does after it has looked for its configuration.
#[derive(Clone, Debug, PartialEq, Eq)]
pub enum Startup {
    /// Ask the operator, write the configuration, and exit.
    NeedsBootstrap,
    /// Relay under this configuration.
    Ready(Config),
}

/// Why a configuration that is there cannot be used.
#[derive(Clone, Copy, Debug, PartialEq, Eq, Structural)]
pub enum ConfigError {
    /// The file could not be read.
    Unreadable,
    /// The file's text could not be taken apart.
    Malformed,
    /// The configured rate is zero, which has no period.
    ZeroRate,
}

impl ConfigError {
    /// The diagnostic for the error.
    pub fn message(&self) -> (text: &'static str)
        ensures
            text@ == match *self {
                ConfigError::Unreadable => "Could not read config file"@,
                ConfigError::Malformed => "Could not deserialize config file"@,
                ConfigError::ZeroRate => "Config file sets updates_per_second to zero"@,
            },
    {
        match self {
            ConfigError::Unreadable => "Could not read config file",
            ConfigError::Malformed => "Could not deserialize config file",
            ConfigError::ZeroRate => "Config file sets updates_per_second to zero",
        }
    }
}

/// The outcome that `select_mode` owes for each artifact: set up exactly where
/// there is none, relay exactly where a well-formed configuration was loaded,
/// and fail otherwise.
pub open spec fn startup_for(artifact: Artifact) -> Result<Startup, ConfigError> {
    match artifact {
        Artifact::Absent => Ok(Startup::NeedsBootstrap),
        Artifact::Unreadable => Err(ConfigError::Unreadable),
        Artifact::Malformed => Err(ConfigError::Malformed),
        Artifact::Loaded(config) => if config@.well_formed() {
            Ok(Startup::Ready(config))
        } else {
            Err(ConfigError::ZeroRate)
        },
    }
}

/// Chooses between setting up and relaying.
pub fn select_mode(artifact: Artifact) -> (outcome: Result<Startup, ConfigError>)
    ensures
        outcome == startup_for(artifact),
        outcome matches Ok(Startup::NeedsBootstrap) <==> artifact is Absent,
        outcome matches Ok(Startup::Ready(config)) ==> artifact == Artifact::Loaded(config)
            && config@.well_formed(),
{
    match artifact {
        Artifact::Absent => Ok(Startup::NeedsBootstrap),
        Artifact::Unreadable => Err(ConfigError::Unreadable),
        Artifact::Malformed => Err(ConfigError::Malformed),
        Artifact::Loaded(config) => {
            if config.is_well_formed() {
                Ok(Startup::Ready(config))
            } else {
                Err(ConfigError::ZeroRate)
            }
        },
    }
}

} // verus!
