//! The application's settings and where they are read from.

use crate::cli::Cli;
use crate::text::{join2, join3, lemma_join_starts_with, starts_with, text_of};
use vstd::prelude::*;

verus! {

/// The error type of the `config` crate, carried through unopened.
#[verifier::external_type_specification]
#[verifier::external_body]
pub struct ExConfigError(config::ConfigError);

/// Why the settings could not be read.
#[derive(Debug)]
pub enum AppConfigError {
    Config(config::ConfigError),
}

impl AppConfigError {
    /// The message for a person: that the configuration is at fault, then
    /// the cause in the words of the error from outside.
    pub fn to_string(&self) -> (r: String)
        ensures
            starts_with(r@, "configuration error: "@),
    {
        match self {
            AppConfigError::Config(err) => {
                let cause = err.to_string();
                proof {
                    lemma_join_starts_with("configuration error: "@, cause@);
                }
                join2("configuration error: ", cause.as_str())
            },
        }
    }
}

/// The application's settings.
#[derive(Debug, Clone, PartialEq, Eq)]
pub struct AppConfig {
    pub application_name: String,
    pub fabrex_base_url: String,
    pub gryf_base_url: String,
    pub supernode_base_url: String,
    pub poll_interval_secs: u64,
}

impl Default for AppConfig {
    fn default() -> (r: Self)
        ensures
            r.application_name@ == "FabreXLens"@,
            r.fabrex_base_url@ == "https://api.gigaio.com/fabrexfleet"@,
            r.gryf_base_url@ == "https://api.gigaio.com/gryf"@,
            r.supernode_base_url@ == "https://api.gigaio.com/supernodes"@,
            r.poll_interval_secs == 15,
    {
        AppConfig {
            application_name: "FabreXLens".to_owned(),
            fabrex_base_url: "https://api.gigaio.com/fabrexfleet".to_owned(),
            gryf_base_url: "https://api.gigaio.com/gryf".to_owned(),
            supernode_base_url: "https://api.gigaio.com/supernodes".to_owned(),
            poll_interval_secs: 15,
        }
    }
}

/// One place that settings are read from. Later places win over earlier
/// ones.
#[derive(Debug, Clone, PartialEq, Eq)]
pub enum ConfigSource {
    /// A file in the application's configuration directory; it may be
    /// missing.
    DirectoryFile { file_name: String },
    /// A file at a path that the operator gave; it must be there.
    ExplicitFile { path: String },
    /// The process's variables whose names begin with `prefix`, the parts of
    /// a name being set apart by `separator`.
    Environment { prefix: String, separator: String },
}

/// The name of the settings file of the profile `profile`.
pub open spec fn profile_file_text(profile: Seq<char>) -> Seq<char> {
    "fabrexlens."@ + profile + ".toml"@
}

/// Whether `source` is the process's variables as the application reads
/// them.
pub open spec fn is_environment(source: ConfigSource) -> bool {
    source matches ConfigSource::Environment { prefix, separator } && prefix@ == "FABREXLENS"@
        && separator@ == "__"@
}

/// Whether `source` is the file `name` of the configuration directory.
pub open spec fn is_directory_file(source: ConfigSource, name: Seq<char>) -> bool {
    source matches ConfigSource::DirectoryFile { file_name } && file_name@ == name
}

/// Whether `source` is the file at the path `at`.
pub open spec fn is_explicit_file(source: ConfigSource, at: Seq<char>) -> bool {
    source matches ConfigSource::ExplicitFile { path } && path@ == at
}

/// Whether `sources` are the places that the settings are read from over the
/// defaults, in order: the profile's file where a profile is named; then the
/// file that the operator gave, or else the directory's `fabrexlens.toml`;
/// then the process's variables.
pub open spec fn sources_for(
    profile: Option<Seq<char>>,
    config_path: Option<Seq<char>>,
    sources: Seq<ConfigSource>,
) -> bool {
    &&& sources.len() == if profile is Some {
        3int
    } else {
        2int
    }
    &&& profile matches Some(p) ==> is_directory_file(sources[0], profile_file_text(p))
    &&& match config_path {
        Some(path) => is_explicit_file(sources[sources.len() - 2], path),
        None => is_directory_file(sources[sources.len() - 2], "fabrexlens.toml"@),
    }
    &&& is_environment(sources[sources.len() - 1])
}

impl AppConfig {
    /// The places that the settings are read from over the defaults, in
    /// order.
    pub fn sources(profile: Option<&str>, config_path: Option<&str>) -> (r: Vec<ConfigSource>)
        ensures
            sources_for(
                match profile {
                    Some(p) => Some(p@),
                    None => None,
                },
                match config_path {
                    Some(path) => Some(path@),
                    None => None,
                },
                r@,
            ),
    {
        let mut out: Vec<ConfigSource> = Vec::new();
        if let Some(p) = profile {
            out.push(ConfigSource::DirectoryFile { file_name: join3("fabrexlens.", p, ".toml") });
        }
        match config_path {
            Some(path) => {
                out.push(ConfigSource::ExplicitFile { path: path.to_owned() });
            },
            None => {
                out.push(ConfigSource::DirectoryFile { file_name: "fabrexlens.toml".to_owned() });
            },
        }
        out.push(
            ConfigSource::Environment {
                prefix: "FABREXLENS".to_owned(),
                separator: "__".to_owned(),
            },
        );
        out
    }

    /// Loads the settings for a command line: decides which places to read,
    /// in which order, and lets `read` lay them over the defaults. What
    /// `read` gives is the result.
    pub fn load<F>(cli: &Cli, read: F) -> (r: Result<AppConfig, AppConfigError>) where
        F: FnOnce(Vec<ConfigSource>) -> Result<AppConfig, AppConfigError>,

        requires
            forall|sources: Vec<ConfigSource>|
                sources_for(text_of(cli.profile), text_of(cli.config), sources@)
                    ==> call_requires(read, (sources,)),
        ensures
            exists|sources: Vec<ConfigSource>|
                sources_for(text_of(cli.profile), text_of(cli.config), sources@) && call_ensures(
                    read,
                    (sources,),
                    r,
                ),
    {
        let profile = match &cli.profile {
            Some(p) => Some(p.as_str()),
            None => None,
        };
        let config_path = match &cli.config {
            Some(path) => Some(path.as_str()),
            None => None,
        };
        let sources = Self::sources(profile, config_path);
        read(sources)
    }
}

} // verus!
