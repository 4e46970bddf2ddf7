//! The per-service configuration record and where it is kept.

use vstd::prelude::*;
use vstd::string::*;
use crate::err::Error;
use crate::level::LogLevel;

verus! {

/// The key under which the supervisor keeps one subkey per service.
pub const SERVICES_KEY: &'static str = "SYSTEM\\CurrentControlSet\\Services";

/// The subkey of a service's own key that holds its configuration record.
pub const PARAMETERS_SUBKEY: &'static str = "Parameters";

/// The namespace of the configuration record of the service `identity`: the
/// services key, the service's name and the parameters subkey, joined by
/// backslashes.
pub open spec fn parameters_path_of(identity: Seq<char>) -> Seq<char> {
    SERVICES_KEY@ + "\\"@ + identity + "\\"@ + PARAMETERS_SUBKEY@
}

/// Builds the namespace of the configuration record of the service
/// `identity`.
pub fn parameters_path(identity: &str) -> (path: String)
    ensures
        path@ == parameters_path_of(identity@),
{
    let mut path = String::from_str(SERVICES_KEY);
    path.append("\\");
    path.append(identity);
    path.append("\\");
    path.append(PARAMETERS_SUBKEY);
    path
}

/// The configuration record as the backend holds it: every field may be
/// missing.
#[derive(Debug, Clone, PartialEq, Eq)]
pub struct Config {
    /// The `LogLevel` value.
    pub loglevel: Option<String>,
    /// The `WorkDir` value.
    pub workdir: Option<String>,
}

/// What came of asking the backend for a service's record.
#[derive(Debug, Clone, PartialEq, Eq)]
pub enum ConfigLookup {
    /// The namespace exists; the record holds what was found in it.
    Found(Config),
    /// The backend answered that the namespace does not exist.
    NotFound,
    /// The backend could not be asked; the text says why.
    Unreachable(String),
}

/// The settings a service runs with, every default applied.
#[derive(Debug, Clone, PartialEq, Eq)]
pub struct ServiceConfiguration {
    /// The level filter for the system log.
    pub level: LogLevel,
    /// The directory to run in, if one is configured.
    pub work_dir: Option<String>,
}

impl ServiceConfiguration {
    /// The settings of a service for which nothing is configured: errors
    /// only, no change of directory.
    pub open spec fn defaults() -> ServiceConfiguration {
        ServiceConfiguration { level: LogLevel::Error, work_dir: None }
    }

    /// The settings that a stored record stands for.
    pub open spec fn of_record(record: Config) -> ServiceConfiguration {
        ServiceConfiguration {
            level: LogLevel::of_setting(record.loglevel),
            work_dir: record.workdir,
        }
    }

    /// The settings that follow from a lookup. A namespace that does not
    /// exist gives the defaults; only a backend that cannot be asked is an
    /// error, and it carries the backend's text.
    pub open spec fn of_lookup(lookup: ConfigLookup) -> Result<ServiceConfiguration, Error> {
        match lookup {
            ConfigLookup::Found(record) => Ok(Self::of_record(record)),
            ConfigLookup::NotFound => Ok(Self::defaults()),
            ConfigLookup::Unreachable(why) => Err(Error::Figment(why)),
        }
    }

    /// The settings of a service for which nothing is configured.
    pub fn new() -> (settings: ServiceConfiguration)
        ensures
            settings == Self::defaults(),
    {
        ServiceConfiguration { level: LogLevel::Error, work_dir: None }
    }

    /// Applies the defaults to a stored record.
    pub fn from_record(record: Config) -> (settings: ServiceConfiguration)
        ensures
            settings == Self::of_record(record),
    {
        let level = LogLevel::from_setting(&record.loglevel);
        ServiceConfiguration { level, work_dir: record.workdir }
    }

    /// Turns the outcome of a lookup into settings, or into the error that
    /// stops the start.
    pub fn from_lookup(lookup: ConfigLookup) -> (settled: Result<ServiceConfiguration, Error>)
        ensures
            settled == Self::of_lookup(lookup),
    {
        match lookup {
            ConfigLookup::Found(record) => Ok(Self::from_record(record)),
            ConfigLookup::NotFound => Ok(Self::new()),
            ConfigLookup::Unreachable(why) => Err(Error::Figment(why)),
        }
    }
}

} // verus!
