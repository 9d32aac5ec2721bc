//! The daemon: the settings it runs with and the environment it hands on.

use crate::env::EnvSet;
use crate::launch::{base_environment, base_envs};
use crate::standard::{DEFAULT_PORT, SYNOPKG_PKGBASE, TMP_DOWNLOAD_PATH};
use vstd::prelude::*;
use vstd::string::StringExecFns;

verus! {

/// What the settings file holds.
pub struct DaemonSettings {
    pub port: u16,
    pub internal: bool,
    pub download_path: String,
}

/// The daemon's settings, with the directory they were read from.
pub struct XunleiDaemon {
    port: u16,
    internal: bool,
    download_path: String,
    config_path: String,
}

impl XunleiDaemon {
    pub closed spec fn spec_port(&self) -> u16 {
        self.port
    }

    pub closed spec fn spec_internal(&self) -> bool {
        self.internal
    }

    pub closed spec fn spec_download_path(&self) -> Seq<char> {
        self.download_path@
    }

    pub closed spec fn spec_config_path(&self) -> Seq<char> {
        self.config_path@
    }

    /// The directory that holds the settings file: the one given, or the
    /// package's own where none is given.
    pub fn settings_directory(config_path: Option<String>) -> (directory: String)
        ensures
            directory@ == (match config_path {
                Some(path) => path@,
                None => SYNOPKG_PKGBASE@,
            }),
    {
        match config_path {
            Some(path) => path,
            None => String::from_str(SYNOPKG_PKGBASE),
        }
    }

    /// The daemon for the settings read from the file in `config_path`.
    /// Where the file held no settings that could be read, the defaults
    /// stand in: the default port, every interface, the default download
    /// directory.
    pub fn new(config_path: Option<String>, settings: Option<DaemonSettings>) -> (daemon:
        XunleiDaemon)
        ensures
            daemon.spec_config_path() == (match config_path {
                Some(path) => path@,
                None => SYNOPKG_PKGBASE@,
            }),
            match settings {
                Some(s) => daemon.spec_port() == s.port && daemon.spec_internal() == s.internal
                    && daemon.spec_download_path() == s.download_path@,
                None => daemon.spec_port() == DEFAULT_PORT && !daemon.spec_internal()
                    && daemon.spec_download_path() == TMP_DOWNLOAD_PATH@,
            },
    {
        let config_path = XunleiDaemon::settings_directory(config_path);
        match settings {
            Some(s) => XunleiDaemon {
                port: s.port,
                internal: s.internal,
                download_path: s.download_path,
                config_path,
            },
            None => XunleiDaemon {
                port: DEFAULT_PORT,
                internal: false,
                download_path: String::from_str(TMP_DOWNLOAD_PATH),
                config_path,
            },
        }
    }

    /// The base environment of the backend and of the CGI program.
    pub fn envs(&self) -> (envs: EnvSet)
        ensures
            envs@ == base_environment(self.spec_config_path(), self.spec_download_path()),
    {
        base_envs(self.config_path.as_str(), self.download_path.as_str())
    }

    #[verifier::when_used_as_spec(spec_port)]
    pub fn port(&self) -> (port: u16)
        ensures
            port == self.spec_port(),
    {
        self.port
    }

    #[verifier::when_used_as_spec(spec_internal)]
    pub fn internal(&self) -> (internal: bool)
        ensures
            internal == self.spec_internal(),
    {
        self.internal
    }

    pub fn download_path(&self) -> (path: &String)
        ensures
            path@ == self.spec_download_path(),
    {
        &self.download_path
    }

    pub fn config_path(&self) -> (path: &String)
        ensures
            path@ == self.spec_config_path(),
    {
        &self.config_path
    }
}

} // verus!
