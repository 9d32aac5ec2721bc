//! What the launcher starts and with what: the base environment of the
//! backend and of the CGI program, the backend's arguments, and the address
//! the web UI listens on.

use crate::config::Config;
use crate::decimal::{decimal_text, write_unsigned};
use crate::env::EnvSet;
use crate::standard::{
    ENV_FILE, INST_LOG, LAUNCHER_SOCK, LAUNCH_LOG_FILE, LAUNCH_PID_FILE, LOG_FILE, PID_FILE,
    SOCK_FILE, SYNOPKG_DSM_VERSION_BUILD, SYNOPKG_DSM_VERSION_MAJOR, SYNOPKG_DSM_VERSION_MINOR,
    SYNOPKG_PKGDEST, SYNOPKG_PKGNAME,
};
use crate::text::{chars_of, string_of};
use vstd::prelude::*;
use vstd::string::StringExecFns;

verus! {

/// The system version that the backend is told: `dsm`, then major, minor and build.
pub open spec fn os_version_text() -> Seq<char> {
    "dsm "@ + SYNOPKG_DSM_VERSION_MAJOR@ + "."@ + SYNOPKG_DSM_VERSION_MINOR@ + "-"@
        + SYNOPKG_DSM_VERSION_BUILD@
}

/// The environment that the backend and every CGI program start from.
pub open spec fn base_environment(config_path: Seq<char>, download_path: Seq<char>) -> Map<
    Seq<char>,
    Seq<char>,
> {
    Map::<Seq<char>, Seq<char>>::empty().insert("DriveListen"@, SOCK_FILE@).insert(
        "OS_VERSION"@,
        os_version_text(),
    ).insert("HOME"@, config_path).insert("ConfigPath"@, config_path).insert(
        "DownloadPATH"@,
        download_path,
    ).insert("SYNOPKG_DSM_VERSION_MAJOR"@, SYNOPKG_DSM_VERSION_MAJOR@).insert(
        "SYNOPKG_DSM_VERSION_MINOR"@,
        SYNOPKG_DSM_VERSION_MINOR@,
    ).insert("SYNOPKG_DSM_VERSION_BUILD"@, SYNOPKG_DSM_VERSION_BUILD@).insert(
        "SYNOPKG_PKGDEST"@,
        SYNOPKG_PKGDEST@,
    ).insert("SYNOPKG_PKGNAME"@, SYNOPKG_PKGNAME@).insert("SVC_CWD"@, SYNOPKG_PKGDEST@).insert(
        "PID_FILE"@,
        PID_FILE@,
    ).insert("ENV_FILE"@, ENV_FILE@).insert("LOG_FILE"@, LOG_FILE@).insert(
        "LAUNCH_LOG_FILE"@,
        LAUNCH_LOG_FILE@,
    ).insert("LAUNCH_PID_FILE"@, LAUNCH_PID_FILE@).insert("INST_LOG"@, INST_LOG@).insert(
        "GIN_MODE"@,
        "release"@,
    )
}

/// Whether a path starts at the root of the file system.
pub open spec fn is_absolute(path: Seq<char>) -> bool {
    path.len() > 0 && path[0] == '/'
}

/// The variables of the base environment that name a fixed place of the
/// package in the file system.
pub open spec fn is_place_variable(name: Seq<char>) -> bool {
    name == "SYNOPKG_PKGDEST"@ || name == "SVC_CWD"@ || name == "PID_FILE"@ || name == "ENV_FILE"@
        || name == "LOG_FILE"@ || name == "LAUNCH_LOG_FILE"@ || name == "LAUNCH_PID_FILE"@ || name
        == "INST_LOG"@
}

/// Every fixed place of the package is in the base environment, as an
/// absolute path, whatever the two directories are.
pub proof fn lemma_places_absolute(
    config_path: Seq<char>,
    download_path: Seq<char>,
    name: Seq<char>,
)
    requires
        is_place_variable(name),
    ensures
        base_environment(config_path, download_path).dom().contains(name),
        is_absolute(base_environment(config_path, download_path)[name]),
{
    reveal_strlit("SYNOPKG_PKGDEST");
    reveal_strlit("SYNOPKG_PKGNAME");
    reveal_strlit("SVC_CWD");
    reveal_strlit("PID_FILE");
    reveal_strlit("ENV_FILE");
    reveal_strlit("LOG_FILE");
    reveal_strlit("LAUNCH_LOG_FILE");
    reveal_strlit("LAUNCH_PID_FILE");
    reveal_strlit("INST_LOG");
    reveal_strlit("GIN_MODE");
    reveal_strlit("/var/packages/pan-xunlei-com/target");
    reveal_strlit("/var/packages/pan-xunlei-com/target/var/pan-xunlei-com.pid");
    reveal_strlit("/var/packages/pan-xunlei-com/target/var/pan-xunlei-com.env");
    reveal_strlit("/var/packages/pan-xunlei-com/target/var/pan-xunlei-com.log");
    reveal_strlit("/var/packages/pan-xunlei-com/target/var/pan-xunlei-com-launcher.log");
    reveal_strlit("/var/packages/pan-xunlei-com/target/var/pan-xunlei-com-launcher.pid");
    reveal_strlit("/var/packages/pan-xunlei-com/target/var/pan-xunlei-com_install.log");
    assert("SYNOPKG_PKGDEST"@.len() == 15 && "SYNOPKG_PKGDEST"@[12] == 'E');
    assert("SYNOPKG_PKGNAME"@.len() == 15 && "SYNOPKG_PKGNAME"@[12] == 'A');
    assert("SVC_CWD"@.len() == 7);
    assert("PID_FILE"@.len() == 8 && "PID_FILE"@[0] == 'P');
    assert("ENV_FILE"@.len() == 8 && "ENV_FILE"@[0] == 'E');
    assert("LOG_FILE"@.len() == 8 && "LOG_FILE"@[0] == 'L');
    assert("INST_LOG"@.len() == 8 && "INST_LOG"@[0] == 'I');
    assert("GIN_MODE"@.len() == 8 && "GIN_MODE"@[0] == 'G');
    assert("LAUNCH_LOG_FILE"@.len() == 15 && "LAUNCH_LOG_FILE"@[7] == 'L');
    assert("LAUNCH_PID_FILE"@.len() == 15 && "LAUNCH_PID_FILE"@[7] == 'P');
    assert(SYNOPKG_PKGDEST@[0] == '/');
    assert(PID_FILE@[0] == '/');
    assert(ENV_FILE@[0] == '/');
    assert(LOG_FILE@[0] == '/');
    assert(LAUNCH_LOG_FILE@[0] == '/');
    assert(LAUNCH_PID_FILE@[0] == '/');
    assert(INST_LOG@[0] == '/');
}

/// The three directories of the configuration are handed on as given: the
/// configuration directory as `HOME` and `ConfigPath`, the download
/// directory as `DownloadPATH`.
pub proof fn lemma_directories_handed_on(config_path: Seq<char>, download_path: Seq<char>)
    ensures
        base_environment(config_path, download_path).dom().contains("HOME"@),
        base_environment(config_path, download_path)["HOME"@] == config_path,
        base_environment(config_path, download_path).dom().contains("ConfigPath"@),
        base_environment(config_path, download_path)["ConfigPath"@] == config_path,
        base_environment(config_path, download_path).dom().contains("DownloadPATH"@),
        base_environment(config_path, download_path)["DownloadPATH"@] == download_path,
{
    reveal_strlit("HOME");
    reveal_strlit("ConfigPath");
    reveal_strlit("DownloadPATH");
    reveal_strlit("SYNOPKG_DSM_VERSION_MAJOR");
    reveal_strlit("SYNOPKG_DSM_VERSION_MINOR");
    reveal_strlit("SYNOPKG_DSM_VERSION_BUILD");
    reveal_strlit("SYNOPKG_PKGDEST");
    reveal_strlit("SYNOPKG_PKGNAME");
    reveal_strlit("SVC_CWD");
    reveal_strlit("PID_FILE");
    reveal_strlit("ENV_FILE");
    reveal_strlit("LOG_FILE");
    reveal_strlit("LAUNCH_LOG_FILE");
    reveal_strlit("LAUNCH_PID_FILE");
    reveal_strlit("INST_LOG");
    reveal_strlit("GIN_MODE");
    assert("HOME"@.len() == 4);
    assert("ConfigPath"@.len() == 10);
    assert("DownloadPATH"@.len() == 12);
    assert("SYNOPKG_DSM_VERSION_MAJOR"@.len() == 25);
    assert("SYNOPKG_DSM_VERSION_MINOR"@.len() == 25);
    assert("SYNOPKG_DSM_VERSION_BUILD"@.len() == 25);
    assert("SYNOPKG_PKGDEST"@.len() == 15);
    assert("SYNOPKG_PKGNAME"@.len() == 15);
    assert("SVC_CWD"@.len() == 7);
    assert("PID_FILE"@.len() == 8);
    assert("ENV_FILE"@.len() == 8);
    assert("LOG_FILE"@.len() == 8);
    assert("INST_LOG"@.len() == 8);
    assert("GIN_MODE"@.len() == 8);
    assert("LAUNCH_LOG_FILE"@.len() == 15);
    assert("LAUNCH_PID_FILE"@.len() == 15);
}

/// Builds the base environment for the given configuration and download
/// directories.
pub fn base_envs(config_path: &str, download_path: &str) -> (envs: EnvSet)
    ensures
        envs@ == base_environment(config_path@, download_path@),
{
    let mut envs = EnvSet::new();
    envs.set("DriveListen", SOCK_FILE);
    let os_version = String::from_str("dsm ").concat(SYNOPKG_DSM_VERSION_MAJOR).concat(".").concat(
        SYNOPKG_DSM_VERSION_MINOR,
    ).concat("-").concat(SYNOPKG_DSM_VERSION_BUILD);
    envs.insert("OS_VERSION".to_owned(), os_version);
    envs.set("HOME", config_path);
    envs.set("ConfigPath", config_path);
    envs.set("DownloadPATH", download_path);
    envs.set("SYNOPKG_DSM_VERSION_MAJOR", SYNOPKG_DSM_VERSION_MAJOR);
    envs.set("SYNOPKG_DSM_VERSION_MINOR", SYNOPKG_DSM_VERSION_MINOR);
    envs.set("SYNOPKG_DSM_VERSION_BUILD", SYNOPKG_DSM_VERSION_BUILD);
    envs.set("SYNOPKG_PKGDEST", SYNOPKG_PKGDEST);
    envs.set("SYNOPKG_PKGNAME", SYNOPKG_PKGNAME);
    envs.set("SVC_CWD", SYNOPKG_PKGDEST);
    envs.set("PID_FILE", PID_FILE);
    envs.set("ENV_FILE", ENV_FILE);
    envs.set("LOG_FILE", LOG_FILE);
    envs.set("LAUNCH_LOG_FILE", LAUNCH_LOG_FILE);
    envs.set("LAUNCH_PID_FILE", LAUNCH_PID_FILE);
    envs.set("INST_LOG", INST_LOG);
    envs.set("GIN_MODE", "release");
    envs
}

/// Tells the programs where the bundled system libraries are.
pub fn ld_env(envs: &mut EnvSet, library_path: &str)
    ensures
        final(envs)@ == old(envs)@.insert("LD_LIBRARY_PATH"@, library_path@),
{
    envs.set("LD_LIBRARY_PATH", library_path);
}

/// The arguments of the backend: where it listens, where it writes its
/// process id, where it logs.
pub fn backend_args() -> (args: Vec<String>)
    ensures
        args@.len() == 3,
        args@[0]@ == "-launcher_listen="@ + LAUNCHER_SOCK@,
        args@[1]@ == "-pid="@ + PID_FILE@,
        args@[2]@ == "-logfile="@ + LAUNCH_LOG_FILE@,
{
    let mut args: Vec<String> = Vec::new();
    args.push(String::from_str("-launcher_listen=").concat(LAUNCHER_SOCK));
    args.push(String::from_str("-pid=").concat(PID_FILE));
    args.push(String::from_str("-logfile=").concat(LAUNCH_LOG_FILE));
    args
}

/// The interface the web UI binds to: loopback where it is internal, every
/// interface where it is not.
pub open spec fn bind_host_text(internal: bool) -> Seq<char> {
    if internal {
        "127.0.0.1"@
    } else {
        "0.0.0.0"@
    }
}

/// The interface the web UI binds to.
pub fn bind_host(internal: bool) -> (host: &'static str)
    ensures
        host@ == bind_host_text(internal),
{
    if internal {
        "127.0.0.1"
    } else {
        "0.0.0.0"
    }
}

/// The address the web UI listens on: host, `:`, port.
pub fn listen_address(internal: bool, port: u16) -> (address: String)
    ensures
        address@ == bind_host_text(internal) + ":"@ + decimal_text(port as nat),
{
    let mut out = chars_of(bind_host(internal));
    let mut colon = chars_of(":");
    out.append(&mut colon);
    write_unsigned(&mut out, port as u64);
    string_of(out.as_slice())
}

/// The launcher: runs the backend and serves the web UI.
pub struct XunleiLauncher {
    internal: bool,
    port: u16,
    download_path: String,
    config_path: String,
}

impl XunleiLauncher {
    pub closed spec fn spec_internal(&self) -> bool {
        self.internal
    }

    pub closed spec fn spec_port(&self) -> u16 {
        self.port
    }

    pub closed spec fn spec_download_path(&self) -> Seq<char> {
        self.download_path@
    }

    pub closed spec fn spec_config_path(&self) -> Seq<char> {
        self.config_path@
    }

    /// The launcher for the given parameters.
    pub fn from(config: Config) -> (launcher: XunleiLauncher)
        ensures
            launcher.spec_internal() == config.spec_internal(),
            launcher.spec_port() == config.spec_port(),
            launcher.spec_download_path() == config.spec_download_path(),
            launcher.spec_config_path() == config.spec_config_path(),
    {
        XunleiLauncher {
            internal: config.internal(),
            port: config.port(),
            download_path: config.download_path().clone(),
            config_path: config.config_path().clone(),
        }
    }

    /// The base environment of the backend and of the CGI program.
    pub fn envs(&self) -> (envs: EnvSet)
        ensures
            envs@ == base_environment(self.spec_config_path(), self.spec_download_path()),
    {
        base_envs(self.config_path.as_str(), self.download_path.as_str())
    }

    #[verifier::when_used_as_spec(spec_port)]
    pub fn port(&self) -> (port: u16)
        ensures
            port == self.spec_port(),
    {
        self.port
    }

    /// The address the web UI listens on.
    pub fn address(&self) -> (address: String)
        ensures
            address@ == bind_host_text(self.spec_internal()) + ":"@ + decimal_text(
                self.spec_port() as nat,
            ),
    {
        listen_address(self.internal, self.port)
    }
}

} // verus!
