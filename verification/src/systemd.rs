//! Installing and removing the package as a service of the host: the steps
//! in their order, the unit file, and the identity written for the backend.

use crate::config::Config;
use crate::decimal::{decimal_string, decimal_text};
use crate::standard::{
    APP_NAME, SYNOPKG_HOST, SYNOPKG_PKGBASE, SYNO_AUTHENTICATE_PATH, SYNO_INFO_PATH,
};
use crate::text::{chars_of, string_of_range};
use rand::Rng;
use vstd::prelude::*;
use vstd::string::StringExecFns;

verus! {

/// The description of the service in its unit file.
pub const SERVICE_DESCRIPTION: &'static str = "Thunder remote download service";

/// The unit file up to the description.
pub const UNIT_HEAD: &'static str = "[Unit]\n                Description=";

/// The unit file between the description and the arguments of the command.
pub const UNIT_COMMAND: &'static str =
    "\n                After=network.target network-online.target\n                Requires=network-online.target\n                \n                [Service]\n                Type=simple\n                ExecStart=/var/packages/pan-xunlei-com/xunlei execute ";

/// The unit file between the command and the user.
pub const UNIT_USER: &'static str =
    "\n                LimitNOFILE=1024\n                LimitNPROC=512\n                User=";

/// The unit file behind the user.
pub const UNIT_TAIL: &'static str =
    "\n                \n                [Install]\n                WantedBy=multi-user.target";

/// The script that answers every authentication request of the backend with OK.
pub const AUTHENTICATE_SCRIPT: &'static str = "#!/usr/bin/env sh\necho OK";

/// How many random bytes the identity of an installation is drawn from.
pub const UNIQUE_SEED_LEN: usize = 32;

/// How many characters the identity of an installation has.
pub const UNIQUE_ID_LEN: usize = 7;

/// The mode of directories and programs that the installer writes.
pub const MODE_PROGRAM: u32 = 0o755;

/// The mode of the system information file that the installer writes.
pub const MODE_INFO: u32 = 0o644;

/// The mode of the unit file that the installer writes.
pub const MODE_UNIT: u32 = 0o666;

/// What `systemctl` is asked to do.
#[derive(Clone, Copy, Debug, PartialEq, Eq, Structural)]
pub enum SystemctlCommand {
    DaemonReload,
    Enable,
    Start,
    Disable,
    Stop,
}

/// The arguments of `systemctl` for a command: the command's word, and the
/// service's name where the command speaks of the service.
pub open spec fn systemctl_arguments(command: SystemctlCommand) -> Seq<Seq<char>> {
    match command {
        SystemctlCommand::DaemonReload => seq!["daemon-reload"@],
        SystemctlCommand::Enable => seq!["enable"@, APP_NAME@],
        SystemctlCommand::Start => seq!["start"@, APP_NAME@],
        SystemctlCommand::Disable => seq!["disable"@, APP_NAME@],
        SystemctlCommand::Stop => seq!["stop"@, APP_NAME@],
    }
}

/// A list of strings as plain values.
pub open spec fn texts(list: Seq<String>) -> Seq<Seq<char>> {
    list.map_values(|s: String| s@)
}

/// The arguments of `systemctl` for a command.
pub fn systemctl_args(command: SystemctlCommand) -> (args: Vec<String>)
    ensures
        texts(args@) == systemctl_arguments(command),
{
    let mut args: Vec<String> = Vec::new();
    match command {
        SystemctlCommand::DaemonReload => {
            args.push(String::from_str("daemon-reload"));
        },
        SystemctlCommand::Enable => {
            args.push(String::from_str("enable"));
            args.push(String::from_str(APP_NAME));
        },
        SystemctlCommand::Start => {
            args.push(String::from_str("start"));
            args.push(String::from_str(APP_NAME));
        },
        SystemctlCommand::Disable => {
            args.push(String::from_str("disable"));
            args.push(String::from_str(APP_NAME));
        },
        SystemctlCommand::Stop => {
            args.push(String::from_str("stop"));
            args.push(String::from_str(APP_NAME));
        },
    }
    assert(texts(args@) =~= systemctl_arguments(command));
    args
}

/// One step of installing or removing the package.
#[derive(Clone, Copy, Debug, PartialEq, Eq, Structural)]
pub enum Step {
    /// Make sure that the download and the configuration directory exist.
    PrepareDirectories,
    /// Write the package's files and the files the backend looks for on its host.
    ExtractPackage,
    /// Write the unit file of the service.
    WriteUnitFile,
    /// Run `systemctl` with a command.
    Systemctl(SystemctlCommand),
    /// Remove the unit file of the service, where there is one.
    RemoveUnitFile,
    /// Remove the package's directory, where there is one.
    RemovePackage,
}

/// Something that is carried out as a fixed run of steps. The steps are
/// performed in their order; a step that cannot be performed ends the run.
pub trait Running {
    /// The steps, first to last.
    spec fn plan(&self) -> Seq<Step>;

    /// The steps, first to last.
    fn steps(&self) -> (steps: Vec<Step>)
        ensures
            steps@ == self.plan(),
    ;
}

/// The installation of the package as a service.
pub struct XunleiInstall {
    description: &'static str,
    internal: bool,
    port: u16,
    download_path: String,
    config_path: String,
    uid: u32,
    gid: u32,
}

/// The flag of the launch command for the loopback interface, empty where
/// the web UI is to listen on every interface.
pub open spec fn internal_flag(internal: bool) -> Seq<char> {
    if internal {
        "-i"@
    } else {
        ""@
    }
}

/// The unit file of the service.
pub open spec fn unit_text(
    description: Seq<char>,
    internal: bool,
    port: u16,
    download_path: Seq<char>,
    config_path: Seq<char>,
    uid: u32,
) -> Seq<char> {
    UNIT_HEAD@ + description + UNIT_COMMAND@ + internal_flag(internal) + " -p "@ + decimal_text(
        port as nat,
    ) + " -d "@ + download_path + " -c "@ + config_path + UNIT_USER@ + decimal_text(uid as nat)
        + UNIT_TAIL@
}

impl XunleiInstall {
    pub closed spec fn spec_internal(&self) -> bool {
        self.internal
    }

    pub closed spec fn spec_port(&self) -> u16 {
        self.port
    }

    pub closed spec fn spec_download_path(&self) -> Seq<char> {
        self.download_path@
    }

    pub closed spec fn spec_config_path(&self) -> Seq<char> {
        self.config_path@
    }

    pub closed spec fn spec_uid(&self) -> u32 {
        self.uid
    }

    pub closed spec fn spec_gid(&self) -> u32 {
        self.gid
    }

    pub closed spec fn spec_description(&self) -> Seq<char> {
        self.description@
    }

    /// The installation for the given parameters, to be owned by the user
    /// `uid` and the group `gid`.
    pub fn from(config: Config, uid: u32, gid: u32) -> (install: XunleiInstall)
        ensures
            install.spec_description() == SERVICE_DESCRIPTION@,
            install.spec_internal() == config.spec_internal(),
            install.spec_port() == config.spec_port(),
            install.spec_download_path() == config.spec_download_path(),
            install.spec_config_path() == config.spec_config_path(),
            install.spec_uid() == uid,
            install.spec_gid() == gid,
    {
        XunleiInstall {
            description: SERVICE_DESCRIPTION,
            internal: config.internal(),
            port: config.port(),
            download_path: config.download_path().clone(),
            config_path: config.config_path().clone(),
            uid,
            gid,
        }
    }

    #[verifier::when_used_as_spec(spec_uid)]
    pub fn uid(&self) -> (uid: u32)
        ensures
            uid == self.spec_uid(),
    {
        self.uid
    }

    #[verifier::when_used_as_spec(spec_gid)]
    pub fn gid(&self) -> (gid: u32)
        ensures
            gid == self.spec_gid(),
    {
        self.gid
    }

    #[verifier::when_used_as_spec(spec_port)]
    pub fn port(&self) -> (port: u16)
        ensures
            port == self.spec_port(),
    {
        self.port
    }

    pub fn download_path(&self) -> (path: &String)
        ensures
            path@ == self.spec_download_path(),
    {
        &self.download_path
    }

    pub fn config_path(&self) -> (path: &String)
        ensures
            path@ == self.spec_config_path(),
    {
        &self.config_path
    }

    /// The unit file of the service: it runs the launcher with this
    /// installation's parameters, as this installation's user.
    pub fn systemctl(&self) -> (unit: String)
        ensures
            unit@ == unit_text(
                self.spec_description(),
                self.spec_internal(),
                self.spec_port(),
                self.spec_download_path(),
                self.spec_config_path(),
                self.spec_uid(),
            ),
    {
        let flag = if self.internal {
            "-i"
        } else {
            ""
        };
        let port = decimal_string(self.port as u64);
        let uid = decimal_string(self.uid as u64);
        String::from_str(UNIT_HEAD).concat(self.description).concat(UNIT_COMMAND).concat(
            flag,
        ).concat(" -p ").concat(port.as_str()).concat(" -d ").concat(
            self.download_path.as_str(),
        ).concat(" -c ").concat(self.config_path.as_str()).concat(UNIT_USER).concat(
            uid.as_str(),
        ).concat(UNIT_TAIL)
    }
}

/// The steps of an installation: the directories, the package, the unit
/// file, and then the service is made known, enabled and started.
pub open spec fn install_plan() -> Seq<Step> {
    seq![
        Step::PrepareDirectories,
        Step::ExtractPackage,
        Step::WriteUnitFile,
        Step::Systemctl(SystemctlCommand::DaemonReload),
        Step::Systemctl(SystemctlCommand::Enable),
        Step::Systemctl(SystemctlCommand::Start),
    ]
}

impl Running for XunleiInstall {
    open spec fn plan(&self) -> Seq<Step> {
        install_plan()
    }

    fn steps(&self) -> (steps: Vec<Step>) {
        let mut steps: Vec<Step> = Vec::new();
        steps.push(Step::PrepareDirectories);
        steps.push(Step::ExtractPackage);
        steps.push(Step::WriteUnitFile);
        steps.push(Step::Systemctl(SystemctlCommand::DaemonReload));
        steps.push(Step::Systemctl(SystemctlCommand::Enable));
        steps.push(Step::Systemctl(SystemctlCommand::Start));
        assert(steps@ =~= install_plan());
        steps
    }
}

/// The removal of the service and of the package.
pub struct XunleiUninstall;

/// The steps of a removal: the service is disabled and stopped, its unit
/// file and the package are removed, and the host is told to read its units
/// again.
pub open spec fn uninstall_plan() -> Seq<Step> {
    seq![
        Step::Systemctl(SystemctlCommand::Disable),
        Step::Systemctl(SystemctlCommand::Stop),
        Step::RemoveUnitFile,
        Step::RemovePackage,
        Step::Systemctl(SystemctlCommand::DaemonReload),
    ]
}

impl Running for XunleiUninstall {
    open spec fn plan(&self) -> Seq<Step> {
        uninstall_plan()
    }

    fn steps(&self) -> (steps: Vec<Step>) {
        let mut steps: Vec<Step> = Vec::new();
        steps.push(Step::Systemctl(SystemctlCommand::Disable));
        steps.push(Step::Systemctl(SystemctlCommand::Stop));
        steps.push(Step::RemoveUnitFile);
        steps.push(Step::RemovePackage);
        steps.push(Step::Systemctl(SystemctlCommand::DaemonReload));
        assert(steps@ =~= uninstall_plan());
        steps
    }
}

/// Where the installer writes the system information that the backend
/// reads: the path of that file on a host, below the package's own copy of
/// the host.
pub fn synoinfo_path() -> (path: String)
    ensures
        path@ == SYNOPKG_HOST@ + SYNO_INFO_PATH@,
{
    String::from_str(SYNOPKG_HOST).concat(SYNO_INFO_PATH)
}

/// Where the installer writes the authentication script that the backend
/// calls: the path of that script on a host, below the package's own copy of
/// the host.
pub fn authenticate_path() -> (path: String)
    ensures
        path@ == SYNOPKG_HOST@ + SYNO_AUTHENTICATE_PATH@,
{
    String::from_str(SYNOPKG_HOST).concat(SYNO_AUTHENTICATE_PATH)
}

/// Where the installer puts the launcher itself: in the package's directory,
/// under the service's name.
pub fn start_endpoint() -> (path: String)
    ensures
        path@ == SYNOPKG_PKGBASE@ + "/"@ + APP_NAME@,
{
    String::from_str(SYNOPKG_PKGBASE).concat("/").concat(APP_NAME)
}

/// The sixteen hexadecimal digits, in lower case.
pub const HEX_DIGITS: &'static str = "0123456789abcdef";

/// Whether a character is a hexadecimal digit in lower case.
pub open spec fn is_hex_digit(c: char) -> bool {
    ('0' <= c && c <= '9') || ('a' <= c && c <= 'f')
}

/// The hexadecimal text of bytes: for each byte two digits in lower case,
/// the higher four bits first.
pub open spec fn hex_text(bytes: Seq<u8>) -> Seq<char> {
    Seq::new(
        2 * bytes.len(),
        |i: int|
            if i % 2 == 0 {
                HEX_DIGITS@[bytes[i / 2] as int / 16]
            } else {
                HEX_DIGITS@[bytes[i / 2] as int % 16]
            },
    )
}

/// `hex::encode`: the bytes as a string of hexadecimal digits in lower case,
/// two for each byte, the higher four bits first.
#[verifier::external_body]
fn hex_encode(bytes: &[u8]) -> (text: String)
    ensures
        text@ == hex_text(bytes@),
{
    hex::encode(bytes)
}

/// `rand::thread_rng` and `Rng::fill`: `count` bytes of the thread's random
/// number generator. Nothing is known of the bytes but their number.
#[verifier::external_body]
fn random_bytes(count: usize) -> (bytes: Vec<u8>)
    ensures
        bytes@.len() == count,
{
    let mut bytes = vec![0u8; count];
    rand::thread_rng().fill(&mut bytes[..]);
    bytes
}

/// The identity that a seed gives: the first characters of its hexadecimal text.
pub open spec fn unique_id_text(seed: Seq<u8>) -> Seq<char> {
    if hex_text(seed).len() <= UNIQUE_ID_LEN {
        hex_text(seed)
    } else {
        hex_text(seed).take(UNIQUE_ID_LEN as int)
    }
}

/// The line of system information that names the host to the backend.
pub open spec fn synoinfo_text(seed: Seq<u8>) -> Seq<char> {
    "unique=\"synology_"@ + unique_id_text(seed) + "_720+\""@
}

/// A seed of four bytes or more gives an identity of seven hexadecimal
/// digits in lower case.
pub proof fn lemma_unique_id(seed: Seq<u8>)
    requires
        seed.len() >= 4,
    ensures
        unique_id_text(seed).len() == UNIQUE_ID_LEN,
        forall|i: int|
            0 <= i < UNIQUE_ID_LEN ==> is_hex_digit(#[trigger] unique_id_text(seed)[i]),
{
    reveal_strlit("0123456789abcdef");
    assert forall|i: int| 0 <= i < UNIQUE_ID_LEN implies is_hex_digit(
        #[trigger] unique_id_text(seed)[i],
    ) by {
        let v = if i % 2 == 0 {
            seed[i / 2] as int / 16
        } else {
            seed[i / 2] as int % 16
        };
        assert(unique_id_text(seed)[i] == HEX_DIGITS@[v]);
        assert(0 <= v < 16);
    }
}

/// The identity that a seed gives.
pub fn unique_id(seed: &[u8]) -> (id: String)
    ensures
        id@ == unique_id_text(seed@),
{
    let text = hex_encode(seed);
    let chars = chars_of(text.as_str());
    if chars.len() <= UNIQUE_ID_LEN {
        assert(chars@.subrange(0, chars@.len() as int) == chars@);
        string_of_range(chars.as_slice(), 0, chars.len())
    } else {
        string_of_range(chars.as_slice(), 0, UNIQUE_ID_LEN)
    }
}

/// The line of system information for an installation with this seed.
pub fn synoinfo_line(seed: &[u8]) -> (line: String)
    ensures
        line@ == synoinfo_text(seed@),
{
    let id = unique_id(seed);
    String::from_str("unique=\"synology_").concat(id.as_str()).concat("_720+\"")
}

/// The line of system information for a new installation, whose identity is
/// drawn at random.
pub fn new_synoinfo_line() -> (line: String)
    ensures
        exists|seed: Seq<u8>|
            seed.len() == UNIQUE_SEED_LEN && line@ == #[trigger] synoinfo_text(seed),
{
    let seed = random_bytes(UNIQUE_SEED_LEN);
    synoinfo_line(seed.as_slice())
}

} // verus!
