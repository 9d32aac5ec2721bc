//! Fixed names and locations of the package on the host.

use vstd::prelude::*;

verus! {

pub const TMP_DOWNLOAD_PATH: &'static str = "/tmp/downloads";

pub const APP_NAME: &'static str = "xunlei";

pub const SYSTEMCTL_UNIT_FILE: &'static str = "/etc/systemd/system/xunlei.service";

pub const SYNO_AUTHENTICATE_PATH: &'static str =
    "/usr/syno/synoman/webman/modules/authenticate.cgi";

pub const SYNO_INFO_PATH: &'static str = "/etc/synoinfo.conf";

pub const SYNOPKG_DSM_VERSION_MAJOR: &'static str = "7";

pub const SYNOPKG_DSM_VERSION_MINOR: &'static str = "0";

pub const SYNOPKG_DSM_VERSION_BUILD: &'static str = "1";

pub const SYNOPKG_PKGNAME: &'static str = "pan-xunlei-com";

pub const SYNOPKG_PKGBASE: &'static str = "/var/packages/pan-xunlei-com";

pub const SYNOPKG_PKGDEST: &'static str = "/var/packages/pan-xunlei-com/target";

pub const SYNOPKG_VAR: &'static str = "/var/packages/pan-xunlei-com/target/var/";

pub const SYNOPKG_HOST: &'static str = "/var/packages/pan-xunlei-com/target/host";

pub const SYNOPKG_CLI_WEB: &'static str = "/var/packages/pan-xunlei-com/target/xunlei-pan-cli-web";

/// The backend executable on 64-bit x86 hosts.
pub const LAUNCHER_EXE_AMD64: &'static str =
    "/var/packages/pan-xunlei-com/target/xunlei-pan-cli-launcher.amd64";

/// The backend executable on 64-bit ARM hosts.
pub const LAUNCHER_EXE_ARM64: &'static str =
    "/var/packages/pan-xunlei-com/target/xunlei-pan-cli-launcher.arm64";

pub const LAUNCHER_SOCK: &'static str =
    "unix:///var/packages/pan-xunlei-com/target/var/pan-xunlei-com-launcher.sock";

pub const SOCK_FILE: &'static str =
    "unix:///var/packages/pan-xunlei-com/target/var/pan-xunlei-com.sock";

pub const PID_FILE: &'static str = "/var/packages/pan-xunlei-com/target/var/pan-xunlei-com.pid";

pub const ENV_FILE: &'static str = "/var/packages/pan-xunlei-com/target/var/pan-xunlei-com.env";

pub const LOG_FILE: &'static str = "/var/packages/pan-xunlei-com/target/var/pan-xunlei-com.log";

pub const LAUNCH_PID_FILE: &'static str =
    "/var/packages/pan-xunlei-com/target/var/pan-xunlei-com-launcher.pid";

pub const LAUNCH_LOG_FILE: &'static str =
    "/var/packages/pan-xunlei-com/target/var/pan-xunlei-com-launcher.log";

pub const INST_LOG: &'static str =
    "/var/packages/pan-xunlei-com/target/var/pan-xunlei-com_install.log";

pub const DEFAULT_CONFIG_PATH: &'static str = "/var/packages/pan-xunlei-com/config";

pub const SYNOPKG_WEB_UI_HOME: &'static str = "/webman/3rdparty/pan-xunlei-com/index.cgi";

pub const CONFIG_FILE_NAME: &'static str = "config.json";

/// The web UI port used where none is configured.
pub const DEFAULT_PORT: u16 = 5055;

} // verus!
