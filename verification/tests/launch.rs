use xunlei::config::Config;
use xunlei::daemon::{DaemonSettings, XunleiDaemon};
use xunlei::env::EnvSet;
use xunlei::launch::{backend_args, base_envs, bind_host, ld_env, listen_address, XunleiLauncher};

fn expected_base(config_path: &str, download_path: &str) -> Vec<(String, String)> {
    let var = "/var/packages/pan-xunlei-com/target/var/";
    let mut list = vec![
        (
            "DriveListen".to_string(),
            format!("unix://{}pan-xunlei-com.sock", var),
        ),
        ("OS_VERSION".to_string(), "dsm 7.0-1".to_string()),
        ("HOME".to_string(), config_path.to_string()),
        ("ConfigPath".to_string(), config_path.to_string()),
        ("DownloadPATH".to_string(), download_path.to_string()),
        ("SYNOPKG_DSM_VERSION_MAJOR".to_string(), "7".to_string()),
        ("SYNOPKG_DSM_VERSION_MINOR".to_string(), "0".to_string()),
        ("SYNOPKG_DSM_VERSION_BUILD".to_string(), "1".to_string()),
        (
            "SYNOPKG_PKGDEST".to_string(),
            "/var/packages/pan-xunlei-com/target".to_string(),
        ),
        ("SYNOPKG_PKGNAME".to_string(), "pan-xunlei-com".to_string()),
        (
            "SVC_CWD".to_string(),
            "/var/packages/pan-xunlei-com/target".to_string(),
        ),
        ("PID_FILE".to_string(), format!("{}pan-xunlei-com.pid", var)),
        ("ENV_FILE".to_string(), format!("{}pan-xunlei-com.env", var)),
        ("LOG_FILE".to_string(), format!("{}pan-xunlei-com.log", var)),
        (
            "LAUNCH_LOG_FILE".to_string(),
            format!("{}pan-xunlei-com-launcher.log", var),
        ),
        (
            "LAUNCH_PID_FILE".to_string(),
            format!("{}pan-xunlei-com-launcher.pid", var),
        ),
        (
            "INST_LOG".to_string(),
            format!("{}pan-xunlei-com_install.log", var),
        ),
        ("GIN_MODE".to_string(), "release".to_string()),
    ];
    list.sort();
    list
}

fn sorted(envs: &EnvSet) -> Vec<(String, String)> {
    let mut list = envs.to_vec();
    list.sort();
    list
}

#[test]
fn base_environment_has_every_variable() {
    let envs = base_envs("/etc/xunlei", "/downloads");
    assert_eq!(sorted(&envs), expected_base("/etc/xunlei", "/downloads"));
}

#[test]
fn fixed_places_are_absolute_paths() {
    let envs = base_envs("relative", "also relative");
    for name in [
        "SYNOPKG_PKGDEST",
        "SVC_CWD",
        "PID_FILE",
        "ENV_FILE",
        "LOG_FILE",
        "LAUNCH_LOG_FILE",
        "LAUNCH_PID_FILE",
        "INST_LOG",
    ] {
        match envs.get(name) {
            Some(path) => assert!(path.starts_with('/')),
            None => panic!("a fixed place is missing"),
        }
    }
}

#[test]
fn launcher_takes_its_parameters_from_the_config() {
    let config = match Config::new(true, 8080, "/config".to_string(), "/data".to_string()) {
        Ok(c) => c,
        Err(_) => panic!("port 8080 lies in the range"),
    };
    let launcher = XunleiLauncher::from(config);
    assert_eq!(launcher.port(), 8080);
    assert_eq!(launcher.address(), "127.0.0.1:8080");
    assert_eq!(sorted(&launcher.envs()), expected_base("/config", "/data"));
}

#[test]
fn web_ui_listens_on_loopback_or_everywhere() {
    assert_eq!(bind_host(true), "127.0.0.1");
    assert_eq!(bind_host(false), "0.0.0.0");
    assert_eq!(listen_address(true, 5055), "127.0.0.1:5055");
    assert_eq!(listen_address(false, 65535), "0.0.0.0:65535");
    assert_eq!(listen_address(false, 1024), "0.0.0.0:1024");
}

#[test]
fn backend_is_told_its_socket_pid_file_and_log() {
    assert_eq!(
        backend_args(),
        vec![
            "-launcher_listen=unix:///var/packages/pan-xunlei-com/target/var/pan-xunlei-com-launcher.sock"
                .to_string(),
            "-pid=/var/packages/pan-xunlei-com/target/var/pan-xunlei-com.pid".to_string(),
            "-logfile=/var/packages/pan-xunlei-com/target/var/pan-xunlei-com-launcher.log"
                .to_string(),
        ]
    );
}

#[test]
fn library_path_is_added() {
    let mut envs = base_envs("/c", "/d");
    ld_env(&mut envs, "/var/packages/pan-xunlei-com/target/lib");
    assert_eq!(
        envs.get("LD_LIBRARY_PATH"),
        Some("/var/packages/pan-xunlei-com/target/lib".to_string())
    );
    assert_eq!(envs.to_vec().len(), 19);
}

#[test]
fn daemon_runs_with_the_settings_read() {
    let daemon = XunleiDaemon::new(
        Some("/etc/xunlei".to_string()),
        Some(DaemonSettings {
            port: 6000,
            internal: true,
            download_path: "/data".to_string(),
        }),
    );
    assert_eq!(daemon.port(), 6000);
    assert!(daemon.internal());
    assert_eq!(daemon.download_path(), "/data");
    assert_eq!(daemon.config_path(), "/etc/xunlei");
    assert_eq!(sorted(&daemon.envs()), expected_base("/etc/xunlei", "/data"));
}

#[test]
fn daemon_falls_back_to_the_defaults() {
    let daemon = XunleiDaemon::new(None, None);
    assert_eq!(daemon.port(), 5055);
    assert!(!daemon.internal());
    assert_eq!(daemon.download_path(), "/tmp/downloads");
    assert_eq!(daemon.config_path(), "/var/packages/pan-xunlei-com");
    assert_eq!(
        XunleiDaemon::settings_directory(Some("/x".to_string())),
        "/x"
    );
}
