//! Launcher and CGI gateway logic for the Xunlei download engine on a NAS host.
//!
//! The engine is a vendored backend process with a web UI that is written as
//! a CGI program. This crate holds the rules around them, each with a
//! contract that is proved:
//!
//! - `config`: the launch parameters and the range of the web UI port;
//! - `env`, `launch`, `daemon`: the environment handed to the backend and to
//!   the CGI program, the backend's arguments, the listening address;
//! - `gateway`: which requests the gateway answers by itself, the environment
//!   of the CGI program for the others, and the reading of its output;
//! - `supervisor`: the life of the backend as a state machine;
//! - `systemd`, `xunlei_asset`: the steps and texts of installing, removing
//!   and fetching the package;
//! - `decimal`, `text`, `standard`: numbers as text, characters, fixed names.
//!
//! Processes, sockets, files and signals are not touched here: the caller
//! performs what these functions decide.

pub mod config;
pub mod daemon;
pub mod decimal;
pub mod env;
pub mod gateway;
pub mod launch;
pub mod standard;
pub mod supervisor;
pub mod systemd;
pub mod text;
pub mod xunlei_asset;
