//! Launch parameters and the rule for the web UI port.

use crate::decimal::{
    decimal_text, is_digit, lemma_decimal_text, lemma_parse_decimal_text, parse_unsigned,
    read_unsigned,
};
use crate::text::chars_of;
use vstd::prelude::*;
use vstd::string::StringExecFns;

verus! {

/// The lowest port the web UI may listen on.
pub const PORT_MIN: u16 = 1024;

/// The highest port the web UI may listen on.
pub const PORT_MAX: u16 = 65535;

/// Why a text was refused as a port.
#[derive(Clone, Copy, Debug, PartialEq, Eq, Structural)]
pub enum PortError {
    /// The text is not an unsigned decimal number that fits the machine word.
    NotANumber,
    /// The number is below `PORT_MIN` or above `PORT_MAX`.
    OutOfRange,
}

pub open spec fn port_in_range(n: nat) -> bool {
    PORT_MIN <= n && n <= PORT_MAX
}

/// What a text is as a port: the number it stands for where that lies in the
/// range, else the reason why not.
pub open spec fn port_of_text(s: Seq<char>) -> Result<u16, PortError> {
    match parse_unsigned(s, usize::MAX as nat) {
        None => Err(PortError::NotANumber),
        Some(n) => if port_in_range(n) {
            Ok(n as u16)
        } else {
            Err(PortError::OutOfRange)
        },
    }
}

/// Reads a port from its decimal text and holds it to the range.
pub fn parser_port_in_range(s: &str) -> (port: Result<u16, PortError>)
    ensures
        port == port_of_text(s@),
{
    let chars = chars_of(s);
    match read_unsigned(chars.as_slice(), usize::MAX as u64) {
        None => Err(PortError::NotANumber),
        Some(n) => {
            if n >= 1024 && n <= 65535 {
                Ok(n as u16)
            } else {
                Err(PortError::OutOfRange)
            }
        },
    }
}

/// Every port of the range is accepted when written in decimal, and every
/// other number is refused.
pub proof fn lemma_port_range(p: nat)
    ensures
        port_in_range(p) ==> port_of_text(decimal_text(p)) == Ok::<u16, PortError>(p as u16),
        !port_in_range(p) ==> port_of_text(decimal_text(p)) is Err,
        !port_in_range(p) && p <= usize::MAX ==> port_of_text(decimal_text(p)) == Err::<
            u16,
            PortError,
        >(PortError::OutOfRange),
{
    if p <= usize::MAX {
        lemma_parse_decimal_text(p, usize::MAX as nat);
    } else {
        lemma_decimal_text(p);
        assert(is_digit(decimal_text(p)[0]));
    }
}

/// The message shown for a refused port text.
pub open spec fn port_error_text(err: PortError, input: Seq<char>) -> Seq<char> {
    match err {
        PortError::NotANumber => "`"@ + input + "` isn't a port number"@,
        PortError::OutOfRange => "Port not in range 1024-65535"@,
    }
}

/// The message shown for a refused port text.
pub fn port_error_message(err: PortError, input: &str) -> (message: String)
    ensures
        message@ == port_error_text(err, input@),
{
    match err {
        PortError::NotANumber => String::from_str("`").concat(input).concat(
            "` isn't a port number",
        ),
        PortError::OutOfRange => String::from_str("Port not in range 1024-65535"),
    }
}

/// Launch parameters, given once at startup.
pub struct Config {
    internal: bool,
    port: u16,
    config_path: String,
    download_path: String,
}

impl Config {
    #[verifier::type_invariant]
    spec fn port_allowed(self) -> bool {
        port_in_range(self.port as nat)
    }

    /// Whether the web UI listens on the loopback interface only.
    pub closed spec fn spec_internal(&self) -> bool {
        self.internal
    }

    pub closed spec fn spec_port(&self) -> u16 {
        self.port
    }

    pub closed spec fn spec_config_path(&self) -> Seq<char> {
        self.config_path@
    }

    pub closed spec fn spec_download_path(&self) -> Seq<char> {
        self.download_path@
    }

    /// Parameters with the given values. A port outside the range is refused.
    pub fn new(internal: bool, port: u16, config_path: String, download_path: String) -> (config:
        Result<Config, PortError>)
        ensures
            match config {
                Ok(c) => port_in_range(port as nat) && c.spec_internal() == internal
                    && c.spec_port() == port && c.spec_config_path() == config_path@
                    && c.spec_download_path() == download_path@,
                Err(e) => !port_in_range(port as nat) && e == PortError::OutOfRange,
            },
    {
        if port >= PORT_MIN {
            Ok(Config { internal, port, config_path, download_path })
        } else {
            Err(PortError::OutOfRange)
        }
    }

    #[verifier::when_used_as_spec(spec_internal)]
    pub fn internal(&self) -> (internal: bool)
        ensures
            internal == self.spec_internal(),
    {
        self.internal
    }

    /// The web UI port, which lies in the range.
    #[verifier::when_used_as_spec(spec_port)]
    pub fn port(&self) -> (port: u16)
        ensures
            port == self.spec_port(),
            port_in_range(port as nat),
    {
        proof {
            use_type_invariant(self);
        }
        self.port
    }

    pub fn config_path(&self) -> (path: &String)
        ensures
            path@ == self.spec_config_path(),
    {
        &self.config_path
    }

    pub fn download_path(&self) -> (path: &String)
        ensures
            path@ == self.spec_download_path(),
    {
        &self.download_path
    }
}

/// What the program was asked to do.
pub enum Commands {
    /// Install the package and its service.
    Install(Config),
    /// Remove the service and the package.
    Uninstall,
    /// Run the backend and the web UI.
    Launch(Config),
}

} // verus!
