//! The parameters of a connection, resolved from four named values.

use crate::rcon::decimal::{decimal_nat, parse_u16, parse_u64, parse_unsigned, u64_to_decimal};
use crate::rcon::error::{RconError, RconErrorView};
use vstd::prelude::*;
use vstd::string::*;
use vstd::utf8::encode_utf8;

verus! {

/// Default timeout for requests in milliseconds.
pub const DEFAULT_RCON_TIMEOUT: u64 = 5000;

/// The four values as the environment holds them at one moment: `RCON_HOST`,
/// `RCON_PORT`, `RCON_PASSWORD` and `RCON_TIMEOUT`, each absent or a text.
#[derive(Debug, Clone)]
pub struct RconEnvironment {
    pub host: Option<String>,
    pub port: Option<String>,
    pub password: Option<String>,
    pub timeout: Option<String>,
}

/// The mathematical content of an [`RconEnvironment`].
pub ghost struct RconEnvironmentView {
    pub host: Option<Seq<char>>,
    pub port: Option<Seq<char>>,
    pub password: Option<Seq<char>>,
    pub timeout: Option<Seq<char>>,
}

/// The text of an optional value.
pub open spec fn text_of(value: Option<String>) -> Option<Seq<char>> {
    match value {
        Some(text) => Some(text@),
        None => None,
    }
}

impl View for RconEnvironment {
    type V = RconEnvironmentView;

    open spec fn view(&self) -> RconEnvironmentView {
        RconEnvironmentView {
            host: text_of(self.host),
            port: text_of(self.port),
            password: text_of(self.password),
            timeout: text_of(self.timeout),
        }
    }
}

/// Where to connect, with what secret, and how long to wait. The timeout is
/// carried; nothing here applies it as a deadline.
#[derive(Debug, Clone)]
pub struct RconConfiguration {
    pub host: String,
    pub port: u16,
    pub password: String,
    pub timeout: u64,
}

/// The mathematical content of an [`RconConfiguration`].
pub ghost struct RconConfigurationView {
    pub host: Seq<char>,
    pub port: u16,
    pub password: Seq<char>,
    pub timeout: u64,
}

impl RconConfigurationView {
    /// The address to connect to: the host, a colon and the port in decimal.
    pub open spec fn address(self) -> Seq<char> {
        self.host + seq![':'] + decimal_nat(self.port as nat)
    }
}

impl View for RconConfiguration {
    type V = RconConfigurationView;

    open spec fn view(&self) -> RconConfigurationView {
        RconConfigurationView {
            host: self.host@,
            port: self.port,
            password: self.password@,
            timeout: self.timeout,
        }
    }
}

/// What can be wrong with the four values, in the order in which it is looked
/// for.
pub ghost enum ConfigurationFault {
    HostMissing,
    PortMissing,
    PortInvalid,
    PasswordMissing,
    TimeoutInvalid,
}

impl ConfigurationFault {
    /// The cause that the error carries: it names the value.
    pub open spec fn cause(self) -> Seq<char> {
        match self {
            ConfigurationFault::HostMissing => "Environment variable 'RCON_HOST' is not set"@,
            ConfigurationFault::PortMissing => "Environment variable 'RCON_PORT' is not set"@,
            ConfigurationFault::PortInvalid =>
                "Environment variable 'RCON_PORT' is not a valid number"@,
            ConfigurationFault::PasswordMissing =>
                "Environment variable 'RCON_PASSWORD' is not set"@,
            ConfigurationFault::TimeoutInvalid =>
                "Environment variable 'RCON_TIMEOUT' is not a valid number"@,
        }
    }

    /// The error that reports the fault.
    pub open spec fn error(self) -> RconErrorView {
        RconErrorView::Configuration { cause: self.cause() }
    }
}

/// The port that a text spells: an unsigned 16-bit number in decimal.
pub open spec fn port_of(text: Seq<char>) -> Option<nat> {
    parse_unsigned(encode_utf8(text), u16::MAX as nat)
}

/// The timeout that a value gives: the default where the value is absent or
/// empty, else the unsigned 64-bit number that it spells in decimal.
pub open spec fn timeout_of(value: Option<Seq<char>>) -> Option<nat> {
    match value {
        None => Some(DEFAULT_RCON_TIMEOUT as nat),
        Some(text) => if text.len() == 0 {
            Some(DEFAULT_RCON_TIMEOUT as nat)
        } else {
            parse_unsigned(encode_utf8(text), u64::MAX as nat)
        },
    }
}

/// The configuration that four values resolve to, or the first fault in them.
pub open spec fn resolve(environment: RconEnvironmentView) -> Result<
    RconConfigurationView,
    ConfigurationFault,
> {
    if environment.host is None {
        Err(ConfigurationFault::HostMissing)
    } else if environment.port is None {
        Err(ConfigurationFault::PortMissing)
    } else if port_of(environment.port->0) is None {
        Err(ConfigurationFault::PortInvalid)
    } else if environment.password is None {
        Err(ConfigurationFault::PasswordMissing)
    } else if timeout_of(environment.timeout) is None {
        Err(ConfigurationFault::TimeoutInvalid)
    } else {
        Ok(
            RconConfigurationView {
                host: environment.host->0,
                port: port_of(environment.port->0)->0 as u16,
                password: environment.password->0,
                timeout: timeout_of(environment.timeout)->0 as u64,
            },
        )
    }
}

/// Whether `r` is the outcome that `resolve` gives for `environment`.
pub open spec fn resolved(
    environment: RconEnvironmentView,
    r: Result<RconConfiguration, RconError>,
) -> bool {
    match resolve(environment) {
        Ok(view) => r matches Ok(configuration) && configuration@ == view,
        Err(fault) => r matches Err(error) && error@ == fault.error(),
    }
}

fn fault(cause: &str) -> (r: Result<RconConfiguration, RconError>)
    ensures
        r matches Err(error) && error@ == (RconErrorView::Configuration { cause: cause@ }),
{
    Err(RconError::Configuration { cause: String::from_str(cause) })
}

impl RconConfiguration {
    /// Resolves the configuration from the four values. Host, port and
    /// password must be there, and the error names the first that is not; the
    /// port must spell an unsigned 16-bit number; the timeout falls back to the
    /// default where it is absent or empty, and must else spell an unsigned
    /// 64-bit number.
    pub fn try_new(environment: &RconEnvironment) -> (r: Result<RconConfiguration, RconError>)
        ensures
            resolved(environment@, r),
    {
        let host: String = match &environment.host {
            Some(text) => text.clone(),
            None => {
                return fault("Environment variable 'RCON_HOST' is not set");
            },
        };
        let port: u16 = match &environment.port {
            Some(text) => match parse_u16(text.as_str()) {
                Some(port) => port,
                None => {
                    return fault("Environment variable 'RCON_PORT' is not a valid number");
                },
            },
            None => {
                return fault("Environment variable 'RCON_PORT' is not set");
            },
        };
        let password: String = match &environment.password {
            Some(text) => text.clone(),
            None => {
                return fault("Environment variable 'RCON_PASSWORD' is not set");
            },
        };
        let timeout: u64 = match &environment.timeout {
            Some(text) => if text.as_str().is_empty() {
                DEFAULT_RCON_TIMEOUT
            } else {
                match parse_u64(text.as_str()) {
                    Some(timeout) => timeout,
                    None => {
                        return fault("Environment variable 'RCON_TIMEOUT' is not a valid number");
                    },
                }
            },
            None => DEFAULT_RCON_TIMEOUT,
        };
        Ok(RconConfiguration { host, port, password, timeout })
    }

    /// The address to connect to.
    pub fn address(&self) -> (text: String)
        ensures
            text@ == self@.address(),
    {
        let port: String = u64_to_decimal(self.port as u64);
        let mut text: String = self.host.clone();
        proof {
            reveal_strlit(":");
        }
        text.append(":");
        text.append(port.as_str());
        assert(text@ =~= self@.address());
        text
    }
}

} // verus!
