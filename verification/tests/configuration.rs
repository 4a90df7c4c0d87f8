use rcon_client::rcon::configuration::{
    RconConfiguration, RconEnvironment, DEFAULT_RCON_TIMEOUT,
};
use rcon_client::rcon::error::RconError;

fn with_vars(
    host: Option<&str>,
    port: Option<&str>,
    password: Option<&str>,
    timeout: Option<&str>,
) -> RconEnvironment {
    RconEnvironment {
        host: host.map(String::from),
        port: port.map(String::from),
        password: password.map(String::from),
        timeout: timeout.map(String::from),
    }
}

#[test]
fn configuration_test_test_get_configuration() {
    let environment = with_vars(Some("localhost"), Some("25575"), Some("password"), None);
    let result = RconConfiguration::try_new(&environment);
    assert!(result.is_ok());

    let configuration = result.unwrap();
    assert_eq!(configuration.host, "localhost");
    assert_eq!(configuration.port, 25575);
    assert_eq!(configuration.password, "password");
    assert_eq!(configuration.timeout, DEFAULT_RCON_TIMEOUT);
}

#[test]
fn configuration_test_test_get_configuration_missing_host() {
    let environment = with_vars(None, Some("25575"), Some("password"), None);
    let result = RconConfiguration::try_new(&environment);
    assert!(result.is_err());

    let error = result.unwrap_err();
    assert_eq!(
        error,
        RconError::Configuration {
            cause: String::from("Environment variable 'RCON_HOST' is not set")
        }
    );
}

#[test]
fn configuration_test_test_get_configuration_missing_port() {
    let environment = with_vars(Some("localhost"), None, Some("password"), None);
    let result = RconConfiguration::try_new(&environment);
    assert!(result.is_err());

    let error = result.unwrap_err();
    assert_eq!(
        error,
        RconError::Configuration {
            cause: String::from("Environment variable 'RCON_PORT' is not set")
        }
    );
}

#[test]
fn configuration_test_test_get_configuration_invalid_port() {
    let environment = with_vars(Some("localhost"), Some("invalid"), Some("password"), None);
    let result = RconConfiguration::try_new(&environment);
    assert!(result.is_err());

    let error = result.unwrap_err();
    assert_eq!(
        error,
        RconError::Configuration {
            cause: String::from("Environment variable 'RCON_PORT' is not a valid number")
        }
    );
}

#[test]
fn configuration_test_test_get_configuration_missing_password() {
    let environment = with_vars(Some("localhost"), Some("25575"), None, None);
    let result = RconConfiguration::try_new(&environment);
    assert!(result.is_err());

    let error = result.unwrap_err();
    assert_eq!(
        error,
        RconError::Configuration {
            cause: String::from("Environment variable 'RCON_PASSWORD' is not set")
        }
    );
}

#[test]
fn configuration_test_test_get_configuration_default_timeout() {
    let environment = with_vars(Some("localhost"), Some("25575"), Some("password"), None);
    let result = RconConfiguration::try_new(&environment);
    assert!(result.is_ok());

    let configuration = result.unwrap();
    assert_eq!(configuration.timeout, DEFAULT_RCON_TIMEOUT);
}

#[test]
fn configuration_test_test_get_configuration_custom_timeout() {
    let environment = with_vars(Some("localhost"), Some("25575"), Some("password"), Some("10000"));
    let result = RconConfiguration::try_new(&environment);
    assert!(result.is_ok());

    let configuration = result.unwrap();
    assert_eq!(configuration.timeout, 10000);
}

#[test]
fn configuration_test_test_get_configuration_invalid_timeout() {
    let environment = with_vars(Some("localhost"), Some("25575"), Some("password"), Some("invalid"));
    let result = RconConfiguration::try_new(&environment);
    assert!(result.is_err());

    let error = result.unwrap_err();
    assert_eq!(
        error,
        RconError::Configuration {
            cause: String::from("Environment variable 'RCON_TIMEOUT' is not a valid number")
        }
    );
}

#[test]
fn configuration_test_test_get_configuration_empty_timeout() {
    let environment = with_vars(Some("localhost"), Some("25575"), Some("password"), Some(""));
    let result = RconConfiguration::try_new(&environment);
    assert!(result.is_ok());

    let configuration = result.unwrap();
    assert_eq!(configuration.timeout, DEFAULT_RCON_TIMEOUT);
}

fn port_of(text: &str) -> Result<u16, RconError> {
    let environment = with_vars(Some("localhost"), Some(text), Some("password"), None);
    RconConfiguration::try_new(&environment).map(|configuration| configuration.port)
}

fn timeout_of(text: &str) -> Result<u64, RconError> {
    let environment = with_vars(Some("localhost"), Some("25575"), Some("password"), Some(text));
    RconConfiguration::try_new(&environment).map(|configuration| configuration.timeout)
}

fn invalid_port() -> RconError {
    RconError::Configuration {
        cause: String::from("Environment variable 'RCON_PORT' is not a valid number"),
    }
}

fn invalid_timeout() -> RconError {
    RconError::Configuration {
        cause: String::from("Environment variable 'RCON_TIMEOUT' is not a valid number"),
    }
}

#[test]
fn port_bounds() {
    assert_eq!(port_of("0"), Ok(0));
    assert_eq!(port_of("65535"), Ok(65535));
    assert_eq!(port_of("65536"), Err(invalid_port()));
    assert_eq!(port_of("99999999999999999999999"), Err(invalid_port()));
}

#[test]
fn port_spelling() {
    assert_eq!(port_of("+80"), Ok(80));
    assert_eq!(port_of("00080"), Ok(80));
    assert_eq!(port_of(""), Err(invalid_port()));
    assert_eq!(port_of("+"), Err(invalid_port()));
    assert_eq!(port_of("-"), Err(invalid_port()));
    assert_eq!(port_of("-1"), Err(invalid_port()));
    assert_eq!(port_of("++1"), Err(invalid_port()));
    assert_eq!(port_of(" 80"), Err(invalid_port()));
    assert_eq!(port_of("80 "), Err(invalid_port()));
    assert_eq!(port_of("8_0"), Err(invalid_port()));
    assert_eq!(port_of("0x50"), Err(invalid_port()));
    assert_eq!(port_of("８０"), Err(invalid_port()));
}

#[test]
fn port_reads_as_the_standard_parser_does() {
    for text in [
        "", "+", "-", "0", "1", "+1", "-0", "+0", "65535", "65536", "065535", "+65535", "1e3",
        "12a", "a12", "٣", "4294967296", "18446744073709551616",
    ] {
        assert_eq!(port_of(text).ok(), text.parse::<u16>().ok(), "{:?}", text);
        assert_eq!(timeout_of(text).ok().filter(|_| !text.is_empty()), text.parse::<u64>().ok());
    }
}

#[test]
fn timeout_bounds() {
    assert_eq!(timeout_of("0"), Ok(0));
    assert_eq!(timeout_of("500"), Ok(500));
    assert_eq!(timeout_of("18446744073709551615"), Ok(u64::MAX));
    assert_eq!(timeout_of("18446744073709551616"), Err(invalid_timeout()));
    assert_eq!(timeout_of("184467440737095516150"), Err(invalid_timeout()));
    assert_eq!(timeout_of("+"), Err(invalid_timeout()));
    assert_eq!(timeout_of("5s"), Err(invalid_timeout()));
}

#[test]
fn faults_are_reported_in_order() {
    let nothing = with_vars(None, None, None, Some("invalid"));
    assert_eq!(
        RconConfiguration::try_new(&nothing).unwrap_err(),
        RconError::Configuration {
            cause: String::from("Environment variable 'RCON_HOST' is not set")
        }
    );
    let no_port = with_vars(Some("localhost"), Some("invalid"), None, Some("invalid"));
    assert_eq!(RconConfiguration::try_new(&no_port).unwrap_err(), invalid_port());
    let no_password = with_vars(Some("localhost"), Some("1"), None, Some("invalid"));
    assert_eq!(
        RconConfiguration::try_new(&no_password).unwrap_err(),
        RconError::Configuration {
            cause: String::from("Environment variable 'RCON_PASSWORD' is not set")
        }
    );
}

#[test]
fn empty_host_and_password_are_values() {
    let environment = with_vars(Some(""), Some("1"), Some(""), None);
    let configuration = RconConfiguration::try_new(&environment).unwrap();
    assert_eq!(configuration.host, "");
    assert_eq!(configuration.password, "");
    assert_eq!(configuration.address(), ":1");
}

#[test]
fn address_is_host_colon_port() {
    let environment = with_vars(Some("localhost"), Some("25575"), Some("password"), None);
    let configuration = RconConfiguration::try_new(&environment).unwrap();
    assert_eq!(configuration.address(), "localhost:25575");
    let other = with_vars(Some("10.0.0.7"), Some("+0065535"), Some("password"), None);
    assert_eq!(RconConfiguration::try_new(&other).unwrap().address(), "10.0.0.7:65535");
}

#[test]
fn default_timeout_value() {
    assert_eq!(DEFAULT_RCON_TIMEOUT, 5000);
}
