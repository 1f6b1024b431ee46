//! Start-up configuration. Every value is required: a configuration is
//! either complete or refused, never half filled. Reading the values from
//! their source is the caller's.

use vstd::prelude::*;
use vstd::utf8::encode_utf8;

verus! {

/// The longest network name that an access point can have, in bytes.
pub const MAX_SSID_BYTES: usize = 32;

/// The longest passphrase that an access point can ask for, in bytes.
pub const MAX_PASSWORD_BYTES: usize = 64;

/// The values that the node and the ingestion service are configured with.
#[derive(Clone, Copy, Debug, PartialEq, Eq, Structural)]
pub enum ConfigField {
    WifiSsid,
    WifiPassword,
    Endpoint,
    DatabaseUrl,
    DatabaseUser,
    DatabasePassword,
}

/// Why a configuration is refused.
#[derive(Clone, Copy, Debug, PartialEq, Eq, Structural)]
pub enum ConfigError {
    /// The value is not there.
    Missing(ConfigField),
    /// The value is longer than the wireless link can take.
    TooLong(ConfigField),
}

/// The configuration of the node: the credentials of the wireless network and
/// the address of the ingestion service.
#[derive(Debug, PartialEq, Eq)]
pub struct NodeConfig {
    pub ssid: String,
    pub password: String,
    pub endpoint: String,
}

/// The configuration of the ingestion service: where its time-series store
/// is and how to log in to it.
#[derive(Debug, PartialEq, Eq)]
pub struct ServiceConfig {
    pub database_url: String,
    pub database_user: String,
    pub database_password: String,
}

/// What is wrong with the values of a node configuration, if anything. A
/// missing value is named before one that is too long, and of several the
/// first in the order network name, passphrase, endpoint.
pub open spec fn node_config_fault(
    ssid: Option<String>,
    password: Option<String>,
    endpoint: Option<String>,
) -> Option<ConfigError> {
    if ssid is None {
        Some(ConfigError::Missing(ConfigField::WifiSsid))
    } else if password is None {
        Some(ConfigError::Missing(ConfigField::WifiPassword))
    } else if endpoint is None {
        Some(ConfigError::Missing(ConfigField::Endpoint))
    } else if encode_utf8(ssid->0@).len() > MAX_SSID_BYTES {
        Some(ConfigError::TooLong(ConfigField::WifiSsid))
    } else if encode_utf8(password->0@).len() > MAX_PASSWORD_BYTES {
        Some(ConfigError::TooLong(ConfigField::WifiPassword))
    } else {
        None
    }
}

/// What is wrong with the values of a service configuration, if anything: the
/// first that is missing, in the order address, user, password.
pub open spec fn service_config_fault(
    database_url: Option<String>,
    database_user: Option<String>,
    database_password: Option<String>,
) -> Option<ConfigError> {
    if database_url is None {
        Some(ConfigError::Missing(ConfigField::DatabaseUrl))
    } else if database_user is None {
        Some(ConfigError::Missing(ConfigField::DatabaseUser))
    } else if database_password is None {
        Some(ConfigError::Missing(ConfigField::DatabasePassword))
    } else {
        None
    }
}

/// The node's configuration from the values found at start-up.
pub fn node_config(
    ssid: Option<String>,
    password: Option<String>,
    endpoint: Option<String>,
) -> (r: Result<NodeConfig, ConfigError>)
    ensures
        match node_config_fault(ssid, password, endpoint) {
            Some(e) => r == Err::<NodeConfig, ConfigError>(e),
            None => r == Ok::<NodeConfig, ConfigError>(
                NodeConfig { ssid: ssid->0, password: password->0, endpoint: endpoint->0 },
            ),
        },
{
    let ssid = match ssid {
        Some(s) => s,
        None => { return Err(ConfigError::Missing(ConfigField::WifiSsid)); },
    };
    let password = match password {
        Some(s) => s,
        None => { return Err(ConfigError::Missing(ConfigField::WifiPassword)); },
    };
    let endpoint = match endpoint {
        Some(s) => s,
        None => { return Err(ConfigError::Missing(ConfigField::Endpoint)); },
    };
    if ssid.as_str().as_bytes().len() > MAX_SSID_BYTES {
        return Err(ConfigError::TooLong(ConfigField::WifiSsid));
    }
    if password.as_str().as_bytes().len() > MAX_PASSWORD_BYTES {
        return Err(ConfigError::TooLong(ConfigField::WifiPassword));
    }
    Ok(NodeConfig { ssid, password, endpoint })
}

/// The service's configuration from the values found at start-up.
pub fn service_config(
    database_url: Option<String>,
    database_user: Option<String>,
    database_password: Option<String>,
) -> (r: Result<ServiceConfig, ConfigError>)
    ensures
        match service_config_fault(database_url, database_user, database_password) {
            Some(e) => r == Err::<ServiceConfig, ConfigError>(e),
            None => r == Ok::<ServiceConfig, ConfigError>(
                ServiceConfig {
                    database_url: database_url->0,
                    database_user: database_user->0,
                    database_password: database_password->0,
                },
            ),
        },
{
    let database_url = match database_url {
        Some(s) => s,
        None => { return Err(ConfigError::Missing(ConfigField::DatabaseUrl)); },
    };
    let database_user = match database_user {
        Some(s) => s,
        None => { return Err(ConfigError::Missing(ConfigField::DatabaseUser)); },
    };
    let database_password = match database_password {
        Some(s) => s,
        None => { return Err(ConfigError::Missing(ConfigField::DatabasePassword)); },
    };
    Ok(ServiceConfig { database_url, database_user, database_password })
}

} // verus!
