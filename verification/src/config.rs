//! The settings that the backend starts with.

use vstd::prelude::*;
use crate::error::{Error, ErrorView};
use crate::signer::{signing_key_valid, verifying_key_valid, Signer, Verifier};
use crate::text::{parse_u32, parsed_u32};

verus! {

/// Configuration settings
#[derive(Clone, Debug)]
pub struct Config {
    pub listen_addr: String,
    pub db_url: String,
    pub db_max_pool_size: u32,
}

/// The address to listen on: every interface, at the given port or at 8080.
pub open spec fn listen_address(port: Option<Seq<char>>) -> Seq<char> {
    "0.0.0.0:"@ + (match port {
        Some(port) => port,
        None => "8080"@,
    })
}

/// The size of the pool: the one asked for, or one connection per processor.
pub open spec fn pool_size(asked: Option<Seq<char>>, cpus: u32) -> Option<u32> {
    match asked {
        Some(text) => parsed_u32(text),
        None => Some(cpus),
    }
}

/// The characters of a setting that may be absent.
pub open spec fn setting_text(setting: Option<String>) -> Option<Seq<char>> {
    match setting {
        Some(s) => Some(s@),
        None => None,
    }
}

/// What keeps the settings from making a configuration, if anything does:
/// the first of a missing database URL, a pool size that is no number, a
/// missing or unusable signing key, and a missing or unusable verifying key.
pub open spec fn settings_fault(
    db_url: Option<Seq<char>>,
    max_pool_size: Option<Seq<char>>,
    signing_key: Option<Seq<char>>,
    verifying_key: Option<Seq<char>>,
) -> Option<Seq<char>> {
    if db_url is None {
        Some("DATABASE_URL not set"@)
    } else if max_pool_size is Some && parsed_u32(max_pool_size->0) is None {
        Some("DATABASE_MAX_POOL_SIZE could not be parsed"@)
    } else if signing_key is None {
        Some("SIGNING_KEY not set"@)
    } else if !signing_key_valid(signing_key->0) {
        Some("invalid signing key pem"@)
    } else if verifying_key is None {
        Some("VERIFYING_KEY not found in env"@)
    } else if !verifying_key_valid(verifying_key->0) {
        Some("invalid public key pem"@)
    } else {
        None
    }
}

impl Config {
    /// The configuration that the given settings make, each as the
    /// environment holds it or absent: the port of the HTTP server, the URL of
    /// the database, the size of the connection pool, for which `cpus` stands
    /// in, and the PEM texts of the two keys that page tokens are signed and
    /// checked with. There is no configuration without a URL, with a size
    /// that is no number, or with a key that is missing or unusable: the first
    /// of these faults comes back as an internal error.
    pub fn from_settings(
        port: Option<String>,
        db_url: Option<String>,
        max_pool_size: Option<String>,
        cpus: u32,
        signing_key: Option<String>,
        verifying_key: Option<String>,
    ) -> (loaded: Result<Config, Error>)
        ensures
            match settings_fault(
                setting_text(db_url),
                setting_text(max_pool_size),
                setting_text(signing_key),
                setting_text(verifying_key),
            ) {
                Some(fault) => loaded is Err && loaded->Err_0@ == (ErrorView::Internal {
                    message: fault,
                }),
                None => {
                    &&& loaded is Ok
                    &&& loaded->Ok_0.listen_addr@ == listen_address(setting_text(port))
                    &&& loaded->Ok_0.db_url == db_url->0
                    &&& Some(loaded->Ok_0.db_max_pool_size) == pool_size(
                        setting_text(max_pool_size),
                        cpus,
                    )
                },
            },
    {
        let port = match port {
            Some(port) => port,
            None => "8080".to_owned(),
        };
        let listen_addr = "0.0.0.0:".to_owned().concat(port.as_str());
        let db_url = match db_url {
            Some(url) => url,
            None => {
                return Err(Error::internal("DATABASE_URL not set".to_owned()));
            },
        };
        let db_max_pool_size = match max_pool_size {
            Some(text) => match parse_u32(text.as_str()) {
                Some(size) => size,
                None => {
                    return Err(
                        Error::internal("DATABASE_MAX_POOL_SIZE could not be parsed".to_owned()),
                    );
                },
            },
            None => cpus,
        };
        let signing_key = match signing_key {
            Some(pem) => pem,
            None => {
                return Err(Error::internal("SIGNING_KEY not set".to_owned()));
            },
        };
        match Signer::new(signing_key) {
            Ok(_) => {},
            Err(e) => {
                return Err(e);
            },
        }
        let verifying_key = match verifying_key {
            Some(pem) => pem,
            None => {
                return Err(Error::internal("VERIFYING_KEY not found in env".to_owned()));
            },
        };
        match Verifier::new(verifying_key) {
            Ok(_) => {},
            Err(e) => {
                return Err(e);
            },
        }
        Ok(Config { listen_addr, db_url, db_max_pool_size })
    }
}

} // verus!
