//! The settings of the service, and the state that its handlers share.

use std::sync::Arc;

use vstd::prelude::*;
use vstd::utf8::encode_utf8;

use crate::secret::SecretText;

verus! {

/// The settings of the service.
pub struct Config {
    pub master_password: SecretText,
    pub bind_addr: String,
    pub log_level: String,
}

/// The text that was set, or else the default.
pub open spec fn setting(value: Option<String>, default: Seq<char>) -> Seq<char> {
    match value {
        Some(text) => text@,
        None => default,
    }
}

impl Config {
    /// The shortest master password that is accepted, in bytes.
    pub const MIN_PASSWORD_LEN: usize = 20;

    /// The settings from the values that were set, if the master password is long enough.
    pub fn from_values(
        master_password: String,
        bind_addr: Option<String>,
        log_level: Option<String>,
    ) -> (r: Option<Config>)
        ensures
            match r {
                Some(config) => {
                    &&& encode_utf8(master_password@).len() >= Config::MIN_PASSWORD_LEN
                    &&& config.master_password@ == master_password@
                    &&& config.bind_addr@ == setting(bind_addr, "0.0.0.0:8080"@)
                    &&& config.log_level@ == setting(
                        log_level,
                        "vault_service=info,tower_http=warn"@,
                    )
                },
                None => encode_utf8(master_password@).len() < Config::MIN_PASSWORD_LEN,
            },
            r is Some <==> encode_utf8(master_password@).len() >= 20,
            r matches Some(config) ==> {
                &&& bind_addr matches Some(addr) ==> config.bind_addr@ == addr@
                &&& bind_addr is None ==> config.bind_addr@ == "0.0.0.0:8080"@
                &&& log_level matches Some(level) ==> config.log_level@ == level@
                &&& log_level is None ==> config.log_level@ == "vault_service=info,tower_http=warn"@
            },
    {
        if master_password.as_str().as_bytes().len() < Self::MIN_PASSWORD_LEN {
            return None;
        }
        let bind_addr = match bind_addr {
            Some(addr) => addr,
            None => "0.0.0.0:8080".to_owned(),
        };
        let log_level = match log_level {
            Some(level) => level,
            None => "vault_service=info,tower_http=warn".to_owned(),
        };
        Some(Config { master_password: SecretText::new(master_password), bind_addr, log_level })
    }
}

/// What every handler is given: the master password, shared and not copied.
#[derive(Clone)]
pub struct AppState {
    pub master_password: Arc<SecretText>,
}

impl AppState {
    /// The state that holds this master password.
    pub fn new(master_password: SecretText) -> (state: Self)
        ensures
            state.master_password@ == master_password@,
    {
        AppState { master_password: Arc::new(master_password) }
    }
}

} // verus!
