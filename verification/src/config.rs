use vstd::prelude::*;

use crate::jwt_codec::MAX_TTL_SECONDS;

verus! {

/// The process-wide settings.
#[derive(Clone, Debug)]
pub struct AppConfig {
    pub server_host: String,
    pub server_port: u16,
    pub jwt_exp_seconds: usize,
}

/// The file that holds the settings where no other is named.
pub const DEFAULT_CONFIG_PATH: &'static str = "app_config.json";

impl AppConfig {
    /// The file to read the settings from: the one that is named, and else
    /// the default one.
    pub fn path_or_default<'a>(path: Option<&'a str>) -> (chosen: &'a str)
        ensures
            chosen@ == (match path {
                Some(named) => named@,
                None => DEFAULT_CONFIG_PATH@,
            }),
    {
        match path {
            Some(named) => named,
            None => DEFAULT_CONFIG_PATH,
        }
    }

    /// A token must expire after it was issued, and its expiry must be
    /// representable whatever the clock says.
    pub open spec fn wf(&self) -> bool {
        0 < self.jwt_exp_seconds <= MAX_TTL_SECONDS
    }

    /// Whether the settings can be used to issue tokens.
    pub fn is_valid(&self) -> (valid: bool)
        ensures
            valid == self.wf(),
    {
        0 < self.jwt_exp_seconds && self.jwt_exp_seconds as u64 <= MAX_TTL_SECONDS
    }
}

} // verus!
