//! Immutable configuration, constructed once at process start and passed by
//! reference into every component; nothing here is ambient or mutable.

use crate::jwt::Validation;
use vstd::prelude::*;

verus! {

/// Name of the cookie the refresh token travels in.
pub fn cookie_refresh_token_name() -> (r: &'static str)
    ensures
        r@ == spec_cookie_refresh_token_name(),
{
    "refresh_token"
}

/// Name of the cookie the refresh token travels in.
pub open spec fn spec_cookie_refresh_token_name() -> Seq<char> {
    "refresh_token"@
}

/// Service-wide configuration: token durations in seconds and the signing
/// secret.
#[derive(Debug)]
pub struct GlobalConfig {
    pub token_expiry: i64,
    pub refresh_token_expiry: i64,
    pub auth_secret_key: String,
    pub allowed_origins: Vec<String>,
}

impl GlobalConfig {
    /// Sane configuration: both durations are positive and the secret is
    /// non-empty and of hashable size.
    pub open spec fn wf(self) -> bool {
        &&& 0 < self.token_expiry
        &&& 0 < self.refresh_token_expiry
        &&& 0 < self.auth_secret_key@.len() < 0x10000000
    }
}

/// The token validation policy, shared by every request.
#[derive(Debug)]
pub struct JWTConfig {
    pub validation: Validation,
}

/// Credentials and callback for the third-party identity provider.
#[derive(Debug)]
pub struct TwitchConfig {
    pub twitch_client_id: String,
    pub twitch_client_secret: String,
    pub twitch_callback_url: String,
}

/// Outbound email settings; consumed outside the core.
#[derive(Debug)]
pub struct EmailConfig {
    pub email_username: String,
    pub email_password: String,
    pub email_enabled: bool,
}

} // verus!
