//! The identity-provider exchange adapter.
//!
//! Building the authorization redirect is delegated to the `oauth2` crate,
//! which also draws the CSRF state; the network exchange itself is an I/O
//! edge and is performed outside the core, which then receives the provider's
//! reply as the plain values modeled here and maps it in verified code.

use vstd::prelude::*;

verus! {

/// Extra fields the provider returns alongside the standard token fields.
#[derive(Debug)]
pub struct TwitchFields {
    pub id_token: String,
}

/// The provider's token-endpoint reply, as plain values: the granted access
/// token, its type, the optional expiry in seconds, the optional refresh
/// token, the granted scopes, and the provider's extra fields.
#[derive(Debug)]
pub struct TwitchTokenResponse {
    pub access_token: String,
    pub token_type: String,
    pub expires_in: Option<u64>,
    pub refresh_token: Option<String>,
    pub scopes: Option<Vec<String>>,
    pub extra_fields: TwitchFields,
}

impl TwitchTokenResponse {
    /// The granted access token.
    pub fn access_token(&self) -> (r: &String)
        ensures
            r@ == self.access_token@,
    {
        &self.access_token
    }

    /// The token type the provider reported.
    pub fn token_type(&self) -> (r: &String)
        ensures
            r@ == self.token_type@,
    {
        &self.token_type
    }

    /// How long the access token lasts, in seconds, when reported.
    pub fn expires_in(&self) -> (r: Option<u64>)
        ensures
            r == self.expires_in,
    {
        self.expires_in
    }

    /// The granted refresh token, when one was returned.
    pub fn refresh_token(&self) -> (r: Option<&String>)
        ensures
            (match r {
                Some(s) => self.refresh_token matches Some(x) && s@ == x@,
                None => self.refresh_token is None,
            }),
    {
        match &self.refresh_token {
            Some(s) => Some(s),
            None => None,
        }
    }

    /// The granted scopes, when reported.
    pub fn scopes(&self) -> (r: Option<&Vec<String>>)
        ensures
            (match r {
                Some(s) => self.scopes matches Some(x) && s@ == x@,
                None => self.scopes is None,
            }),
    {
        match &self.scopes {
            Some(s) => Some(s),
            None => None,
        }
    }
}

/// Why an exchange with the provider failed: the provider answered with an
/// error (its description is safe to log, never echoed to the client), the
/// request could not be carried out, the reply was malformed, or anything
/// else.
#[derive(Debug)]
pub enum ExchangeError {
    ServerResponse(String),
    Request,
    Parse,
    Other(String),
}

/// Whether `RedirectUrl::new` of the `oauth2` crate (the `url` crate's
/// parser underneath) accepts the string as a redirect URL. The outcome is a
/// deterministic function of the string.
pub uninterp spec fn spec_redirect_url_accepted(url: Seq<char>) -> bool;

/// The fixed leading part of every authorization redirect this service
/// builds: the provider's authorization endpoint with the response type and
/// the start of the client-id parameter.
pub open spec fn spec_authorize_url_prefix() -> Seq<char> {
    "https://id.twitch.tv/oauth2/authorize?response_type=code&client_id="@
}

/// The fixed trailing part of every authorization redirect this service
/// builds: the scope parameter, form-urlencoded.
pub open spec fn spec_authorize_scope_suffix() -> Seq<char> {
    "&scope=openid+user%3Aread%3Aemail"@
}

/// The fixed frame of an authorization redirect: it starts at the provider's
/// authorization endpoint with the response type and the client-id parameter,
/// and ends with the fixed scope. The encoded client id, state and callback
/// URL stand in between; their encoding is left open here.
pub open spec fn spec_authorize_url_frame(url: Seq<char>) -> bool {
    &&& url.len() >= spec_authorize_url_prefix().len() + spec_authorize_scope_suffix().len()
    &&& url.subrange(0, spec_authorize_url_prefix().len() as int) == spec_authorize_url_prefix()
    &&& url.subrange(
        url.len() - spec_authorize_scope_suffix().len(),
        url.len() as int,
    ) == spec_authorize_scope_suffix()
}

/// The shape of an authorization redirect for the given CSRF state: the
/// fixed frame, with the state carried as the state parameter (its
/// characters are URL-safe, so it appears verbatim).
pub open spec fn spec_authorize_url_shape(url: Seq<char>, state: Seq<char>) -> bool {
    &&& spec_authorize_url_frame(url)
    &&& exists|k: int|
        {
            &&& 0 <= k
            &&& k + 7 + state.len() <= url.len()
            &&& #[trigger] url.subrange(k, k + 7 + state.len()) == "&state="@ + state
        }
}

/// Relies on `oauth2`'s client builder and `authorize_url`: builds the
/// provider authorization redirect with the fixed scope and a fresh random
/// CSRF state, and returns the URL together with the state. The call fails
/// exactly when the callback URL does not parse; the state's value is
/// random and nothing more is promised of it.
#[verifier::external_body]
pub fn twitch_authenticate(client_id: String, client_secret: String, callback_url: String) -> (r:
    Option<(String, String)>)
    ensures
        r is Some <==> spec_redirect_url_accepted(callback_url@),
        r matches Some(p) ==> spec_authorize_url_shape(p.0@, p.1@),
{
    let client = oauth2::basic::BasicClient::new(oauth2::ClientId::new(client_id))
        .set_client_secret(oauth2::ClientSecret::new(client_secret))
        .set_auth_uri(oauth2::AuthUrl::new("https://id.twitch.tv/oauth2/authorize".to_string()).ok()?)
        .set_redirect_uri(oauth2::RedirectUrl::new(callback_url).ok()?);
    let (url, token) = client
        .authorize_url(oauth2::CsrfToken::new_random)
        .add_scope(oauth2::Scope::new("openid user:read:email".to_string()))
        .url();
    Some((url.to_string(), token.secret().to_owned()))
}

} // verus!
