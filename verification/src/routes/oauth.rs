//! The provider-exchange endpoints: the grant dispatcher, the refresh-cookie
//! parser, the response mapper, and logout.
//!
//! The network call to the provider is an I/O edge: the dispatcher decides
//! which exchange to perform, the surrounding layer performs it, and the
//! mapper turns its outcome into the client response and the new refresh
//! cookie.

use crate::oauth::ExchangeError;
use crate::routes::oauth_util::OAuthSuccessResponse;
use crate::util::cookies::{Cookie, CookieJar, CookieView, lemma_jar_get_none, spec_jar_get};
use crate::util::response::{
    Error, Response, STATUS_OK, STATUS_UNAUTHORIZED, TokenResponse, is_plain_error,
};
use crate::util::strings::find_char;
use vstd::prelude::*;

verus! {

/// Which grant a token request carries.
#[derive(Debug)]
pub enum GrantType {
    RefreshToken,
    Code,
}

/// Body of a provider token request: an authorization code for the code
/// grant, nothing for the refresh grant.
#[derive(Debug)]
pub struct TwitchGrant {
    pub code: Option<String>,
    pub grant_type: GrantType,
}

/// The exchange the surrounding layer must perform against the provider.
#[derive(Debug)]
pub enum TwitchExchange {
    Code(String),
    Refresh(String),
}

/// Holds when `t` is the leading piece of `v` up to the first `=`, or all of
/// `v` when it has none.
pub open spec fn spec_value_piece(v: Seq<char>, t: Seq<char>) -> bool {
    &&& t.len() <= v.len()
    &&& t == v.subrange(0, t.len() as int)
    &&& forall|j: int| 0 <= j < t.len() ==> v[j] != '='
    &&& (t.len() == v.len() || v[t.len() as int] == '=')
}

/// The leading piece of a value is unique.
proof fn lemma_value_piece_unique(v: Seq<char>, t1: Seq<char>, t2: Seq<char>)
    requires
        spec_value_piece(v, t1),
        spec_value_piece(v, t2),
    ensures
        t1 == t2,
{
    if t1.len() < t2.len() {
        assert(v[t1.len() as int] == '=');
        assert(v[t1.len() as int] != '=');
    } else if t2.len() < t1.len() {
        assert(v[t2.len() as int] == '=');
        assert(v[t2.len() as int] != '=');
    } else {
        assert(t1 =~= t2);
    }
}

/// Reads the provider refresh token out of its cookie: the cookie's value up
/// to the first `=`, as the serialized `name=value` form carries it. A
/// missing cookie is unauthorized.
pub fn extract_refresh_token(refresh_token: Option<Cookie>) -> (r: Result<String, Error>)
    ensures
        (match refresh_token {
            Some(c) => r matches Ok(t) && spec_value_piece(c.value@, t@),
            None => r matches Err(e) && is_plain_error(e, STATUS_UNAUTHORIZED),
        }),
{
    match refresh_token {
        Some(c) => {
            let len = c.value.as_str().unicode_len();
            match find_char(c.value.as_str(), '=') {
                Some(k) => {
                    let piece = c.value.as_str().substring_char(0, k);
                    proof {
                        assert(piece@ =~= c.value@.subrange(0, piece@.len() as int));
                    }
                    Ok(piece.to_owned())
                },
                None => {
                    proof {
                        assert(c.value@ =~= c.value@.subrange(0, c.value@.len() as int));
                    }
                    Ok(c.value)
                },
            }
        },
        None => Err(Error::Error(STATUS_UNAUTHORIZED)),
    }
}

/// Decides which provider exchange a token request asks for: the code grant
/// needs its code, the refresh grant needs the refresh cookie; anything else
/// is unauthorized.
pub fn twitch_token(twitch_grant: TwitchGrant, cookies: &CookieJar) -> (r: Result<
    TwitchExchange,
    Error,
>)
    ensures
        (match twitch_grant.grant_type {
            GrantType::Code => (match twitch_grant.code {
                Some(code) => r matches Ok(x) && x matches TwitchExchange::Code(c) && c@ == code@,
                None => r matches Err(e) && is_plain_error(e, STATUS_UNAUTHORIZED),
            }),
            GrantType::RefreshToken => (match spec_jar_get(
                cookies@,
                crate::util::globals::spec_cookie_refresh_token_name(),
            ) {
                Some(ck) => r matches Ok(x) && x matches TwitchExchange::Refresh(t)
                    && spec_value_piece(ck.value, t@),
                None => r matches Err(e) && is_plain_error(e, STATUS_UNAUTHORIZED),
            }),
        }),
{
    match twitch_grant.grant_type {
        GrantType::Code => {
            match twitch_grant.code {
                Some(code) => Ok(TwitchExchange::Code(code)),
                None => Err(Error::Error(STATUS_UNAUTHORIZED)),
            }
        },
        GrantType::RefreshToken => {
            let refresh_cookie = cookies.get(crate::util::globals::cookie_refresh_token_name());
            match refresh_cookie {
                Some(ck) => {
                    match extract_refresh_token(Some(ck)) {
                        Ok(t) => Ok(TwitchExchange::Refresh(t)),
                        Err(e) => Err(e),
                    }
                },
                None => Err(Error::Error(STATUS_UNAUTHORIZED)),
            }
        },
    }
}

/// The seconds an exchange reported, clamped into the signed range the
/// response body carries.
pub open spec fn spec_expiry_secs(e: u64) -> int {
    if e > i64::MAX as u64 {
        i64::MAX as int
    } else {
        e as int
    }
}

/// Turns the outcome of a provider exchange into the client response: on
/// success the new refresh token is set as a plain cookie and the body
/// carries the provider access token with its lifetime; every failure is
/// answered with the same bare unauthorized status, never with provider
/// detail.
pub fn twitch_token_response(
    outcome: Result<OAuthSuccessResponse, ExchangeError>,
    cookies: &mut CookieJar,
) -> (r: Result<Response<TokenResponse>, Error>)
    ensures
        (match outcome {
            Ok(p) => {
                &&& final(cookies)@ == old(cookies)@.push(
                    CookieView {
                        name: crate::util::globals::spec_cookie_refresh_token_name(),
                        value: p.1@,
                        max_age: 0,
                        expires: 0,
                        secure: false,
                        http_only: false,
                        same_site: false,
                    },
                )
                &&& r matches Ok(resp) && resp matches Response::SuccessWithBody(b) && ({
                    &&& b.status == STATUS_OK
                    &&& b.json.access_token matches Some(t) && t@ == p.0@
                    &&& b.json.expires_in == Some(spec_expiry_secs(p.2) as i64)
                })
            },
            Err(_) => {
                &&& final(cookies)@ == old(cookies)@
                &&& r matches Err(e) && is_plain_error(e, STATUS_UNAUTHORIZED)
            },
        }),
{
    match outcome {
        Ok(p) => {
            let (access_token, refresh_token, expires_in) = p;
            cookies.add(
                Cookie {
                    name: crate::util::globals::cookie_refresh_token_name().to_owned(),
                    value: refresh_token,
                    max_age: 0,
                    expires: 0,
                    secure: false,
                    http_only: false,
                    same_site: false,
                },
            );
            let secs: i64 = if expires_in > i64::MAX as u64 {
                i64::MAX
            } else {
                expires_in as i64
            };
            Ok(Response::success(Some(TokenResponse::success(access_token, secs)), STATUS_OK))
        },
        Err(_) => Err(Error::Error(STATUS_UNAUTHORIZED)),
    }
}

/// Builds the provider authorization redirect for this service's
/// credentials. It succeeds exactly when the configured callback URL parses,
/// and then yields the authorization endpoint with the fixed response type,
/// client id, a fresh CSRF state, and the fixed scope.
pub fn twitch_auth(twitch_config: &crate::util::globals::TwitchConfig) -> (r: Option<String>)
    ensures
        r is Some <==> crate::oauth::spec_redirect_url_accepted(
            twitch_config.twitch_callback_url@,
        ),
        r matches Some(u) ==> crate::oauth::spec_authorize_url_frame(u@),
{
    match crate::oauth::twitch_authenticate(
        twitch_config.twitch_client_id.clone(),
        twitch_config.twitch_client_secret.clone(),
        twitch_config.twitch_callback_url.clone(),
    ) {
        Some(p) => Some(p.0),
        None => None,
    }
}

/// Clears the provider refresh cookie, if one is present, and answers OK.
pub fn logout_twitch(cookies: &mut CookieJar) -> (r: u16)
    ensures
        r == STATUS_OK,
        forall|c: CookieView|
            final(cookies)@.contains(c) <==> (old(cookies)@.contains(c) && c.name
                != crate::util::globals::spec_cookie_refresh_token_name()),
{
    let name = crate::util::globals::cookie_refresh_token_name();
    let present = cookies.get(name);
    if present.is_some() {
        cookies.remove(name);
    } else {
        proof {
            lemma_jar_get_none(cookies@, name@);
            assert forall|c: CookieView|
                cookies@.contains(c) implies c.name
                != crate::util::globals::spec_cookie_refresh_token_name() by {
                let i = choose|i: int| 0 <= i < cookies@.len() && cookies@[i] == c;
                assert(cookies@[i].name != name@);
            }
        }
    }
    STATUS_OK
}

} // verus!
