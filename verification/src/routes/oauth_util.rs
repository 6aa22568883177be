//! Mapping of provider token-endpoint replies onto the pair of tokens and
//! the expiry the service hands its clients.
//!
//! A reply without a refresh token or without an expiry is malformed for
//! this flow and is reported as a parse failure, never passed on partially.

use crate::oauth::{ExchangeError, TwitchTokenResponse};
use vstd::prelude::*;

verus! {

/// A provider refresh token.
pub type RefreshToken = String;

/// A successful exchange: the access token, the refresh token, and the
/// access token's lifetime in seconds.
pub type OAuthSuccessResponse = (String, RefreshToken, u64);

/// What mapping a provider reply must yield: the three fields on a complete
/// reply, a parse failure on an incomplete one, and the original error on a
/// failed exchange.
pub open spec fn spec_oauth_mapping(
    exchange: Result<TwitchTokenResponse, ExchangeError>,
    r: Result<OAuthSuccessResponse, ExchangeError>,
) -> bool {
    match exchange {
        Ok(resp) => (match (resp.refresh_token, resp.expires_in) {
            (Some(rt), Some(e)) => r matches Ok(p) && (p.0@ == resp.access_token@ && p.1@ == rt@
                && p.2 == e),
            _ => r matches Err(er) && er is Parse,
        }),
        Err(e) => r matches Err(er) && er == e,
    }
}

/// Maps the reply of an authorization-code exchange.
pub fn get_oauth_response(exchange: Result<TwitchTokenResponse, ExchangeError>) -> (r: Result<
    OAuthSuccessResponse,
    ExchangeError,
>)
    ensures
        spec_oauth_mapping(exchange, r),
{
    match exchange {
        Ok(exchange_response) => {
            let access_token = exchange_response.access_token().clone();
            let refresh_token = match exchange_response.refresh_token() {
                Some(rt) => rt.clone(),
                None => {
                    return Err(ExchangeError::Parse);
                },
            };
            let expires_in = match exchange_response.expires_in() {
                Some(e) => e,
                None => {
                    return Err(ExchangeError::Parse);
                },
            };
            Ok((access_token, refresh_token, expires_in))
        },
        Err(err) => Err(err),
    }
}

/// Maps the reply of a refresh-token exchange; the shape is the same as for
/// the code exchange.
pub fn get_refresh_token(exchange: Result<TwitchTokenResponse, ExchangeError>) -> (r: Result<
    OAuthSuccessResponse,
    ExchangeError,
>)
    ensures
        spec_oauth_mapping(exchange, r),
{
    get_oauth_response(exchange)
}

} // verus!
