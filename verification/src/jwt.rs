//! Signed session claims: issuance and validation.
//!
//! A token carries the subject, the fixed issuer and three Unix timestamps
//! (issued-at, not-before, expiry), signed with a symmetric HMAC-SHA-512 key.
//! Signing and signature checking are delegated to the `jsonwebtoken` crate;
//! the issuer and time policy is checked here, in verified code. Every
//! validation failure is reported as one single error kind, so that callers
//! cannot leak the reason a token was rejected.

use vstd::prelude::*;

verus! {

/// The issuer string written into every token this service signs.
pub open spec fn spec_issuer() -> Seq<char> {
    "beemstream"@
}

/// The issuer string written into every token this service signs.
pub fn issuer() -> (r: &'static str)
    ensures
        r@ == spec_issuer(),
{
    "beemstream"
}

/// The payload of a session token. The same shape serves access and refresh
/// tokens; they differ only in the duration the caller requested.
#[derive(Debug)]
pub struct Claims {
    pub sub: String,
    pub iss: String,
    pub exp: i64,
    pub iat: i64,
    pub nbf: i64,
}

/// The claim fields as one mathematical value: subject, issuer, expiry,
/// issued-at and not-before.
pub open spec fn claims_view(c: Claims) -> (Seq<char>, Seq<char>, int, int, int) {
    (c.sub@, c.iss@, c.exp as int, c.iat as int, c.nbf as int)
}

/// The signed token produced for the given claim fields under the given
/// secret.
pub uninterp spec fn token_of(
    sub: Seq<char>,
    iss: Seq<char>,
    exp: int,
    iat: int,
    nbf: int,
    secret: Seq<char>,
) -> Seq<char>;

/// The claim fields recovered from a token under a secret, or nothing when
/// the decoder rejects the token: malformed, a signature that does not match
/// the secret, a missing or ill-typed claim field, or a claim set the
/// decoder refuses outright (such as one carrying an audience, which this
/// service never issues).
pub uninterp spec fn claims_of(token: Seq<char>, secret: Seq<char>) -> Option<
    (Seq<char>, Seq<char>, int, int, int),
>;

/// The token for the given claims under the given secret.
pub open spec fn spec_token(c: Claims, secret: Seq<char>) -> Seq<char> {
    token_of(c.sub@, c.iss@, c.exp as int, c.iat as int, c.nbf as int, secret)
}

/// Relies on `jsonwebtoken::encode` with an HS512 header: the token is a
/// deterministic function of the claim fields and the secret, and decoding it
/// with the same secret recovers exactly those fields.
#[verifier::external_body]
fn encode_signed(sub: &str, iss: &str, exp: i64, iat: i64, nbf: i64, secret: &str) -> (r: String)
    ensures
        r@ == token_of(sub@, iss@, exp as int, iat as int, nbf as int, secret@),
        claims_of(r@, secret@) == Some((sub@, iss@, exp as int, iat as int, nbf as int)),
        r@.len() > 0,
{
    let mut m = serde_json::Map::new();
    m.insert("sub".to_string(), serde_json::Value::from(sub));
    m.insert("iss".to_string(), serde_json::Value::from(iss));
    m.insert("exp".to_string(), serde_json::Value::from(exp));
    m.insert("iat".to_string(), serde_json::Value::from(iat));
    m.insert("nbf".to_string(), serde_json::Value::from(nbf));
    let header = jsonwebtoken::Header::new(jsonwebtoken::Algorithm::HS512);
    let key = jsonwebtoken::EncodingKey::from_secret(secret.as_bytes());
    jsonwebtoken::encode(&header, &serde_json::Value::Object(m), &key).unwrap()
}

/// Relies on `jsonwebtoken::decode` with signature-only validation: the claim
/// fields extracted from a token are a deterministic function of the token
/// and the secret. Issuer and time policy are checked by the verified caller.
#[verifier::external_body]
fn decode_signed(token: &str, secret: &str) -> (r: Option<Claims>)
    ensures
        (match r {
            Some(c) => claims_of(token@, secret@) == Some(claims_view(c)),
            None => claims_of(token@, secret@) is None,
        }),
{
    let mut validation = jsonwebtoken::Validation::new(jsonwebtoken::Algorithm::HS512);
    validation.validate_exp = false;
    validation.validate_nbf = false;
    validation.required_spec_claims = std::collections::HashSet::new();
    let key = jsonwebtoken::DecodingKey::from_secret(secret.as_bytes());
    let data = jsonwebtoken::decode::<serde_json::Value>(token, &key, &validation).ok()?;
    let sub = data.claims.get("sub")?.as_str()?.to_string();
    let iss = data.claims.get("iss")?.as_str()?.to_string();
    let exp = data.claims.get("exp")?.as_i64()?;
    let iat = data.claims.get("iat")?.as_i64()?;
    let nbf = data.claims.get("nbf")?.as_i64()?;
    Some(Claims { sub, iss, exp, iat, nbf })
}

impl Claims {
    /// Builds the claims for a token issued at `now` that lasts `duration`
    /// seconds: the not-before time is two seconds after issuance and the
    /// expiry is the issuance time plus the requested duration.
    pub fn new(identifier: &str, duration: i64, now: i64) -> (r: Claims)
        requires
            i64::MIN <= now + duration <= i64::MAX,
            now + 2 <= i64::MAX,
        ensures
            r.sub@ == identifier@,
            r.iss@ == spec_issuer(),
            r.exp == now + duration,
            r.iat == now,
            r.nbf == now + 2,
    {
        Claims {
            sub: identifier.to_owned(),
            iss: issuer().to_owned(),
            exp: now + duration,
            iat: now,
            nbf: now + 2,
        }
    }

    /// The subject the token was issued for.
    pub fn sub(&self) -> (r: &str)
        ensures
            r@ == self.sub@,
    {
        self.sub.as_str()
    }
}

/// Policy applied when a token is validated: a clock-skew leeway in seconds
/// and the issuer that must appear in the claims.
#[derive(Debug)]
pub struct Validation {
    pub leeway: i64,
    pub iss: String,
}

impl Validation {
    /// A sane policy: the leeway is small and non-negative.
    pub open spec fn wf(self) -> bool {
        0 <= self.leeway <= 60
    }
}

/// The validation policy this service uses: two seconds of leeway, and the
/// fixed issuer.
pub fn jwt_validation() -> (r: Validation)
    ensures
        r.leeway == 2,
        r.iss@ == spec_issuer(),
        r.wf(),
{
    Validation { leeway: 2, iss: issuer().to_owned() }
}

/// The one error a failed token validation reports.
#[derive(Debug)]
pub enum JwtError {
    InvalidToken,
}

/// Holds when decoded claim fields pass the policy at time `now`: the issuer
/// matches, the expiry has not passed by more than the leeway, and the
/// not-before time is no further than the leeway in the future.
pub open spec fn spec_claims_pass(
    c: (Seq<char>, Seq<char>, int, int, int),
    v: Validation,
    now: int,
) -> bool {
    &&& c.1 == v.iss@
    &&& c.2 >= now - v.leeway
    &&& c.4 <= now + v.leeway
}

/// Holds when the token decodes under the secret and its claims pass the
/// policy at time `now`.
pub open spec fn spec_decodes(
    token: Seq<char>,
    secret: Seq<char>,
    v: Validation,
    now: int,
) -> bool {
    claims_of(token, secret) matches Some(c) && spec_claims_pass(c, v, now)
}

/// Decodes a signed token and checks signature, issuer, expiry and not-before
/// in one pass. Every failure is reported as the same single error kind.
pub fn decode_token(token: &str, secret: &str, validation: &Validation, now: i64) -> (r: Result<
    Claims,
    JwtError,
>)
    requires
        validation.wf(),
        i64::MIN <= now - validation.leeway,
        now + validation.leeway <= i64::MAX,
    ensures
        (match r {
            Ok(c) => {
                &&& claims_of(token@, secret@) == Some(claims_view(c))
                &&& spec_claims_pass(claims_view(c), *validation, now as int)
            },
            Err(_) => !spec_decodes(token@, secret@, *validation, now as int),
        }),
{
    match decode_signed(token, secret) {
        Some(c) => {
            if c.iss == validation.iss && c.exp >= now - validation.leeway && c.nbf <= now
                + validation.leeway {
                Ok(c)
            } else {
                Err(JwtError::InvalidToken)
            }
        },
        None => Err(JwtError::InvalidToken),
    }
}

/// Signs the given claims with the secret.
pub fn encode_token(claims: &Claims, secret: &str) -> (r: String)
    ensures
        r@ == spec_token(*claims, secret@),
        claims_of(r@, secret@) == Some(claims_view(*claims)),
        r@.len() > 0,
{
    encode_signed(
        claims.sub.as_str(),
        claims.iss.as_str(),
        claims.exp,
        claims.iat,
        claims.nbf,
        secret,
    )
}

/// Law: a token issued for a subject decodes, under the same secret and the
/// standard policy, back to claims that carry that subject and the requested
/// expiry, whenever it is checked between its issuance time and its expiry
/// extended by the leeway.
pub fn token_round_trip(subject: &str, duration: i64, secret: &str, issued: i64, checked: i64) -> (r:
    Result<Claims, JwtError>)
    requires
        i64::MIN <= issued + duration <= i64::MAX,
        issued + 2 <= i64::MAX,
        0 <= issued <= checked,
        checked - 2 <= issued + duration,
        checked + 2 <= i64::MAX,
    ensures
        r matches Ok(c),
        r matches Ok(c) ==> c.sub@ == subject@ && c.exp == issued + duration,
{
    let claims = Claims::new(subject, duration, issued);
    let token = encode_token(&claims, secret);
    let validation = jwt_validation();
    decode_token(token.as_str(), secret, &validation, checked)
}

} // verus!
