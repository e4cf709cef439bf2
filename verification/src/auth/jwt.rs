//! The token codec: signed bearer tokens that name a subject and expire one
//! hour after they were issued.
//!
//! Signing and signature checking are `jsonwebtoken`'s. What this module
//! decides itself, and proves, is when a token expires, which claims a
//! decoded payload must carry, and which error each failure becomes.

use vstd::prelude::*;
use vstd::string::*;

use crate::config::Config;
use crate::routes::user::{BearerToken, Claims, ClaimsView};

verus! {

/// For how many seconds an issued token holds.
pub const TOKEN_VALIDITY_SECONDS: i64 = 3600;

/// The setting under which the signing secret is kept.
pub open spec fn secret_key_name() -> Seq<char> {
    "secrets.jwt_secret_key"@
}

/// What the error says when the settings hold no signing secret.
pub open spec fn secret_missing_text() -> Seq<char> {
    "JWT secret key not found."@
}

/// The error type of `jsonwebtoken`, carried through as it is.
#[verifier::external_type_specification]
#[verifier::external_body]
pub struct ExJsonWebTokenError(jsonwebtoken::errors::Error);

/// The kinds of failure that `jsonwebtoken` reports, as far as this library
/// tells them apart.
#[derive(Debug, Clone, Copy, PartialEq, Eq)]
pub enum JwtFault {
    /// The text does not have the three parts of a token.
    InvalidToken,
    /// The signature does not match the header and payload under the key.
    InvalidSignature,
    /// The payload's expiry has passed.
    ExpiredSignature,
    /// The header declares an algorithm other than the one asked for.
    InvalidAlgorithm,
    /// A part is not base64.
    Base64,
    /// A part is not the JSON that was expected.
    Json,
    /// A part is not UTF-8.
    Utf8,
    /// The cryptographic backend failed.
    Crypto,
    /// Any other kind.
    Other,
}

/// Why a presented token was turned down.
#[derive(Debug, Clone, Copy, PartialEq, Eq)]
pub enum TokenError {
    /// The signature does not match: a tampered token or another secret.
    Signature,
    /// The deadline has passed.
    Expired,
    /// The token is not well formed, or not of the one accepted algorithm.
    Malformed,
}

/// What can go wrong when a token is issued or validated.
#[derive(Debug, Clone, PartialEq, Eq)]
pub enum JwtError {
    /// The settings do not hold what is needed; the text says what.
    ConfigError(String),
    /// The expiry of the token cannot be written as a timestamp.
    TimestampError,
    /// The token itself was turned down.
    JwtError(TokenError),
}

/// The mathematical content of a [`JwtError`].
pub enum JwtErrorView {
    ConfigError(Seq<char>),
    TimestampError,
    JwtError(TokenError),
}

impl View for JwtError {
    type V = JwtErrorView;

    open spec fn view(&self) -> JwtErrorView {
        match self {
            JwtError::ConfigError(text) => JwtErrorView::ConfigError(text@),
            JwtError::TimestampError => JwtErrorView::TimestampError,
            JwtError::JwtError(reason) => JwtErrorView::JwtError(*reason),
        }
    }
}

/// The claims found in a payload: each is absent where the payload does not
/// hold it in the expected type.
#[derive(Debug, Clone, PartialEq, Eq)]
pub struct RawClaims {
    /// The `sub` claim, where it is a string.
    pub sub: Option<String>,
    /// The `exp` claim, where it is a non-negative whole number.
    pub exp: Option<u64>,
}

/// The mathematical content of [`RawClaims`].
pub struct RawClaimsView {
    pub sub: Option<Seq<char>>,
    pub exp: Option<u64>,
}

impl View for RawClaims {
    type V = RawClaimsView;

    open spec fn view(&self) -> RawClaimsView {
        RawClaimsView {
            sub: match self.sub {
                Some(s) => Some(s@),
                None => None,
            },
            exp: self.exp,
        }
    }
}

/// The kind of a `jsonwebtoken` error.
pub uninterp spec fn jwt_fault(error: jsonwebtoken::errors::Error) -> JwtFault;

/// The token that `jsonwebtoken` writes for a subject and an expiry under a
/// secret, with HMAC-SHA-256, or the kind of its failure.
pub uninterp spec fn jwt_signed(sub: Seq<char>, exp: u64, secret: Seq<char>) -> Result<Seq<char>, JwtFault>;

/// What `jsonwebtoken` finds in a token under a secret when it accepts
/// HMAC-SHA-256 alone and leaves the expiry unchecked: the claims of the
/// payload, or the kind of its failure.
pub uninterp spec fn jwt_decoded(token: Seq<char>, secret: Seq<char>) -> Result<RawClaimsView, JwtFault>;

/// Tells the kinds of a `jsonwebtoken` error apart, by
/// `jsonwebtoken::errors::Error::kind`. Trusted: the result is the kind of
/// the error, the kinds that carry no name here being `Other`.
#[verifier::external_body]
fn fault_of(error: &jsonwebtoken::errors::Error) -> (fault: JwtFault)
    ensures
        fault == jwt_fault(*error),
{
    match error.kind() {
        jsonwebtoken::errors::ErrorKind::InvalidToken => JwtFault::InvalidToken,
        jsonwebtoken::errors::ErrorKind::InvalidSignature => JwtFault::InvalidSignature,
        jsonwebtoken::errors::ErrorKind::ExpiredSignature => JwtFault::ExpiredSignature,
        jsonwebtoken::errors::ErrorKind::InvalidAlgorithm => JwtFault::InvalidAlgorithm,
        jsonwebtoken::errors::ErrorKind::Base64(_) => JwtFault::Base64,
        jsonwebtoken::errors::ErrorKind::Json(_) => JwtFault::Json,
        jsonwebtoken::errors::ErrorKind::Utf8(_) => JwtFault::Utf8,
        jsonwebtoken::errors::ErrorKind::Crypto(_) => JwtFault::Crypto,
        _ => JwtFault::Other,
    }
}

/// Signs the claims `sub` and `exp` with `jsonwebtoken::encode`, under the
/// default header (HMAC-SHA-256) and the bytes of `secret` as the key.
/// Trusted: the token is a function of the three arguments, and decoding
/// it under the same secret gives back the two claims.
#[verifier::external_body]
fn sign_hs256(sub: &str, exp: u64, secret: &str) -> (signed: Result<String, jsonwebtoken::errors::Error>)
    ensures
        match signed {
            Ok(token) => {
                &&& jwt_signed(sub@, exp, secret@) == Ok::<Seq<char>, JwtFault>(token@)
                &&& jwt_decoded(token@, secret@) == Ok::<RawClaimsView, JwtFault>(
                    RawClaimsView { sub: Some(sub@), exp: Some(exp) },
                )
            },
            Err(e) => jwt_signed(sub@, exp, secret@) == Err::<Seq<char>, JwtFault>(jwt_fault(e)),
        },
{
    let mut claims = serde_json::Map::new();
    claims.insert("sub".to_string(), serde_json::Value::from(sub));
    claims.insert("exp".to_string(), serde_json::Value::from(exp));
    let key = jsonwebtoken::EncodingKey::from_secret(secret.as_bytes());
    jsonwebtoken::encode(&jsonwebtoken::Header::default(), &claims, &key)
}

/// Decodes a token with `jsonwebtoken::decode`, the bytes of `secret` as the
/// key, HMAC-SHA-256 as the one algorithm, and no check of the expiry or of
/// any other claim. Trusted: the outcome is a function of the two
/// arguments. (The call reads the system clock and drops the reading; it
/// panics where that clock stands before 1970.)
#[verifier::external_body]
fn decode_hs256(token: &str, secret: &str) -> (decoded: Result<RawClaims, jsonwebtoken::errors::Error>)
    ensures
        match decoded {
            Ok(raw) => jwt_decoded(token@, secret@) == Ok::<RawClaimsView, JwtFault>(raw@),
            Err(e) => jwt_decoded(token@, secret@) == Err::<RawClaimsView, JwtFault>(jwt_fault(e)),
        },
{
    let key = jsonwebtoken::DecodingKey::from_secret(secret.as_bytes());
    let mut rules = jsonwebtoken::Validation::new(jsonwebtoken::Algorithm::HS256);
    rules.validate_exp = false;
    let data = jsonwebtoken::decode::<serde_json::Value>(token, &key, &rules)?;
    Ok(RawClaims {
        sub: data.claims.get("sub").and_then(|v| v.as_str()).map(|s| s.to_string()),
        exp: data.claims.get("exp").and_then(|v| v.as_u64()),
    })
}

/// The second at which a token issued at `now` stops holding, where it can
/// be written as a timestamp.
pub open spec fn expiry_of(now: i64) -> Option<usize> {
    if 0 <= now + TOKEN_VALIDITY_SECONDS <= i64::MAX && now + TOKEN_VALIDITY_SECONDS <= usize::MAX {
        Some((now + TOKEN_VALIDITY_SECONDS) as usize)
    } else {
        None
    }
}

/// The error that a failure of `jsonwebtoken` becomes.
pub open spec fn token_error_of(fault: JwtFault) -> TokenError {
    match fault {
        JwtFault::InvalidSignature => TokenError::Signature,
        JwtFault::ExpiredSignature => TokenError::Expired,
        _ => TokenError::Malformed,
    }
}

/// The claims that a payload holds, where it holds a subject and an expiry
/// that fits a timestamp.
pub open spec fn claims_of(raw: RawClaimsView) -> Option<ClaimsView> {
    match (raw.sub, raw.exp) {
        (Some(sub), Some(exp)) => if exp <= usize::MAX {
            Some(ClaimsView { sub, exp: exp as usize })
        } else {
            None
        },
        _ => None,
    }
}

/// What validation at `now` makes of a decoding outcome: the claims only
/// where the token decoded, carries both claims, and has not reached its
/// expiry.
pub open spec fn checked(decoded: Result<RawClaimsView, JwtFault>, now: i64) -> Result<ClaimsView, JwtErrorView> {
    match decoded {
        Err(fault) => Err(JwtErrorView::JwtError(token_error_of(fault))),
        Ok(raw) => match claims_of(raw) {
            None => Err(JwtErrorView::JwtError(TokenError::Malformed)),
            Some(claims) => if claims.exp > now {
                Ok(claims)
            } else {
                Err(JwtErrorView::JwtError(TokenError::Expired))
            },
        },
    }
}

/// What a signing outcome becomes.
pub open spec fn issued(signed: Result<Seq<char>, JwtFault>) -> Result<Seq<char>, JwtErrorView> {
    match signed {
        Ok(token) => Ok(token),
        Err(fault) => Err(JwtErrorView::JwtError(token_error_of(fault))),
    }
}

/// What [`issue`] returns.
pub open spec fn issue_spec(subject: Seq<char>, secret: Seq<char>, now: i64) -> Result<Seq<char>, JwtErrorView> {
    match expiry_of(now) {
        None => Err(JwtErrorView::TimestampError),
        Some(exp) => issued(jwt_signed(subject, exp as u64, secret)),
    }
}

/// What [`validate`] returns.
pub open spec fn validate_spec(token: Seq<char>, secret: Seq<char>, now: i64) -> Result<ClaimsView, JwtErrorView> {
    checked(jwt_decoded(token, secret), now)
}

/// What [`generate_token_at`] returns.
pub open spec fn generate_spec(settings: Map<Seq<char>, Seq<char>>, user_id: Seq<char>, now: i64) -> Result<Seq<char>, JwtErrorView> {
    match settings.get(secret_key_name()) {
        None => Err(JwtErrorView::ConfigError(secret_missing_text())),
        Some(secret) => issue_spec(user_id, secret, now),
    }
}

/// What [`validate_token_at`] returns.
pub open spec fn validate_token_spec(settings: Map<Seq<char>, Seq<char>>, token: Seq<char>, now: i64) -> Result<ClaimsView, JwtErrorView> {
    match settings.get(secret_key_name()) {
        None => Err(JwtErrorView::ConfigError(secret_missing_text())),
        Some(secret) => validate_spec(token, secret, now),
    }
}

/// The view of an issuing result.
pub open spec fn token_result_view(result: Result<String, JwtError>) -> Result<Seq<char>, JwtErrorView> {
    match result {
        Ok(token) => Ok(token@),
        Err(e) => Err(e@),
    }
}

/// The view of a validation result.
pub open spec fn claims_result_view(result: Result<Claims, JwtError>) -> Result<ClaimsView, JwtErrorView> {
    match result {
        Ok(claims) => Ok(claims@),
        Err(e) => Err(e@),
    }
}

impl TokenError {
    /// The error that a failure of `jsonwebtoken` becomes: a signature that
    /// does not match and a passed expiry keep their meaning, every other
    /// failure makes the token malformed.
    pub fn from_fault(fault: JwtFault) -> (reason: TokenError)
        ensures
            reason == token_error_of(fault),
    {
        match fault {
            JwtFault::InvalidSignature => TokenError::Signature,
            JwtFault::ExpiredSignature => TokenError::Expired,
            _ => TokenError::Malformed,
        }
    }

    /// The name under which `jsonwebtoken` prints this failure.
    pub fn name(&self) -> (text: &'static str)
        ensures
            text@ == match self {
                TokenError::Signature => "InvalidSignature"@,
                TokenError::Expired => "ExpiredSignature"@,
                TokenError::Malformed => "InvalidToken"@,
            },
    {
        match self {
            TokenError::Signature => "InvalidSignature",
            TokenError::Expired => "ExpiredSignature",
            TokenError::Malformed => "InvalidToken",
        }
    }
}

impl From<jsonwebtoken::errors::Error> for JwtError {
    fn from(err: jsonwebtoken::errors::Error) -> (converted: JwtError) {
        JwtError::JwtError(TokenError::from_fault(fault_of(&err)))
    }
}

impl vstd::std_specs::convert::FromSpecImpl<jsonwebtoken::errors::Error> for JwtError {
    open spec fn obeys_from_spec() -> bool {
        true
    }

    open spec fn from_spec(err: jsonwebtoken::errors::Error) -> JwtError {
        JwtError::JwtError(token_error_of(jwt_fault(err)))
    }
}

impl JwtError {
    /// The error as one line of text.
    pub fn message(&self) -> (text: String)
        ensures
            text@ == match self {
                JwtError::ConfigError(what) => "Configuration error: "@ + what@,
                JwtError::TimestampError => "Invalid timestamp"@,
                JwtError::JwtError(reason) => "JWT error: "@ + match reason {
                    TokenError::Signature => "InvalidSignature"@,
                    TokenError::Expired => "ExpiredSignature"@,
                    TokenError::Malformed => "InvalidToken"@,
                },
            },
    {
        match self {
            JwtError::ConfigError(what) => String::from_str("Configuration error: ").concat(what.as_str()),
            JwtError::TimestampError => String::from_str("Invalid timestamp"),
            JwtError::JwtError(reason) => String::from_str("JWT error: ").concat(reason.name()),
        }
    }
}

/// A token that carries the subject `sub` and the expiry written at `issued_at`
/// is accepted, with that subject, at every time strictly before `issued_at`
/// plus one hour, and is turned down as expired from that very second on:
/// the deadline itself is already too late.
pub proof fn lemma_validity_window(sub: Seq<char>, issued_at: i64, at: i64)
    requires
        expiry_of(issued_at) is Some,
    ensures
        ({
            let exp = expiry_of(issued_at)->0;
            let decoded = Ok::<RawClaimsView, JwtFault>(RawClaimsView { sub: Some(sub), exp: Some(exp as u64) });
            &&& exp == issued_at + TOKEN_VALIDITY_SECONDS
            &&& at < issued_at + TOKEN_VALIDITY_SECONDS ==> checked(decoded, at) == Ok::<
                ClaimsView,
                JwtErrorView,
            >(ClaimsView { sub, exp })
            &&& at >= issued_at + TOKEN_VALIDITY_SECONDS ==> checked(decoded, at) == Err::<
                ClaimsView,
                JwtErrorView,
            >(JwtErrorView::JwtError(TokenError::Expired))
        }),
{
}

/// A token whose signature does not match under the secret is turned down
/// with `Signature` at every time, and nothing that failed to decode is ever
/// accepted.
pub proof fn lemma_bad_signature_rejected(token: Seq<char>, secret: Seq<char>, at: i64)
    ensures
        jwt_decoded(token, secret) == Err::<RawClaimsView, JwtFault>(JwtFault::InvalidSignature)
            ==> validate_spec(token, secret, at) == Err::<ClaimsView, JwtErrorView>(
            JwtErrorView::JwtError(TokenError::Signature),
        ),
        jwt_decoded(token, secret) is Err ==> validate_spec(token, secret, at) is Err,
{
}

/// The expiry of a token issued at `now`: one hour later, or nothing where
/// that second cannot be written as a timestamp.
pub fn token_expiry(now: i64) -> (expiry: Option<usize>)
    ensures
        expiry == expiry_of(now),
        expiry matches Some(exp) ==> exp == now + TOKEN_VALIDITY_SECONDS && exp > now,
{
    match now.checked_add(TOKEN_VALIDITY_SECONDS) {
        None => None,
        Some(deadline) => {
            if deadline < 0 {
                None
            } else if deadline as u64 > usize::MAX as u64 {
                None
            } else {
                Some(deadline as usize)
            }
        },
    }
}

/// Whether a token that expires at `exp` still holds at `now`: only
/// strictly before the expiry.
pub fn is_live(exp: usize, now: i64) -> (live: bool)
    ensures
        live == (exp > now),
{
    now < 0 || (now as u64) < (exp as u64)
}

/// Judges what decoding gave at the time `now`. The claims come back only
/// where the payload holds a subject and an expiry and `now` is strictly
/// before that expiry; a token at or past its expiry is `Expired`, a payload
/// that lacks a claim is `Malformed`, and a failure of decoding keeps its
/// meaning.
pub fn validate_decoded(decoded: Result<RawClaims, JwtFault>, now: i64) -> (result: Result<Claims, JwtError>)
    ensures
        claims_result_view(result) == checked(
            match decoded {
                Ok(raw) => Ok(raw@),
                Err(fault) => Err(fault),
            },
            now,
        ),
{
    match decoded {
        Err(fault) => Err(JwtError::JwtError(TokenError::from_fault(fault))),
        Ok(raw) => {
            let RawClaims { sub, exp } = raw;
            match (sub, exp) {
                (Some(sub), Some(exp)) => {
                    if exp > usize::MAX as u64 {
                        Err(JwtError::JwtError(TokenError::Malformed))
                    } else if is_live(exp as usize, now) {
                        Ok(Claims { sub, exp: exp as usize })
                    } else {
                        Err(JwtError::JwtError(TokenError::Expired))
                    }
                },
                _ => Err(JwtError::JwtError(TokenError::Malformed)),
            }
        },
    }
}

/// Issues a token for `subject`, signed with `secret`, that holds from `now`
/// until one hour later. Fails with `TimestampError` exactly where that
/// expiry cannot be written as a timestamp.
///
/// A token that was issued is accepted by [`validate`] under the same secret
/// at every time strictly before `now` plus one hour, with the subject it
/// was issued for, and turned down as expired from that second on.
pub fn issue(subject: &str, secret: &str, now: i64) -> (result: Result<String, JwtError>)
    ensures
        token_result_view(result) == issue_spec(subject@, secret@, now),
        result matches Ok(token) ==> forall|later: i64| #[trigger]
            validate_spec(token@, secret@, later) == (if later < now + TOKEN_VALIDITY_SECONDS {
                Ok::<ClaimsView, JwtErrorView>(
                    ClaimsView { sub: subject@, exp: (now + TOKEN_VALIDITY_SECONDS) as usize },
                )
            } else {
                Err::<ClaimsView, JwtErrorView>(JwtErrorView::JwtError(TokenError::Expired))
            }),
{
    match token_expiry(now) {
        None => Err(JwtError::TimestampError),
        Some(exp) => match sign_hs256(subject, exp as u64, secret) {
            Ok(token) => Ok(token),
            Err(e) => Err(JwtError::from(e)),
        },
    }
}

/// Validates a presented token against `secret` at the time `now`: the
/// signature must match under HMAC-SHA-256, the one algorithm accepted, and
/// `now` must be strictly before the expiry, with no leeway.
pub fn validate(token: &str, secret: &str, now: i64) -> (result: Result<Claims, JwtError>)
    ensures
        claims_result_view(result) == validate_spec(token@, secret@, now),
{
    let decoded = match decode_hs256(token, secret) {
        Ok(raw) => Ok(raw),
        Err(e) => Err(fault_of(&e)),
    };
    validate_decoded(decoded, now)
}

/// Issues a token for `user_id` at the time `now`, signed with the secret
/// that the settings hold at this moment. Fails with `ConfigError` exactly
/// where they hold none; otherwise as [`issue`] does.
///
/// A token that was issued is accepted by [`validate_token_at`] under the
/// same settings strictly before `now` plus one hour, and turned down as
/// expired from that second on.
pub fn generate_token_at(settings: &Config, user_id: &str, now: i64) -> (result: Result<String, JwtError>)
    ensures
        token_result_view(result) == generate_spec(settings@, user_id@, now),
        result matches Ok(token) ==> forall|later: i64| #[trigger]
            validate_token_spec(settings@, token@, later) == (if later < now + TOKEN_VALIDITY_SECONDS {
                Ok::<ClaimsView, JwtErrorView>(
                    ClaimsView { sub: user_id@, exp: (now + TOKEN_VALIDITY_SECONDS) as usize },
                )
            } else {
                Err::<ClaimsView, JwtErrorView>(JwtErrorView::JwtError(TokenError::Expired))
            }),
{
    match settings.get_string("secrets.jwt_secret_key") {
        None => Err(JwtError::ConfigError(String::from_str("JWT secret key not found."))),
        Some(secret) => issue(user_id, secret.as_str(), now),
    }
}

/// Validates a presented credential at the time `now` against the secret
/// that the settings hold at this moment. Fails with `ConfigError` exactly
/// where they hold none; otherwise as [`validate`] does.
pub fn validate_token_at(settings: &Config, token: &BearerToken, now: i64) -> (result: Result<Claims, JwtError>)
    ensures
        claims_result_view(result) == validate_token_spec(settings@, token@, now),
{
    match settings.get_string("secrets.jwt_secret_key") {
        None => Err(JwtError::ConfigError(String::from_str("JWT secret key not found."))),
        Some(secret) => validate(token.0.as_str(), secret.as_str(), now),
    }
}

/// Reads the clock: the seconds since the Unix epoch, by
/// `chrono::Utc::now` and `chrono::DateTime::timestamp`. Nothing is claimed
/// of the reading. (The call panics where the clock stands before 1970.)
#[verifier::external_body]
pub(crate) fn unix_now() -> i64 {
    chrono::Utc::now().timestamp()
}

/// Issues a token for `user_id` at the present time: [`generate_token_at`]
/// with a reading of the clock.
pub fn generate_token(settings: &Config, user_id: &str) -> (result: Result<String, JwtError>)
    ensures
        exists|now: i64| token_result_view(result) == generate_spec(settings@, user_id@, now),
        settings@.get(secret_key_name()) is None ==> token_result_view(result) == Err::<
            Seq<char>,
            JwtErrorView,
        >(JwtErrorView::ConfigError(secret_missing_text())),
{
    let now = unix_now();
    let result = generate_token_at(settings, user_id, now);
    assert(token_result_view(result) == generate_spec(settings@, user_id@, now));
    result
}

/// Validates a presented credential at the present time:
/// [`validate_token_at`] with a reading of the clock.
pub fn validate_token(settings: &Config, token: &BearerToken) -> (result: Result<Claims, JwtError>)
    ensures
        exists|now: i64| claims_result_view(result) == validate_token_spec(settings@, token@, now),
        settings@.get(secret_key_name()) is None ==> claims_result_view(result) == Err::<
            ClaimsView,
            JwtErrorView,
        >(JwtErrorView::ConfigError(secret_missing_text())),
{
    let now = unix_now();
    let result = validate_token_at(settings, token, now);
    assert(claims_result_view(result) == validate_token_spec(settings@, token@, now));
    result
}

} // verus!
