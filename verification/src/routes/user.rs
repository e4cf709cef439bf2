//! What a request carries and what is decided about it: the presented
//! bearer credential, registration, login and the authorization of a
//! protected action.

use vstd::prelude::*;
use vstd::string::*;

use crate::auth::jwt::{
    claims_result_view, generate_spec, generate_token_at, secret_key_name, unix_now, validate_token_at,
    validate_token_spec, JwtError, JwtErrorView, TOKEN_VALIDITY_SECONDS,
};
use crate::auth::password::{hash, password_matches, verify, HashError};
use crate::config::Config;

verus! {

/// The token that a request presented, exactly as it stood behind the scheme.
#[derive(Debug, Clone, PartialEq, Eq)]
pub struct BearerToken(pub String);

impl View for BearerToken {
    type V = Seq<char>;

    open spec fn view(&self) -> Seq<char> {
        self.0@
    }
}

/// An identity and the plaintext password presented for it.
#[derive(Debug, Clone, PartialEq, Eq)]
pub struct User {
    pub username: String,
    pub password: String,
}

/// The identity whose account a request asks to delete.
#[derive(Debug, Clone, PartialEq, Eq)]
pub struct UserDelete {
    pub username: String,
}

/// The payload of a signed token.
#[derive(Debug, Clone, PartialEq, Eq)]
pub struct Claims {
    /// The identity that the token was issued for.
    pub sub: String,
    /// The second, counted from the Unix epoch, from which the token no longer holds.
    pub exp: usize,
}

/// The mathematical content of [`Claims`].
pub struct ClaimsView {
    pub sub: Seq<char>,
    pub exp: usize,
}

impl View for Claims {
    type V = ClaimsView;

    open spec fn view(&self) -> ClaimsView {
        ClaimsView { sub: self.sub@, exp: self.exp }
    }
}

/// Why no bearer credential could be taken from a request.
#[derive(Debug, Clone, Copy, PartialEq, Eq)]
pub enum HeaderError {
    /// The request carried no `Authorization` value, or more than one.
    MissingOrDuplicateHeader,
    /// The one value does not start with `Bearer ` followed by the token.
    MalformedHeader,
}

/// The scheme that must open the header value: the word `Bearer` and one space.
pub open spec fn bearer_prefix() -> Seq<char> {
    seq!['B', 'e', 'a', 'r', 'e', 'r', ' ']
}

/// The credential that the `Authorization` values of a request present.
pub open spec fn extract_bearer(values: Seq<Seq<char>>) -> Result<Seq<char>, HeaderError> {
    if values.len() != 1 {
        Err(HeaderError::MissingOrDuplicateHeader)
    } else if !bearer_prefix().is_prefix_of(values[0]) {
        Err(HeaderError::MalformedHeader)
    } else {
        Ok(values[0].skip(7))
    }
}

impl HeaderError {
    /// A sentence for the log.
    pub fn message(&self) -> (text: &'static str)
        ensures
            text@ == match self {
                HeaderError::MissingOrDuplicateHeader => "Expected only one Authorization header"@,
                HeaderError::MalformedHeader => "Invalid Authorization header format"@,
            },
    {
        match self {
            HeaderError::MissingOrDuplicateHeader => "Expected only one Authorization header",
            HeaderError::MalformedHeader => "Invalid Authorization header format",
        }
    }
}

impl BearerToken {
    /// Takes the bearer credential from the values that a request carries
    /// under `Authorization`. Exactly one value must be there, and it must
    /// start with `Bearer `; what follows is the token, untouched.
    pub fn from_request(authorization: &[&str]) -> (presented: Result<BearerToken, HeaderError>)
        ensures
            match presented {
                Ok(token) => extract_bearer(authorization.deep_view()) == Ok::<Seq<char>, HeaderError>(token@),
                Err(e) => extract_bearer(authorization.deep_view()) == Err::<Seq<char>, HeaderError>(e),
            },
    {
        if authorization.len() != 1 {
            return Err(HeaderError::MissingOrDuplicateHeader);
        }
        let value: &str = authorization[0];
        assert(authorization.deep_view()[0] == value@);
        let length = value.unicode_len();
        proof {
            reveal_strlit("Bearer ");
            assert("Bearer "@ =~= bearer_prefix());
        }
        if length < 7 {
            return Err(HeaderError::MalformedHeader);
        }
        let scheme = value.substring_char(0, 7).to_owned();
        if scheme == "Bearer ".to_owned() {
            assert(value@.subrange(0, 7) == bearer_prefix());
            let token = value.substring_char(7, length).to_owned();
            assert(token@ =~= value@.skip(7));
            Ok(BearerToken(token))
        } else {
            Err(HeaderError::MalformedHeader)
        }
    }
}

/// A credential at rest: an identity and the digest of its password.
#[derive(Debug, Clone, PartialEq, Eq)]
pub struct Credential {
    pub identity: String,
    pub password_hash: String,
}

/// The mathematical content of a [`Credential`].
pub struct CredentialView {
    pub identity: Seq<char>,
    pub password_hash: Seq<char>,
}

impl View for Credential {
    type V = CredentialView;

    open spec fn view(&self) -> CredentialView {
        CredentialView { identity: self.identity@, password_hash: self.password_hash@ }
    }
}

/// What a caller of the service is told.
#[derive(Debug, Clone, Copy, PartialEq, Eq)]
pub enum Status {
    /// The request was served.
    Success,
    /// The request was turned down; the caller is not told why.
    Unauthorized,
    /// The request itself is not in order.
    BadRequest,
}

/// Why a login failed. Kept for the log; a caller never sees which.
#[derive(Debug, Clone, Copy, PartialEq, Eq)]
pub enum AuthFailure {
    /// No credential is kept for the identity.
    UserNotFound,
    /// The password does not match the stored digest.
    InvalidPassword,
    /// The password matched, but no token could be issued.
    TokenIssuance,
}

/// Whether a protected action may go ahead.
#[derive(Debug, Clone, Copy, PartialEq, Eq)]
pub enum Decision {
    Allowed,
    Denied,
}

/// The answer to a login.
#[derive(Debug, Clone, PartialEq, Eq)]
pub struct LoginResponse {
    pub status: Status,
    /// The signed token, on success only.
    pub token: Option<String>,
    /// A reason, on failure only: the same for every failure.
    pub reason: Option<String>,
}

/// The mathematical content of a [`LoginResponse`].
pub struct LoginResponseView {
    pub status: Status,
    pub token: Option<Seq<char>>,
    pub reason: Option<Seq<char>>,
}

impl View for LoginResponse {
    type V = LoginResponseView;

    open spec fn view(&self) -> LoginResponseView {
        LoginResponseView {
            status: self.status,
            token: match self.token {
                Some(t) => Some(t@),
                None => None,
            },
            reason: match self.reason {
                Some(r) => Some(r@),
                None => None,
            },
        }
    }
}

/// The one reason that every failed login gives.
pub open spec fn generic_reason() -> Seq<char> {
    "Unauthorized"@
}

/// The view of a credential that the store may have found.
pub open spec fn stored_view(stored: Option<&Credential>) -> Option<CredentialView> {
    match stored {
        Some(credential) => Some(credential@),
        None => None,
    }
}

/// The view of a login outcome.
pub open spec fn outcome_view(outcome: Result<String, AuthFailure>) -> Result<Seq<char>, AuthFailure> {
    match outcome {
        Ok(token) => Ok(token@),
        Err(failure) => Err(failure),
    }
}

/// What issuance gave, as the outcome of a login whose password matched.
pub open spec fn concluded(issued: Result<Seq<char>, JwtErrorView>) -> Result<Seq<char>, AuthFailure> {
    match issued {
        Ok(token) => Ok(token),
        Err(_) => Err(AuthFailure::TokenIssuance),
    }
}

/// What [`login`] returns: the credential must be there and be the
/// identity's own, the password must match its digest, and a token must
/// have been issued.
pub open spec fn login_spec(
    settings: Map<Seq<char>, Seq<char>>,
    stored: Option<CredentialView>,
    username: Seq<char>,
    password: Seq<char>,
    now: i64,
) -> Result<Seq<char>, AuthFailure> {
    match stored {
        None => Err(AuthFailure::UserNotFound),
        Some(credential) => if credential.identity != username {
            Err(AuthFailure::UserNotFound)
        } else if !password_matches(password, credential.password_hash) {
            Err(AuthFailure::InvalidPassword)
        } else {
            concluded(generate_spec(settings, username, now))
        },
    }
}

/// The answer that a login outcome becomes: the token on success, and on
/// every failure the same answer.
pub open spec fn respond_spec(outcome: Result<Seq<char>, AuthFailure>) -> LoginResponseView {
    match outcome {
        Ok(token) => LoginResponseView { status: Status::Success, token: Some(token), reason: None },
        Err(_) => LoginResponseView {
            status: Status::Unauthorized,
            token: None,
            reason: Some(generic_reason()),
        },
    }
}

/// What a validation result allows for `requested`: the action only where
/// the token is valid and its subject is the requested identity itself.
pub open spec fn decide_spec(validated: Result<ClaimsView, JwtErrorView>, requested: Seq<char>) -> Decision {
    match validated {
        Ok(claims) => if claims.sub == requested {
            Decision::Allowed
        } else {
            Decision::Denied
        },
        Err(_) => Decision::Denied,
    }
}

/// What [`authorize`] returns.
pub open spec fn authorize_spec(
    settings: Map<Seq<char>, Seq<char>>,
    token: Seq<char>,
    requested: Seq<char>,
    now: i64,
) -> Decision {
    decide_spec(validate_token_spec(settings, token, now), requested)
}

impl Status {
    /// The HTTP status code.
    pub fn code(&self) -> (code: u16)
        ensures
            code == match self {
                Status::Success => 200u16,
                Status::Unauthorized => 401u16,
                Status::BadRequest => 400u16,
            },
    {
        match self {
            Status::Success => 200,
            Status::Unauthorized => 401,
            Status::BadRequest => 400,
        }
    }
}

impl HeaderError {
    /// What the caller is told: the request is not in order.
    pub fn status(&self) -> (status: Status)
        ensures
            status == Status::BadRequest,
    {
        Status::BadRequest
    }
}

impl AuthFailure {
    /// What the caller is told: the same for every failure.
    pub fn status(&self) -> (status: Status)
        ensures
            status == Status::Unauthorized,
    {
        Status::Unauthorized
    }

    /// A sentence for the log.
    pub fn describe(&self) -> (text: &'static str)
        ensures
            text@ == match self {
                AuthFailure::UserNotFound => "User not found"@,
                AuthFailure::InvalidPassword => "Invalid password"@,
                AuthFailure::TokenIssuance => "Token generation error"@,
            },
    {
        match self {
            AuthFailure::UserNotFound => "User not found",
            AuthFailure::InvalidPassword => "Invalid password",
            AuthFailure::TokenIssuance => "Token generation error",
        }
    }
}

impl Decision {
    /// What the caller is told.
    pub fn status(&self) -> (status: Status)
        ensures
            status == match self {
                Decision::Allowed => Status::Success,
                Decision::Denied => Status::Unauthorized,
            },
    {
        match self {
            Decision::Allowed => Status::Success,
            Decision::Denied => Status::Unauthorized,
        }
    }

    /// Whether the action may go ahead.
    pub fn is_allowed(&self) -> (allowed: bool)
        ensures
            allowed == (self == Decision::Allowed),
    {
        match self {
            Decision::Allowed => true,
            Decision::Denied => false,
        }
    }
}

impl LoginResponse {
    /// The answer to a login outcome. A success carries the token; every
    /// failure gives the same answer, whatever its cause.
    pub fn from_outcome(outcome: Result<String, AuthFailure>) -> (response: LoginResponse)
        ensures
            response@ == respond_spec(outcome_view(outcome)),
    {
        match outcome {
            Ok(token) => LoginResponse { status: Status::Success, token: Some(token), reason: None },
            Err(_) => LoginResponse {
                status: Status::Unauthorized,
                token: None,
                reason: Some(String::from_str("Unauthorized")),
            },
        }
    }

    /// Whether the login succeeded.
    pub fn success(&self) -> (succeeded: bool)
        ensures
            succeeded == (self.status == Status::Success),
    {
        match self.status {
            Status::Success => true,
            _ => false,
        }
    }
}

/// No answer to a failed login tells its cause: any two failures give the
/// same answer, and that answer carries no token.
pub proof fn lemma_failures_look_alike(first: AuthFailure, second: AuthFailure)
    ensures
        respond_spec(Err(first)) == respond_spec(Err(second)),
        respond_spec(Err(first)).token is None,
        respond_spec(Err(first)).status == Status::Unauthorized,
{
}

/// The credential to store for a new user, from what the hasher gave: the
/// user's identity with the digest, or the hasher's failure.
pub fn credential_for(user: &User, hashed: Result<String, HashError>) -> (made: Result<Credential, HashError>)
    ensures
        match made {
            Ok(credential) => hashed matches Ok(digest) && credential@ == (CredentialView {
                identity: user.username@,
                password_hash: digest@,
            }),
            Err(e) => hashed == Err::<String, HashError>(e),
        },
{
    match hashed {
        Ok(digest) => Ok(Credential { identity: user.username.clone(), password_hash: digest }),
        Err(e) => Err(e),
    }
}

/// Registration: hashes the password of a new user and gives the credential
/// to store. The credential is the user's own, and its digest matches the
/// password.
pub fn register_v1(user: &User) -> (made: Result<Credential, HashError>)
    ensures
        made matches Ok(credential) ==> {
            &&& credential.identity@ == user.username@
            &&& password_matches(user.password@, credential.password_hash@)
        },
{
    credential_for(user, hash(user.password.as_str()))
}

/// What issuance gave, as the outcome of a login whose password matched: a
/// token that was issued is handed on, and no failure of issuance is ever
/// taken for a success.
pub fn conclude_login(issued: Result<String, JwtError>) -> (outcome: Result<String, AuthFailure>)
    ensures
        outcome_view(outcome) == concluded(
            match issued {
                Ok(token) => Ok(token@),
                Err(e) => Err(e@),
            },
        ),
{
    match issued {
        Ok(token) => Ok(token),
        Err(_) => Err(AuthFailure::TokenIssuance),
    }
}

/// Login at the time `now`, with what the credential store found for the
/// user's identity. A credential kept for another identity counts as not
/// found.
///
/// The token of a successful login authorizes, under the same settings, an
/// action on the user's own identity until one hour after `now`, and never
/// an action on any other identity.
pub fn login(settings: &Config, stored: Option<&Credential>, user: &User, now: i64) -> (outcome: Result<
    String,
    AuthFailure,
>)
    ensures
        outcome_view(outcome) == login_spec(
            settings@,
            stored_view(stored),
            user.username@,
            user.password@,
            now,
        ),
        outcome matches Ok(token) ==> forall|requested: Seq<char>, later: i64| #[trigger]
            authorize_spec(settings@, token@, requested, later) == (if requested == user.username@ && later
                < now + TOKEN_VALIDITY_SECONDS {
                Decision::Allowed
            } else {
                Decision::Denied
            }),
{
    match stored {
        None => Err(AuthFailure::UserNotFound),
        Some(credential) => {
            if credential.identity != user.username {
                Err(AuthFailure::UserNotFound)
            } else if !verify(user.password.as_str(), credential.password_hash.as_str()) {
                Err(AuthFailure::InvalidPassword)
            } else {
                conclude_login(generate_token_at(settings, user.username.as_str(), now))
            }
        },
    }
}

/// Login at the present time: [`login`] with a reading of the clock, and
/// its outcome as the answer for the caller.
pub fn login_v1(settings: &Config, stored: Option<&Credential>, user: &User) -> (response: LoginResponse)
    ensures
        exists|now: i64|
            response@ == respond_spec(
                login_spec(settings@, stored_view(stored), user.username@, user.password@, now),
            ),
{
    let now = unix_now();
    let response = LoginResponse::from_outcome(login(settings, stored, user, now));
    assert(response@ == respond_spec(
        login_spec(settings@, stored_view(stored), user.username@, user.password@, now),
    ));
    response
}

/// A valid token never authorizes an action on an identity other than its
/// own subject, and a token that is not valid authorizes nothing.
pub proof fn lemma_token_binds_identity(
    settings: Map<Seq<char>, Seq<char>>,
    token: Seq<char>,
    requested: Seq<char>,
    at: i64,
)
    ensures
        authorize_spec(settings, token, requested, at) == Decision::Allowed <==> (validate_token_spec(
            settings,
            token,
            at,
        ) matches Ok(claims) && claims.sub == requested),
{
}

/// What a validation result allows for `requested_identity`: the action
/// goes ahead only where the token is valid and was issued for that very
/// identity.
pub fn decide(validated: &Result<Claims, JwtError>, requested_identity: &str) -> (decision: Decision)
    ensures
        decision == decide_spec(claims_result_view(*validated), requested_identity@),
{
    match validated {
        Ok(claims) => {
            if claims.sub == requested_identity.to_owned() {
                Decision::Allowed
            } else {
                Decision::Denied
            }
        },
        Err(_) => Decision::Denied,
    }
}

/// Authorizes a protected action on `requested_identity` at the time `now`
/// for the bearer of `token`.
pub fn authorize(settings: &Config, token: &BearerToken, requested_identity: &str, now: i64) -> (decision:
    Decision)
    ensures
        decision == authorize_spec(settings@, token@, requested_identity@, now),
{
    let validated = validate_token_at(settings, token, now);
    decide(&validated, requested_identity)
}

/// Authorizes the deletion of the account of `user` at the present time:
/// [`authorize`] with a reading of the clock. The caller deletes the
/// account only where the decision is `Allowed`.
pub fn delete_v1(settings: &Config, user: &UserDelete, token: &BearerToken) -> (decision: Decision)
    ensures
        exists|now: i64| decision == authorize_spec(settings@, token@, user.username@, now),
        settings@.get(secret_key_name()) is None ==> decision == Decision::Denied,
{
    let now = unix_now();
    let decision = authorize(settings, token, user.username.as_str(), now);
    assert(decision == authorize_spec(settings@, token@, user.username@, now));
    decision
}

} // verus!
