use vstd::prelude::*;

use vstd::utf8::encode_utf8;

use crate::error::AppError;

verus! {

/// The OAuth scope requested for Vertex AI calls.
pub const GOOGLE_OAUTH_SCOPE: &'static str = "https://www.googleapis.com/auth/cloud-platform";

/// Seconds for which a signed assertion is valid.
pub const ASSERTION_LIFETIME_SECONDS: u64 = 3600;

/// The credentials file read when no other source is configured.
pub const DEFAULT_CREDENTIALS_PATH: &'static str = "bitacora-657e2-e7b400931917.json";

/// The fields of a Google service account key that the client uses.
#[derive(Debug, Clone)]
pub struct ServiceAccountCredentials {
    pub project_id: String,
    pub private_key_id: String,
    pub private_key: String,
    pub client_email: String,
    pub token_uri: String,
}

/// The claims of the assertion exchanged for an access token.
#[derive(Debug, Clone)]
pub struct JwtClaimSet {
    pub iss: String,
    pub scope: String,
    pub aud: String,
    pub iat: u64,
    pub exp: u64,
}

/// The claims for an assertion issued at time `now`: issued by the service
/// account, for the token endpoint, valid for `ASSERTION_LIFETIME_SECONDS`.
pub fn jwt_claims(credentials: &ServiceAccountCredentials, now: u64) -> (c: JwtClaimSet)
    requires
        now + ASSERTION_LIFETIME_SECONDS <= u64::MAX,
    ensures
        c.iss == credentials.client_email,
        c.scope@ == GOOGLE_OAUTH_SCOPE@,
        c.aud == credentials.token_uri,
        c.iat == now,
        c.exp == now + ASSERTION_LIFETIME_SECONDS,
{
    JwtClaimSet {
        iss: credentials.client_email.clone(),
        scope: String::from_str(GOOGLE_OAUTH_SCOPE),
        aud: credentials.token_uri.clone(),
        iat: now,
        exp: now + ASSERTION_LIFETIME_SECONDS,
    }
}

/// Where the service account key is read from.
#[derive(Debug, Clone)]
pub enum CredentialsSource {
    /// The key itself, as JSON text.
    Inline(String),
    /// A file that holds the key.
    File(String),
}

/// Picks the key source: the JSON given inline if there is one; otherwise the
/// file named by the path setting, or the default file.
pub fn credentials_source(inline_json: Option<String>, path_setting: Option<String>) -> (s:
    CredentialsSource)
    ensures
        match inline_json {
            Some(j) => s == CredentialsSource::Inline(j),
            None => match path_setting {
                Some(p) => s == CredentialsSource::File(p),
                None => s matches CredentialsSource::File(p) && p@ == DEFAULT_CREDENTIALS_PATH@,
            },
        },
{
    match inline_json {
        Some(j) => CredentialsSource::Inline(j),
        None => match path_setting {
            Some(p) => CredentialsSource::File(p),
            None => CredentialsSource::File(String::from_str(DEFAULT_CREDENTIALS_PATH)),
        },
    }
}

/// The error reported when the credentials file cannot be read.
pub fn credentials_read_error(path: &str, detail: &str) -> (e: AppError)
    ensures
        e matches AppError::Env(m) && m@ == "Set GOOGLE_SERVICE_ACCOUNT_JSON or GOOGLE_APPLICATION_CREDENTIALS. Could not read "@
            + path@ + ": "@ + detail@,
{
    AppError::Env(
        String::from_str(
            "Set GOOGLE_SERVICE_ACCOUNT_JSON or GOOGLE_APPLICATION_CREDENTIALS. Could not read ",
        ).concat(path).concat(": ").concat(detail),
    )
}

/// Ways in which obtaining an access token can fail.
#[derive(Debug, Clone)]
pub enum AuthFailure {
    LockPoisoned,
    TokenEndpoint { status: String, body: String },
    InvalidPrivateKey(String),
    SigningFailed(String),
    ClockBeforeEpoch(String),
}

/// The text of the authentication error for a failure.
pub open spec fn auth_failure_message(f: AuthFailure) -> Seq<char> {
    match f {
        AuthFailure::LockPoisoned => "Token cache lock poisoned"@,
        AuthFailure::TokenEndpoint { status, body } => "Failed to fetch Google access token: HTTP "@
            + status@ + ": "@ + body@,
        AuthFailure::InvalidPrivateKey(d) => "Invalid service account private key: "@ + d@,
        AuthFailure::SigningFailed(d) => "Failed to sign service account JWT: "@ + d@,
        AuthFailure::ClockBeforeEpoch(d) => "System clock is before UNIX epoch: "@ + d@,
    }
}

impl AuthFailure {
    pub fn to_app_error(&self) -> (e: AppError)
        ensures
            e matches AppError::Auth(m) && m@ == auth_failure_message(*self),
    {
        let m = match self {
            AuthFailure::LockPoisoned => String::from_str("Token cache lock poisoned"),
            AuthFailure::TokenEndpoint { status, body } => String::from_str(
                "Failed to fetch Google access token: HTTP ",
            ).concat(status.as_str()).concat(": ").concat(body.as_str()),
            AuthFailure::InvalidPrivateKey(d) => String::from_str(
                "Invalid service account private key: ",
            ).concat(d.as_str()),
            AuthFailure::SigningFailed(d) => String::from_str(
                "Failed to sign service account JWT: ",
            ).concat(d.as_str()),
            AuthFailure::ClockBeforeEpoch(d) => String::from_str(
                "System clock is before UNIX epoch: ",
            ).concat(d.as_str()),
        };
        AppError::Auth(m)
    }
}

#[verifier::external_type_specification]
#[verifier::external_body]
pub struct ExSystemTime(std::time::SystemTime);

#[verifier::external_type_specification]
#[verifier::external_body]
pub struct ExSystemTimeError(std::time::SystemTimeError);

/// Calls `std::time::SystemTime::now`. Nothing is claimed of the time it reads.
#[verifier::external_body]
fn system_now() -> std::time::SystemTime {
    std::time::SystemTime::now()
}

/// Calls `SystemTime::duration_since(UNIX_EPOCH)`. Nothing is claimed: the
/// outcome depends on the clock reading handed in.
#[verifier::external_body]
fn since_unix_epoch(t: std::time::SystemTime) -> Result<
    std::time::Duration,
    std::time::SystemTimeError,
> {
    t.duration_since(std::time::UNIX_EPOCH)
}

/// Calls `Duration::as_secs`. The duration is opaque here, so nothing is claimed.
#[verifier::external_body]
fn whole_seconds(d: std::time::Duration) -> u64 {
    d.as_secs()
}

/// Formats a `SystemTimeError` with its `Display` impl. Nothing is claimed of the text.
#[verifier::external_body]
fn clock_error_text(e: &std::time::SystemTimeError) -> String {
    format!("{}", e)
}

/// The current Unix time in whole seconds, or an authentication error when the
/// clock reads a time before the Unix epoch.
pub fn unix_timestamp() -> (r: Result<u64, AppError>)
    ensures
        r matches Err(e) ==> e matches AppError::Auth(m) && exists|d: Seq<char>|
            m@ == "System clock is before UNIX epoch: "@ + d,
{
    match since_unix_epoch(system_now()) {
        Ok(d) => Ok(whole_seconds(d)),
        Err(e) => {
            let text = clock_error_text(&e);
            let ghost detail = text@;
            let err = AuthFailure::ClockBeforeEpoch(text).to_app_error();
            assert(err matches AppError::Auth(m) && m@ == "System clock is before UNIX epoch: "@
                + detail);
            Err(err)
        },
    }
}

#[verifier::external_type_specification]
#[verifier::external_body]
pub struct ExEncodingKey(jsonwebtoken::EncodingKey);

#[verifier::external_type_specification]
#[verifier::external_body]
pub struct ExJwtError(jsonwebtoken::errors::Error);

/// Whether `jsonwebtoken::EncodingKey::from_rsa_pem` accepts these bytes as an
/// RSA private key in PEM form.
pub uninterp spec fn rsa_pem_accepted(pem: Seq<u8>) -> bool;

/// Calls `jsonwebtoken::EncodingKey::from_rsa_pem`. Claimed: whether it succeeds
/// is a function of the bytes alone (`rsa_pem_accepted`). The key it builds is
/// opaque here, so nothing is said of it.
#[verifier::external_body]
fn rsa_key_from_pem(pem: &[u8]) -> (r: Result<jsonwebtoken::EncodingKey, jsonwebtoken::errors::Error>)
    ensures
        r is Ok == rsa_pem_accepted(pem@),
{
    jsonwebtoken::EncodingKey::from_rsa_pem(pem)
}

/// Formats a `jsonwebtoken` error with its `Display` impl. Nothing is claimed of the text.
#[verifier::external_body]
fn jwt_error_text(e: &jsonwebtoken::errors::Error) -> String {
    format!("{}", e)
}

/// The key that signs assertions, read from the service account's PEM private
/// key; an authentication error when the key is not an RSA private key.
pub fn signing_key(credentials: &ServiceAccountCredentials) -> (r: Result<
    jsonwebtoken::EncodingKey,
    AppError,
>)
    ensures
        r is Ok == rsa_pem_accepted(encode_utf8(credentials.private_key@)),
        r matches Err(e) ==> e matches AppError::Auth(m) && exists|d: Seq<char>|
            m@ == "Invalid service account private key: "@ + d,
{
    match rsa_key_from_pem(credentials.private_key.as_str().as_bytes()) {
        Ok(key) => Ok(key),
        Err(e) => {
            let text = jwt_error_text(&e);
            let ghost detail = text@;
            let err = AuthFailure::InvalidPrivateKey(text).to_app_error();
            assert(err matches AppError::Auth(m) && m@ == "Invalid service account private key: "@
                + detail);
            Err(err)
        },
    }
}

} // verus!
