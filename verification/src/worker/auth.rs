//! What a worker authenticates with: where its signing key comes from, and
//! the claims that its bearer token is signed over.

use vstd::prelude::*;

verus! {

/// Where the signing key of the worker comes from.
#[derive(Debug, Clone, PartialEq, Eq)]
pub enum WalletSource {
    /// An encrypted keystore file and the password that opens it.
    Keystore { path: String, password: String },
    /// A raw private key.
    PrivateKey(String),
}

/// Why the configuration names no signing key.
#[derive(Debug, Clone, Copy, PartialEq, Eq, Structural)]
pub enum CredentialsError {
    /// Both a keystore with its password and a private key are configured.
    Ambiguous,
    /// Neither a keystore with its password nor a private key is configured.
    Missing,
}

/// The source of the signing key under a configuration: the keystore when
/// its path and password are both given and no private key is, the private
/// key when it is given and the keystore is not given in full. Both or
/// neither is an error.
pub open spec fn spec_wallet_source(
    keystore: Option<String>,
    password: Option<String>,
    private_key: Option<String>,
) -> Result<WalletSource, CredentialsError> {
    match (keystore, password, private_key) {
        (Some(path), Some(password), None) => Ok(WalletSource::Keystore { path, password }),
        (Some(_), Some(_), Some(_)) => Err(CredentialsError::Ambiguous),
        (_, _, Some(key)) => Ok(WalletSource::PrivateKey(key)),
        (_, _, None) => Err(CredentialsError::Missing),
    }
}

/// Settles where the signing key comes from. Exactly one of the two sources
/// must be configured.
pub fn get_wallet(keystore: Option<String>, password: Option<String>, private_key: Option<String>)
    -> (r: Result<WalletSource, CredentialsError>)
    ensures
        r == spec_wallet_source(keystore, password, private_key),
{
    match (keystore, password, private_key) {
        (Some(path), Some(password), None) => Ok(WalletSource::Keystore { path, password }),
        (Some(_), Some(_), Some(_)) => Err(CredentialsError::Ambiguous),
        (_, _, Some(key)) => Ok(WalletSource::PrivateKey(key)),
        (_, _, None) => Err(CredentialsError::Missing),
    }
}

/// The claims that the bearer token of a worker is signed over.
#[derive(Debug, Clone, PartialEq, Eq)]
pub struct Claims {
    /// Who issued the token.
    pub issuer: String,
    /// Whom the token speaks for: the identity of the worker.
    pub subject: String,
    /// When the token was issued, in seconds since the epoch.
    pub issued_at: u64,
    /// The class of the worker.
    pub worker_class: String,
}

/// Builds the claims of a worker: the issuer, the worker's identity as the
/// subject, the current time as the time of issue, and the worker's class.
pub fn get_claims(issuer: String, worker_id: String, worker_class: String, now: u64) -> (r: Claims)
    ensures
        r == (Claims { issuer, subject: worker_id, issued_at: now, worker_class }),
{
    Claims { issuer, subject: worker_id, issued_at: now, worker_class }
}

} // verus!
