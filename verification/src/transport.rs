//! The transport factory: selecting a profile from the environment value
//! and building an HTTP client under it. In development the client accepts
//! any server certificate and routes HTTPS traffic through a fixed local
//! debugging proxy; in production it uses the platform defaults.

use vstd::prelude::*;

use crate::models::CustomError;
use crate::text::str_eq;

verus! {

#[verifier::external_type_specification]
#[verifier::external_body]
pub struct ExClient(reqwest::blocking::Client);

#[verifier::external_type_specification]
#[verifier::external_body]
pub struct ExReqwestError(reqwest::Error);

/// The transport profile a client is built under.
#[derive(Debug, Clone, Copy, PartialEq, Eq, Structural)]
pub enum Profile {
    Development,
    Production,
}

/// The fixed local debugging proxy of the development profile.
pub fn dev_proxy_url() -> (r: &'static str)
    ensures
        r@ == "http://localhost:9090"@,
{
    "http://localhost:9090"
}

/// The profile selected by the environment value: development exactly when
/// the value is present and equals `development`; production otherwise.
pub fn profile_for(env_value: &Option<String>) -> (p: Profile)
    ensures
        p == Profile::Development <==> (env_value matches Some(v) && v@ == "development"@),
        p == Profile::Development || p == Profile::Production,
{
    match env_value {
        Some(v) => {
            if str_eq(v.as_str(), "development") {
                Profile::Development
            } else {
                Profile::Production
            }
        },
        None => Profile::Production,
    }
}

/// Relies on reqwest's blocking `ClientBuilder::build`: builds a client
/// with the platform's default trust store and no explicit proxy.
#[verifier::external_body]
fn build_default_client() -> Result<reqwest::blocking::Client, reqwest::Error> {
    reqwest::blocking::Client::builder().build()
}

/// Relies on reqwest's blocking `ClientBuilder`: builds a client that
/// accepts any server certificate (`danger_accept_invalid_certs`) and
/// routes HTTPS traffic through the given proxy (`Proxy::https`).
#[verifier::external_body]
fn build_insecure_proxied_client(proxy_url: &str) -> Result<
    reqwest::blocking::Client,
    reqwest::Error,
> {
    let proxy = reqwest::Proxy::https(proxy_url)?;
    reqwest::blocking::Client::builder().danger_accept_invalid_certs(true).proxy(proxy).build()
}

/// Relies on `reqwest::Error`'s `Display` implementation: a human-readable
/// description of the underlying cause.
#[verifier::external_body]
fn error_text(e: &reqwest::Error) -> String {
    format!("{}", e)
}

/// Builds a fresh client under the given profile. A construction failure
/// is reported as a transport error carrying the cause's description.
pub fn build_client(profile: &Profile) -> (r: Result<reqwest::blocking::Client, CustomError>)
    ensures
        (r matches Err(e) ==> e matches CustomError::Transport(_)),
{
    let attempt = match profile {
        Profile::Development => build_insecure_proxied_client(dev_proxy_url()),
        Profile::Production => build_default_client(),
    };
    match attempt {
        Ok(c) => Ok(c),
        Err(e) => Err(CustomError::Transport(error_text(&e))),
    }
}

} // verus!
