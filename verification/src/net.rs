//! Trusted boundary to the HTTP client of the `ureq` crate.
//!
//! Only small remote text documents are fetched through this module; large
//! payload downloads are performed outside the library, which then hands the
//! library the facts it needs (sizes, leading bytes) as plain values.
//! Nothing is promised about what the network returns.

use vstd::prelude::*;

verus! {

/// Declaration of the opaque HTTP agent type.
#[verifier::external_type_specification]
#[verifier::external_body]
pub struct ExAgent(ureq::Agent);

/// Relies on ureq::Agent::config_builder / ConfigBuilder::timeout_global /
/// Config::into (Agent): an agent whose requests all time out after the
/// given number of seconds.
#[verifier::external_body]
pub fn http_agent(timeout_secs: u64) -> (r: ureq::Agent) {
    let config = ureq::Agent::config_builder()
        .timeout_global(Some(std::time::Duration::from_secs(timeout_secs)))
        .build();
    config.into()
}

/// Relies on ureq::Agent::get / RequestBuilder::call /
/// Body::read_to_string: performs one GET request and reads the response
/// body as text; the error is rendered to text.
#[verifier::external_body]
pub fn http_get_string(agent: &ureq::Agent, url: &str) -> (r: Result<String, String>) {
    match agent.get(url).call() {
        Ok(mut resp) => resp.body_mut().read_to_string().map_err(|e| e.to_string()),
        Err(e) => Err(e.to_string()),
    }
}

} // verus!
