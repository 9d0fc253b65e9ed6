//! The trusted boundary to the RPC transport: declarations of the handle
//! and error types of `ethers`, and the two calls that build a handle.

use vstd::prelude::*;

use ethers::providers::{Http, Provider, ProviderError};
use ethers::types::U256;
use std::time::Duration;
use url::ParseError;

verus! {

#[verifier::external_type_specification]
#[verifier::external_body]
#[verifier::reject_recursive_types(P)]
pub struct ExProvider<P>(Provider<P>);

#[verifier::external_type_specification]
#[verifier::external_body]
pub struct ExHttp(Http);

#[verifier::external_type_specification]
#[verifier::external_body]
pub struct ExProviderError(ProviderError);

#[verifier::external_type_specification]
#[verifier::external_body]
pub struct ExU256(U256);

#[verifier::external_type_specification]
#[verifier::external_body]
pub struct ExParseError(ParseError);

/// Whether building a transport handle from this endpoint text succeeds.
/// `Provider::<Http>::try_from` accepts or rejects the text by URL parsing
/// alone, so the outcome is a function of the characters.
pub uninterp spec fn endpoint_accepted(endpoint: Seq<char>) -> bool;

/// Relies on `TryFrom<&str> for Provider<Http>`: it parses the endpoint
/// text as a URL and wraps it in a fresh handle, returning the parse
/// error when the text is not a URL. It performs no network traffic.
#[verifier::external_body]
pub(crate) fn provider_from_endpoint(endpoint: &str) -> (r: Result<Provider<Http>, ParseError>)
    ensures
        r is Ok <==> endpoint_accepted(endpoint@),
{
    Provider::try_from(endpoint)
}

/// Relies on `Provider::interval`: it records the given polling interval
/// on the handle and returns that same handle.
#[verifier::external_body]
pub(crate) fn with_poll_interval(provider: Provider<Http>, millis: u64) -> Provider<Http> {
    provider.interval(Duration::from_millis(millis))
}

} // verus!
