//! The failures of the connection lifecycle and of the balance query.

use vstd::prelude::*;

use ethers::providers::ProviderError;
use url::ParseError;

verus! {

/// Every failure a lifecycle or balance operation can report.
///
/// `AlreadyConnected`, `NotConnected` and `HandleUnavailable` mark misuse
/// of the lifecycle contract; `ConnectionSetupError` and `RemoteQueryError`
/// carry the originating transport error unmodified for diagnostics.
#[derive(Debug)]
pub enum ConnectionError {
    /// `connect` was called while the connection was already established.
    AlreadyConnected,
    /// An operation that needs an established connection was called
    /// while disconnected.
    NotConnected,
    /// The transport handle could not be built from the endpoint text.
    ConnectionSetupError(ParseError),
    /// The state claimed a connection but no handle was present.
    HandleUnavailable,
    /// The remote balance call itself failed.
    RemoteQueryError(ProviderError),
}

} // verus!
