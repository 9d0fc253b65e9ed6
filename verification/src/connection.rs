//! The connection lifecycle manager: a strict two-state machine around a
//! single transport handle, and the balance query it guards.

use vstd::prelude::*;

use ethers::providers::{Http, Provider, ProviderError};
use ethers::types::U256;

use crate::errors::ConnectionError;
use crate::lifecycle::{step, LifecycleEvent};
use crate::transport;

verus! {

/// Polling interval, in milliseconds, configured on a fresh handle.
pub const POLL_INTERVAL_MS: u64 = 10;

/// The lifecycle state of the manager. Exactly one value at any time;
/// a fresh manager starts disconnected.
#[derive(Clone, Copy, Debug, PartialEq, Eq, Structural)]
pub enum ConnectionState {
    Disconnected,
    Connected,
}

/// The lifecycle manager. It exclusively owns the transport handle: the
/// handle is present exactly while the state is `Connected`, and callers
/// reach it only through `query_handle`, read-only and guarded by state.
pub struct EthConnection {
    eth_endpoint: String,
    state: ConnectionState,
    provider: Option<Provider<Http>>,
}

impl EthConnection {
    /// The endpoint text this manager was constructed with.
    pub closed spec fn endpoint(&self) -> Seq<char> {
        self.eth_endpoint@
    }

    /// The current lifecycle state.
    pub closed spec fn state(&self) -> ConnectionState {
        self.state
    }

    /// The transport handle currently held, if any.
    pub closed spec fn stored_handle(&self) -> Option<Provider<Http>> {
        self.provider
    }

    /// Whether a transport handle is currently held.
    pub open spec fn has_handle(&self) -> bool {
        self.stored_handle() is Some
    }

    /// The manager's invariant: a handle is held exactly while connected.
    /// Construction establishes it and every operation preserves it.
    pub open spec fn wf(&self) -> bool {
        self.state() is Connected <==> self.has_handle()
    }

    /// Builds a manager for the given endpoint: disconnected, no handle.
    pub fn new(eth_endpoint: String) -> (r: EthConnection)
        ensures
            r.endpoint() == eth_endpoint@,
            r.state() is Disconnected,
            !r.has_handle(),
            r.wf(),
    {
        EthConnection { eth_endpoint, state: ConnectionState::Disconnected, provider: None }
    }

    /// Whether the manager is currently connected.
    pub fn is_connected(&self) -> (r: bool)
        ensures
            r == (self.state() is Connected),
    {
        self.state == ConnectionState::Connected
    }

    /// Establishes the connection: builds a handle for the stored endpoint
    /// and moves to `Connected`.
    ///
    /// While already connected it fails with `AlreadyConnected`, changing
    /// nothing — the original handle is untouched. From disconnected it
    /// succeeds exactly when the transport accepts the endpoint text;
    /// otherwise it fails with `ConnectionSetupError` carrying the
    /// transport's own error and changes nothing: the manager stays
    /// disconnected and retains no handle.
    pub fn connect(&mut self) -> (r: Result<(), ConnectionError>)
        ensures
            final(self).endpoint() == old(self).endpoint(),
            final(self).state() == step(
                old(self).state(),
                LifecycleEvent::Connect {
                    setup_ok: transport::endpoint_accepted(old(self).endpoint()),
                },
            ),
            old(self).state() is Connected ==> {
                &&& r matches Err(e) && e is AlreadyConnected
                &&& *final(self) == *old(self)
            },
            old(self).state() is Disconnected && transport::endpoint_accepted(
                old(self).endpoint(),
            ) ==> {
                &&& r is Ok
                &&& final(self).state() is Connected
                &&& final(self).has_handle()
            },
            old(self).state() is Disconnected && !transport::endpoint_accepted(
                old(self).endpoint(),
            ) ==> {
                &&& r matches Err(e) && e is ConnectionSetupError
                &&& *final(self) == *old(self)
            },
            old(self).wf() ==> final(self).wf(),
    {
        match self.state {
            ConnectionState::Disconnected => {
                match transport::provider_from_endpoint(self.eth_endpoint.as_str()) {
                    Ok(p) => {
                        self.provider = Some(transport::with_poll_interval(p, POLL_INTERVAL_MS));
                        self.state = ConnectionState::Connected;
                        Ok(())
                    },
                    Err(e) => Err(ConnectionError::ConnectionSetupError(e)),
                }
            },
            ConnectionState::Connected => Err(ConnectionError::AlreadyConnected),
        }
    }

    /// Releases the connection: drops the handle and moves to
    /// `Disconnected`.
    ///
    /// While disconnected — never connected, or already disconnected — it
    /// fails with `NotConnected` and changes nothing.
    pub fn disconnect(&mut self) -> (r: Result<(), ConnectionError>)
        ensures
            final(self).endpoint() == old(self).endpoint(),
            final(self).state() == step(old(self).state(), LifecycleEvent::Disconnect),
            old(self).state() is Connected ==> {
                &&& r is Ok
                &&& final(self).state() is Disconnected
                &&& !final(self).has_handle()
                &&& final(self).wf()
            },
            old(self).state() is Disconnected ==> {
                &&& r matches Err(e) && e is NotConnected
                &&& *final(self) == *old(self)
            },
            old(self).wf() ==> final(self).wf(),
    {
        match self.state {
            ConnectionState::Connected => {
                self.provider = None;
                self.state = ConnectionState::Disconnected;
                Ok(())
            },
            ConnectionState::Disconnected => Err(ConnectionError::NotConnected),
        }
    }

    /// Guards the balance query: hands out the handle to issue the
    /// remote call on, read-only, exactly when the lifecycle allows it.
    ///
    /// While disconnected it fails with `NotConnected`, before any handle —
    /// and hence any network traffic — is touched. The defensive case of a
    /// connected state with no handle reports `HandleUnavailable`; under
    /// the invariant `wf` it is unreachable, so a query is allowed exactly
    /// while connected.
    pub fn query_handle(&self) -> (r: Result<&Provider<Http>, ConnectionError>)
        ensures
            r is Ok <==> self.state() is Connected && self.has_handle(),
            r matches Ok(p) ==> self.stored_handle() == Some(*p),
            self.state() is Disconnected ==> (r matches Err(e) && e is NotConnected),
            self.state() is Connected && !self.has_handle() ==> (r matches Err(e) && e
                is HandleUnavailable),
            self.wf() ==> (r is Ok <==> self.state() is Connected),
    {
        match self.state {
            ConnectionState::Disconnected => Err(ConnectionError::NotConnected),
            ConnectionState::Connected => {
                match &self.provider {
                    Some(p) => Ok(p),
                    None => Err(ConnectionError::HandleUnavailable),
                }
            },
        }
    }

    /// Settles a balance query from the transport's outcome: a returned
    /// amount passes through unmodified, in the smallest unit; a transport
    /// failure is surfaced unmodified as `RemoteQueryError`. No retry, no
    /// state change.
    pub fn balance_of_outcome(outcome: Result<U256, ProviderError>) -> (r: Result<
        U256,
        ConnectionError,
    >)
        ensures
            outcome matches Ok(amount) ==> r matches Ok(b) && b == amount,
            outcome matches Err(e) ==> r matches Err(c) && (c matches
                ConnectionError::RemoteQueryError(cause) && cause == e),
    {
        match outcome {
            Ok(amount) => Ok(amount),
            Err(e) => Err(ConnectionError::RemoteQueryError(e)),
        }
    }
}

} // verus!
