//! A mathematical model of the connection lifecycle: the two calls that
//! set the state, the state reached by a sequence of them, and the law
//! that a balance query is enabled exactly after an unrevoked connect.

use vstd::prelude::*;

use crate::connection::ConnectionState;

verus! {

/// One lifecycle call, as the state machine sees it. A connect attempt
/// carries the outcome the transport construction would have on the
/// manager's endpoint; a disconnect attempt carries nothing.
pub enum LifecycleEvent {
    Connect { setup_ok: bool },
    Disconnect,
}

/// The state after one lifecycle call in state `s`.
///
/// A connect attempt while connected fails with `AlreadyConnected` and
/// leaves the state alone; from disconnected it connects exactly when the
/// transport construction succeeds. A disconnect attempt always ends
/// disconnected: it either releases the handle or fails with
/// `NotConnected` while already disconnected.
pub open spec fn step(s: ConnectionState, e: LifecycleEvent) -> ConnectionState {
    match e {
        LifecycleEvent::Connect { setup_ok } => {
            if s is Connected {
                ConnectionState::Connected
            } else if setup_ok {
                ConnectionState::Connected
            } else {
                ConnectionState::Disconnected
            }
        },
        LifecycleEvent::Disconnect => ConnectionState::Disconnected,
    }
}

/// The state a freshly constructed manager reaches after a sequence of
/// lifecycle calls.
pub open spec fn state_after(events: Seq<LifecycleEvent>) -> ConnectionState
    decreases events.len(),
{
    if events.len() == 0 {
        ConnectionState::Disconnected
    } else {
        step(state_after(events.drop_last()), events.last())
    }
}

/// Position `i` holds a successful connect that no later call revoked.
pub open spec fn connect_not_revoked(events: Seq<LifecycleEvent>, i: int) -> bool {
    &&& 0 <= i < events.len()
    &&& events[i] matches LifecycleEvent::Connect { setup_ok } && setup_ok
    &&& forall|j: int| i < j < events.len() ==> !(events[j] is Disconnect)
}

/// After any sequence of connect and disconnect calls, the manager is
/// connected — so a balance query succeeds, by the contract of
/// `EthConnection::query_handle` — exactly when some call in the sequence
/// was a successful connect and no disconnect follows it.
pub proof fn lemma_query_enabled_iff_connect_not_revoked(events: Seq<LifecycleEvent>)
    ensures
        state_after(events) is Connected <==> exists|i: int| connect_not_revoked(events, i),
    decreases events.len(),
{
    if events.len() == 0 {
        assert(forall|i: int| !connect_not_revoked(events, i));
    } else {
        let prefix = events.drop_last();
        let last = events.last();
        lemma_query_enabled_iff_connect_not_revoked(prefix);
        assert(prefix.len() == events.len() - 1);
        match last {
            LifecycleEvent::Disconnect => {
                assert(state_after(events) is Disconnected);
                assert(forall|i: int| !connect_not_revoked(events, i)) by {
                    assert forall|i: int| !connect_not_revoked(events, i) by {
                        if connect_not_revoked(events, i) {
                            if i < events.len() - 1 {
                                assert(events[events.len() - 1] is Disconnect);
                            } else {
                                assert(events[i] is Disconnect);
                            }
                        }
                    }
                }
            },
            LifecycleEvent::Connect { setup_ok } => {
                if state_after(prefix) is Connected {
                    assert(state_after(events) is Connected);
                    let i = choose|i: int| connect_not_revoked(prefix, i);
                    assert(events[i] == prefix[i]);
                    assert(connect_not_revoked(events, i)) by {
                        assert forall|j: int| i < j < events.len() implies !(events[j]
                            is Disconnect) by {
                            if j < events.len() - 1 {
                                assert(events[j] == prefix[j]);
                            }
                        }
                    }
                } else if setup_ok {
                    assert(state_after(events) is Connected);
                    assert(connect_not_revoked(events, events.len() - 1));
                } else {
                    assert(state_after(events) is Disconnected);
                    assert(forall|i: int| !connect_not_revoked(events, i)) by {
                        assert forall|i: int| !connect_not_revoked(events, i) by {
                            if connect_not_revoked(events, i) {
                                if i == events.len() - 1 {
                                    assert(!(events[i] matches LifecycleEvent::Connect {
                                        setup_ok: ok } && ok));
                                } else {
                                    assert(prefix[i] == events[i]);
                                    assert forall|j: int| i < j < prefix.len() implies !(prefix[j]
                                        is Disconnect) by {
                                        assert(prefix[j] == events[j]);
                                    }
                                    assert(connect_not_revoked(prefix, i));
                                }
                            }
                        }
                    }
                }
            },
        }
    }
}

} // verus!
