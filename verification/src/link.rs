use vstd::prelude::*;

verus! {

/// Wireless association and address-configuration status of the node. Only
/// the link manager writes it; the command server reads it to decide when to
/// begin accepting connections.
#[derive(Clone, Copy, Debug, PartialEq, Eq, Structural)]
pub enum LinkState {
    /// No association attempt has been started.
    Disconnected,
    /// Trying to associate with the configured network.
    Joining,
    /// Associated; waiting for an IP configuration (static or leased).
    Joined,
    /// Associated with an IP configuration: the network stack is ready.
    IpConfigured,
}

/// Outcome of one link-management action, reported by the runtime that owns
/// the wireless driver.
#[derive(Clone, Copy, Debug, PartialEq, Eq, Structural)]
pub enum LinkEvent {
    /// The manager started an association attempt.
    JoinStarted,
    /// The association attempt succeeded.
    JoinSucceeded,
    /// The association attempt failed.
    JoinFailed,
    /// Polling found an IP configuration present.
    IpAcquired,
    /// Polling found no IP configuration yet.
    IpPending,
}

/// The link state after one event. A failed join is retried from `Joining`
/// immediately and unconditionally — no backoff, no attempt limit, never
/// fatal. Once the IP configuration is present the state never regresses:
/// no event moves the manager out of `IpConfigured`.
pub open spec fn link_next(s: LinkState, e: LinkEvent) -> LinkState {
    match s {
        LinkState::Disconnected => match e {
            LinkEvent::JoinStarted => LinkState::Joining,
            _ => LinkState::Disconnected,
        },
        LinkState::Joining => match e {
            LinkEvent::JoinSucceeded => LinkState::Joined,
            _ => LinkState::Joining,
        },
        LinkState::Joined => match e {
            LinkEvent::IpAcquired => LinkState::IpConfigured,
            _ => LinkState::Joined,
        },
        LinkState::IpConfigured => LinkState::IpConfigured,
    }
}

/// The link state after a whole sequence of events, first event first.
pub open spec fn link_run(s: LinkState, events: Seq<LinkEvent>) -> LinkState
    decreases events.len(),
{
    if events.len() == 0 {
        s
    } else {
        link_run(link_next(s, events[0]), events.drop_first())
    }
}

/// Take one step of the link state machine.
pub fn link_step(state: LinkState, event: LinkEvent) -> (r: LinkState)
    ensures
        r == link_next(state, event),
{
    match state {
        LinkState::Disconnected => match event {
            LinkEvent::JoinStarted => LinkState::Joining,
            _ => LinkState::Disconnected,
        },
        LinkState::Joining => match event {
            LinkEvent::JoinSucceeded => LinkState::Joined,
            _ => LinkState::Joining,
        },
        LinkState::Joined => match event {
            LinkEvent::IpAcquired => LinkState::IpConfigured,
            _ => LinkState::Joined,
        },
        LinkState::IpConfigured => LinkState::IpConfigured,
    }
}

/// Whether the network stack is ready for the command server to begin
/// accepting: true in `IpConfigured` and in no other state.
pub fn ready_for_commands(state: LinkState) -> (r: bool)
    ensures
        r == (state is IpConfigured),
{
    match state {
        LinkState::IpConfigured => true,
        _ => false,
    }
}

/// Retries are unconditional and unbounded: however many join failures occur
/// in a row, the manager is still trying to join — failure is never fatal
/// and never abandons the link.
pub proof fn lemma_retry_unbounded(failures: Seq<LinkEvent>)
    requires
        forall|i: int| 0 <= i < failures.len() ==> failures[i] == LinkEvent::JoinFailed,
    ensures
        link_run(LinkState::Joining, failures) == LinkState::Joining,
    decreases failures.len(),
{
    if failures.len() > 0 {
        lemma_retry_unbounded(failures.drop_first());
    }
}

/// Accepting connections waits for the link: no event sequence makes the
/// stack ready without a successful join followed by an acquired IP
/// configuration — the server cannot start accepting before both. As an
/// invariant on every run: if the run never sees `JoinSucceeded` or never
/// sees `IpAcquired`, the stack is not ready.
pub proof fn lemma_ready_needs_join_and_ip(s: LinkState, events: Seq<LinkEvent>)
    requires
        s !is IpConfigured,
        s !is Joined ==> !events.contains(LinkEvent::JoinSucceeded),
        !events.contains(LinkEvent::IpAcquired),
    ensures
        link_run(s, events) !is IpConfigured,
    decreases events.len(),
{
    if events.len() > 0 {
        assert(events.contains(events[0]));
        assert forall|e: LinkEvent| events.drop_first().contains(e) implies events.contains(
            e,
        ) by {
            let i = choose|i: int|
                0 <= i < events.drop_first().len() && events.drop_first()[i] == e;
            assert(events[i + 1] == e);
        }
        lemma_ready_needs_join_and_ip(link_next(s, events[0]), events.drop_first());
    }
}

} // verus!
