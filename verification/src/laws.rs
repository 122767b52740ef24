use vstd::prelude::*;

use crate::state::{ConnectOutcome, ConnectionState, Event};
use crate::types::{ConnectionConfigView, NetworkerStatus};

verus! {

/// No event in `events` hands in credentials.
pub open spec fn no_set_connection(events: Seq<Event>) -> bool {
    forall|i: int| 0 <= i < events.len() ==> !(#[trigger] events[i] is SetConnection)
}

/// `event` reports that reading or writing on the session failed.
pub open spec fn is_session_failure(event: Event) -> bool {
    ||| event matches Event::ExchangeFinished { delivered } && !delivered
    ||| event matches Event::PingFinished { alive } && !alive
}

/// The status is `NoConfig` exactly while no credentials are at hand.
pub proof fn lemma_no_config_means_no_credentials(state: ConnectionState)
    ensures
        state.status() == NetworkerStatus::NoConfig <==> state.credentials() is None,
{
}

/// Credentials, once at hand, are never lost: whatever happens, some are
/// at hand afterwards.
pub proof fn lemma_credentials_are_kept(state: ConnectionState, events: Seq<Event>)
    requires
        state.credentials() is Some,
    ensures
        state.run(events).credentials() is Some,
    decreases events.len(),
{
    if events.len() > 0 {
        lemma_credentials_are_kept(state, events.drop_last());
    }
}

/// A machine that is in `NoConfig` after `events` started there, and no
/// credentials were handed in on the way.
pub proof fn lemma_no_config_only_before_first_set_connection(
    start: ConnectionState,
    events: Seq<Event>,
)
    requires
        start.run(events).status() == NetworkerStatus::NoConfig,
    ensures
        start.status() == NetworkerStatus::NoConfig,
        no_set_connection(events),
    decreases events.len(),
{
    if events.len() > 0 {
        let before = start.run(events.drop_last());
        assert(before.step(events.last()).status() == NetworkerStatus::NoConfig);
        assert(before.status() == NetworkerStatus::NoConfig);
        assert(!(events.last() is SetConnection));
        lemma_no_config_only_before_first_set_connection(start, events.drop_last());
        assert forall|i: int| 0 <= i < events.len() implies !(#[trigger] events[i]
            is SetConnection) by {
            if i < events.len() - 1 {
                assert(events.drop_last()[i] == events[i]);
            }
        }
    }
}

/// After credentials were handed in, the machine is never again in
/// `NoConfig`, whatever follows.
pub proof fn lemma_never_no_config_after_set_connection(
    start: ConnectionState,
    credentials: ConnectionConfigView,
    later: Seq<Event>,
)
    ensures
        start.step(Event::SetConnection { credentials }).run(later).status()
            != NetworkerStatus::NoConfig,
{
    let set = start.step(Event::SetConnection { credentials });
    lemma_credentials_are_kept(set, later);
}

/// The machine stays in `InvalidCredentials` until credentials are handed
/// in.
pub proof fn lemma_suppression_lasts(state: ConnectionState, events: Seq<Event>)
    requires
        state is InvalidCredentials,
        no_set_connection(events),
    ensures
        state.run(events) == state,
    decreases events.len(),
{
    if events.len() > 0 {
        assert forall|i: int| 0 <= i < events.drop_last().len() implies !(
        #[trigger] events.drop_last()[i] is SetConnection) by {
            assert(events.drop_last()[i] == events[i]);
        }
        lemma_suppression_lasts(state, events.drop_last());
        assert(!(events[events.len() - 1] is SetConnection));
    }
}

/// A rejected connection attempt leads to `InvalidCredentials`, which is
/// published; and from then on, as long as no credentials are handed in,
/// no event starts a connection attempt, ticks included.
pub proof fn lemma_rejection_suppresses_reconnection(
    attempting: ConnectionState,
    later: Seq<Event>,
    i: int,
)
    requires
        attempting is Disconnected,
        no_set_connection(later),
        0 <= i < later.len(),
    ensures
        ({
            let rejection = Event::ConnectFinished { outcome: ConnectOutcome::Rejected };
            let rejected = attempting.step(rejection);
            &&& rejected.status() == NetworkerStatus::InvalidCredentials
            &&& attempting.announced(rejection) == Some(NetworkerStatus::InvalidCredentials)
            &&& rejected.run(later.take(i)).status() == NetworkerStatus::InvalidCredentials
            &&& !rejected.run(later.take(i)).attempts_connection(later[i])
            &&& !rejected.run(later.take(i)).uses_session(later[i])
        }),
{
    let rejection = Event::ConnectFinished { outcome: ConnectOutcome::Rejected };
    let rejected = attempting.step(rejection);
    assert forall|k: int| 0 <= k < later.take(i).len() implies !(#[trigger] later.take(i)[k]
        is SetConnection) by {
        assert(later.take(i)[k] == later[k]);
    }
    lemma_suppression_lasts(rejected, later.take(i));
}

/// New credentials lift a suppression: whatever the state was, the next
/// tick publishes `Disconnected` and starts a connection attempt.
pub proof fn lemma_set_connection_resumes_reconnection(
    state: ConnectionState,
    credentials: ConnectionConfigView,
)
    ensures
        ({
            let set = state.step(Event::SetConnection { credentials });
            &&& set.status() == NetworkerStatus::Disconnected
            &&& set.credentials() == Some(credentials)
            &&& set.attempts_connection(Event::Tick)
            &&& set.announced(Event::Tick) == Some(NetworkerStatus::Disconnected)
        }),
{
}

/// Without a session nothing goes over the wire: no event makes the
/// machine use one, and a request leaves the state as it is.
pub proof fn lemma_no_session_no_traffic(state: ConnectionState, event: Event)
    requires
        !(state is Connected),
    ensures
        !state.uses_session(event),
        event is Request ==> state.step(event) == state && state.announced(event) is None,
{
}

/// A failure on a live session is published once, as `Disconnected`, and
/// ends the session with the credentials kept. Whatever failure is
/// reported next finds no session, changes nothing and publishes nothing.
pub proof fn lemma_session_failure_is_announced_once(
    state: ConnectionState,
    failure: Event,
    next: Event,
)
    requires
        state is Connected,
        is_session_failure(failure),
        is_session_failure(next),
    ensures
        state.announced(failure) == Some(NetworkerStatus::Disconnected),
        state.step(failure).status() == NetworkerStatus::Disconnected,
        state.step(failure).credentials() == state.credentials(),
        state.step(failure).announced(next) is None,
        state.step(failure).step(next) == state.step(failure),
{
}

/// A failure on a live session does not suppress reconnection: the next
/// tick starts an attempt.
pub proof fn lemma_session_failure_allows_reconnection(state: ConnectionState, failure: Event)
    requires
        state is Connected,
        is_session_failure(failure),
    ensures
        state.step(failure).attempts_connection(Event::Tick),
{
}

/// What is published is the status that holds after the event.
pub proof fn lemma_announcement_is_current_status(state: ConnectionState, event: Event)
    requires
        state.announced(event) is Some,
    ensures
        state.announced(event) == Some(state.step(event).status()),
{
}

/// Every change of status is published by the event that makes it, but
/// for the one that new credentials make: that one is published by the
/// tick that follows.
pub proof fn lemma_status_changes_are_published(state: ConnectionState, event: Event)
    requires
        state.step(event).status() != state.status(),
    ensures
        event is SetConnection || state.announced(event) == Some(state.step(event).status()),
        event is SetConnection ==> state.step(event).announced(Event::Tick) == Some(
            state.step(event).status(),
        ),
{
}

/// A session comes up only through an accepted connection attempt in
/// `Disconnected`, so never while reconnection is suppressed and never
/// beside a session that is already up.
pub proof fn lemma_session_only_from_accepted_attempt(state: ConnectionState, event: Event)
    requires
        !(state is Connected),
        state.step(event) is Connected,
    ensures
        state is Disconnected,
        event == (Event::ConnectFinished { outcome: ConnectOutcome::Established }),
        state.step(event).credentials() == state.credentials(),
{
}

} // verus!
