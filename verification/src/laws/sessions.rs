//! What the operations on sessions do, told by what goes in and what comes out.

use vstd::prelude::*;

use crate::broker::Broker;
use crate::session;
use crate::session::{AgentSession, SessionAction, SessionEvent, SessionIds};

verus! {

/// Numbers start with one and follow each other; behind the largest comes zero.
pub proof fn numbers_follow_each_other(
    first: SessionIds,
    ids: &mut SessionIds,
    id: u64,
    later: &mut SessionIds,
    next: u64,
)
    requires
        call_ensures(SessionIds::new, (), first),
        call_ensures(SessionIds::take, (ids,), id),
        call_ensures(SessionIds::take, (later,), next),
        old(later)@ == final(ids)@,
    ensures
        old(ids)@ == first@ ==> id == 1,
        id < u64::MAX ==> next == id + 1,
        id == u64::MAX ==> next == 0,
{
}

/// A session begins open, without failures, under the number and the generation it is given.
pub proof fn a_session_begins_open(id: u64, generation: u64, session: AgentSession, told: u64)
    requires
        call_ensures(AgentSession::new, (id, generation), session),
        call_ensures(AgentSession::id, (&session,), told),
    ensures
        session@.open,
        session@.errors == 0,
        session@.generation == generation,
        told == id,
{
}

/// A broker gives each session the next number, and the count of its shutdowns so far.
pub proof fn a_broker_numbers_its_sessions<C>(
    broker: &Broker<C>,
    ids: &mut SessionIds,
    session: AgentSession,
    told: u64,
    taken: u64,
    generation: u64,
)
    requires
        call_ensures(Broker::<C>::run, (broker, ids), session),
        call_ensures(AgentSession::id, (&session,), told),
        call_ensures(SessionIds::take, (ids,), taken),
        call_ensures(Broker::<C>::generation, (broker,), generation),
    ensures
        told == taken,
        session@.open,
        session@.errors == 0,
        session@.generation == generation,
        final(ids)@ == if taken < u64::MAX {
            taken + 1
        } else {
            0
        },
{
}

/// Every stream of a session that is open, at a broker that was not shut down since the session
/// began, is served, whatever the number of the session and however often it has failed before; and
/// nothing but a stream is.
pub proof fn every_stream_is_served(
    session: &mut AgentSession,
    generation: u64,
    event: SessionEvent,
    action: SessionAction,
)
    requires
        call_ensures(AgentSession::step, (session, generation, event), action),
    ensures
        action == SessionAction::Serve <==> event == SessionEvent::Stream && old(session)@.open
            && old(session)@.generation == generation,
        action == SessionAction::Serve ==> final(session)@.open && final(session)@.errors == 0,
{
}

/// A session leaves its loop for four reasons and no other: it has left it before, the broker was
/// shut down, it has ended, or it fails and has failed nine times since its last stream.
pub proof fn a_session_closes_for_a_reason(
    session: &mut AgentSession,
    generation: u64,
    event: SessionEvent,
    action: SessionAction,
)
    requires
        call_ensures(AgentSession::step, (session, generation, event), action),
    ensures
        action == SessionAction::Close <==> !final(session)@.open,
        action == SessionAction::Close <==> !old(session)@.open || old(session)@.generation
            != generation || event == SessionEvent::Ended || (event == SessionEvent::Failed && old(
            session,
        )@.errors >= 9),
{
}

/// A session keeps its number and its generation. While it is open, a failure adds one to the
/// failures, a stream forgets them, and nothing else changes them.
pub proof fn a_session_counts_its_failures(
    session: &mut AgentSession,
    generation: u64,
    event: SessionEvent,
    action: SessionAction,
)
    requires
        call_ensures(AgentSession::step, (session, generation, event), action),
    ensures
        final(session)@.id == old(session)@.id,
        final(session)@.generation == old(session)@.generation,
        final(session)@.open && event == SessionEvent::Stream ==> final(session)@.errors == 0,
        final(session)@.open && event == SessionEvent::Failed ==> final(session)@.errors == old(
            session,
        )@.errors + 1,
        final(session)@.open && event == SessionEvent::Woken ==> final(session)@.errors == old(
            session,
        )@.errors,
{
}

/// The states of a session along a run of events.
proof fn a_run_is_followed(
    session: AgentSession,
    generation: u64,
    steps: Seq<&mut AgentSession>,
    events: Seq<SessionEvent>,
    actions: Seq<SessionAction>,
    k: int,
)
    requires
        0 <= k < steps.len(),
        events.len() == steps.len(),
        steps[0]@ == session@,
        forall|i: int|
            #![trigger steps[i]]
            0 <= i < steps.len() ==> call_ensures(
                AgentSession::step,
                (steps[i], generation, events[i]),
                actions[i],
            ),
        forall|i: int|
            #![trigger steps[i]]
            0 < i < steps.len() ==> steps[i]@ == final(steps[i - 1])@,
    ensures
        steps[k]@ == session@.after(generation, events.take(k)),
    decreases k,
{
    if k > 0 {
        a_run_is_followed(session, generation, steps, events, actions, k - 1);
        assert(events.take(k).drop_last() =~= events.take(k - 1));
        assert(events.take(k).last() == events[k - 1]);
        assert(final(steps[k - 1])@ == steps[k - 1]@.next(generation, events[k - 1]));
    }
}

/// A session at a broker that is not shut down serves every stream, the first, the last and each
/// between, until it has ended or ten failures have come without a stream in between.
pub proof fn a_session_serves_until_it_ends_or_keeps_failing<C>(
    broker: &Broker<C>,
    ids: &mut SessionIds,
    session: AgentSession,
    steps: Seq<&mut AgentSession>,
    events: Seq<SessionEvent>,
    actions: Seq<SessionAction>,
    k: int,
)
    requires
        call_ensures(Broker::<C>::run, (broker, ids), session),
        0 <= k < steps.len(),
        events.len() == steps.len(),
        steps[0]@ == session@,
        forall|i: int|
            #![trigger steps[i]]
            0 <= i < steps.len() ==> call_ensures(
                AgentSession::step,
                (steps[i], broker@.generation, events[i]),
                actions[i],
            ),
        forall|i: int|
            #![trigger steps[i]]
            0 < i < steps.len() ==> steps[i]@ == final(steps[i - 1])@,
    ensures
        actions[k] == SessionAction::Serve <==> events[k] == SessionEvent::Stream && !events.take(
            k,
        ).contains(SessionEvent::Ended) && forall|j: int|
            0 <= j <= k ==> session::failures_in_a_row(#[trigger] events.take(j)) < 10,
{
    let generation = broker@.generation;
    let before = events.take(k);
    a_run_is_followed(session, generation, steps, events, actions, k);
    session::a_session_lasts_until_it_ends_or_keeps_failing(session@.id, generation, before);
    every_stream_is_served(steps[k], generation, events[k], actions[k]);
    assert forall|j: int| 0 <= j <= k implies #[trigger] events.take(j) == before.take(j) by {
        assert(events.take(j) =~= before.take(j));
    }
    if forall|j: int| 0 <= j <= k ==> session::failures_in_a_row(#[trigger] events.take(j)) < 10 {
        assert forall|j: int| 0 <= j <= before.len() implies session::failures_in_a_row(
            #[trigger] before.take(j),
        ) < 10 by {
            assert(events.take(j) == before.take(j));
        }
    }
    if forall|j: int|
        0 <= j <= before.len() ==> session::failures_in_a_row(#[trigger] before.take(j)) < 10 {
        assert forall|j: int| 0 <= j <= k implies session::failures_in_a_row(
            #[trigger] events.take(j),
        ) < 10 by {
            assert(events.take(j) == before.take(j));
        }
    }
}

} // verus!
