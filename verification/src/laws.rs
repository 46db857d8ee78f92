//! What holds of the tunnel as a whole.

pub mod agents;
pub mod brokers;
pub mod frames;
pub mod sessions;
pub mod texts;

use vstd::prelude::*;

use crate::agent::{AgentView, BindAction, BindEvent, BindStage, BindingView};
use crate::broker::BrokerView;
use crate::protocol::KindView;
use crate::session::{SessionAction, SessionEvent, SessionView};
use crate::{agent, protocol, session};

verus! {

/// What changes a broker.
pub enum BrokerEvent<C> {
    /// A frame was read on a stream of a session.
    Frame { control: C, session: u64, kind: KindView },
    /// A stream on which a session registered a label has come to its end.
    Released { label: Seq<char>, session: u64 },
    /// A session has ended.
    SessionEnded(u64),
    /// The broker was shut down.
    ShutDown,
}

/// The broker after an event.
pub open spec fn broker_after<C>(broker: BrokerView<C>, event: BrokerEvent<C>) -> BrokerView<C> {
    match event {
        BrokerEvent::Frame { control, session, kind } => broker.after_frame(control, session, kind),
        BrokerEvent::Released { label, session } => broker.after_release(label, session),
        BrokerEvent::SessionEnded(session) => broker.after_session(session),
        BrokerEvent::ShutDown => broker.after_shutdown(),
    }
}

/// A new broker after a history of events.
pub open spec fn broker_of<C>(history: Seq<BrokerEvent<C>>) -> BrokerView<C>
    decreases history.len(),
{
    if history.len() == 0 {
        BrokerView::fresh()
    } else {
        broker_after(broker_of(history.drop_last()), history.last())
    }
}

/// Whether the event asks to register the label for the session.
pub open spec fn registers<C>(
    event: BrokerEvent<C>,
    label: Seq<char>,
    control: C,
    session: u64,
) -> bool {
    event == (BrokerEvent::Frame { control, session, kind: KindView::Register { label } })
}

/// How many streams are open on which the session holds the label. Each registration that the
/// session makes while the label is free for it opens one, and each release closes one; the end of
/// the session and a shutdown close all.
pub open spec fn open_streams<C>(
    history: Seq<BrokerEvent<C>>,
    label: Seq<char>,
    session: u64,
) -> nat
    decreases history.len(),
{
    if history.len() == 0 {
        0
    } else {
        let before = history.drop_last();
        let open = open_streams(before, label, session);
        match history.last() {
            BrokerEvent::Frame { session: sender, kind, .. } => if sender == session && kind == (
            KindView::Register { label }) && broker_of(before).is_free_for(label, session) {
                open + 1
            } else {
                open
            },
            BrokerEvent::Released { label: released, session: owner } => if released == label
                && owner == session && open > 0 {
                (open - 1) as nat
            } else {
                open
            },
            BrokerEvent::SessionEnded(ended) => if ended == session {
                0
            } else {
                open
            },
            BrokerEvent::ShutDown => 0,
        }
    }
}

/// Whether the event is a registration of the label by the session, with whatever control.
pub open spec fn registers_again<C>(
    event: BrokerEvent<C>,
    label: Seq<char>,
    session: u64,
) -> bool {
    event matches BrokerEvent::Frame { session: sender, kind, .. } && sender == session && kind == (
    KindView::Register { label })
}

/// Whether event `i` is the last that registered the label for the session, at a time when the label
/// was free for it, and a stream on which the session holds the label is still open.
pub open spec fn serves_since<C>(
    history: Seq<BrokerEvent<C>>,
    i: int,
    label: Seq<char>,
    control: C,
    session: u64,
) -> bool {
    &&& 0 <= i < history.len()
    &&& registers(history[i], label, control, session)
    &&& broker_of(history.take(i)).is_free_for(label, session)
    &&& forall|j: int|
        i < j < history.len() ==> !registers_again(#[trigger] history[j], label, session)
    &&& open_streams(history, label, session) > 0
}

/// A broker counts the open streams of the session that holds a label, and no session holds a label
/// without an open stream. It can count as many as a machine can have.
proof fn open_streams_are_counted<C>(history: Seq<BrokerEvent<C>>, label: Seq<char>, session: u64)
    requires
        history.len() <= u64::MAX,
    ensures
        open_streams(history, label, session) <= history.len(),
        ({
            let broker = broker_of(history);
            if broker.table.contains_key(label) && broker.table[label].session == session {
                broker.streams(label) == open_streams(history, label, session) && broker.streams(
                    label,
                ) > 0
            } else {
                open_streams(history, label, session) == 0
            }
        }),
    decreases history.len(),
{
    if history.len() > 0 {
        open_streams_are_counted(history.drop_last(), label, session);
    }
}

/// A broker leads the streams of a label to the agent that registered the label while no other agent
/// served it, until the last stream of that registration or that agent's session has come to its end
/// or the broker was shut down; in all other cases it leads them nowhere. In particular a label that
/// nobody has registered leads nowhere, a label has at most one agent, what other agents try to
/// register changes nothing, the end of a session takes away its own labels and no others, and any
/// number of forwards changes nothing.
pub proof fn the_agent_that_holds_a_label_serves<C>(
    history: Seq<BrokerEvent<C>>,
    label: Seq<char>,
    control: C,
    session: u64,
)
    requires
        history.len() <= u64::MAX,
    ensures
        broker_of(history).route(label) == Some((control, session)) <==> exists|i: int|
            serves_since(history, i, label, control, session),
    decreases history.len(),
{
    open_streams_are_counted(history, label, session);
    if history.len() > 0 {
        let before = history.drop_last();
        let last = history.last();
        let n = history.len() as int;
        the_agent_that_holds_a_label_serves(before, label, control, session);
        open_streams_are_counted(before, label, session);
        assert(history.take(n - 1) =~= before);
        if broker_of(history).route(label) == Some((control, session)) {
            if registers_again(last, label, session) {
                assert(registers(last, label, control, session));
                assert(serves_since(history, n - 1, label, control, session));
            } else {
                assert(broker_of(before).route(label) == Some((control, session)));
                let i = choose|i: int| serves_since(before, i, label, control, session);
                assert(history.take(i) =~= before.take(i));
                assert forall|j: int| i < j < n implies !registers_again(
                    #[trigger] history[j],
                    label,
                    session,
                ) by {
                    if j < n - 1 {
                        assert(history[j] == before[j]);
                    }
                }
                assert(serves_since(history, i, label, control, session));
            }
        }
        if exists|i: int| serves_since(history, i, label, control, session) {
            let i = choose|i: int| serves_since(history, i, label, control, session);
            if i < n - 1 {
                assert(!registers_again(history[n - 1], label, session));
                assert(history.take(i) =~= before.take(i));
                assert forall|j: int| i < j < before.len() implies !registers_again(
                    #[trigger] before[j],
                    label,
                    session,
                ) by {
                    assert(history[j] == before[j]);
                }
                assert(open_streams(before, label, session) > 0);
                assert(serves_since(before, i, label, control, session));
            }
        }
    }
}

/// One bind per label per broker: while an agent serves a label, the registration of another agent
/// changes nothing, and the label leads where it led.
pub proof fn a_held_label_is_not_taken<C>(
    broker: BrokerView<C>,
    label: Seq<char>,
    holder: C,
    owner: u64,
    control: C,
    session: u64,
)
    requires
        broker.route(label) == Some((holder, owner)),
        owner != session,
    ensures
        broker.after_frame(control, session, KindView::Register { label }) == broker,
        broker.after_frame(control, session, KindView::Register { label }).route(label) == Some(
            (holder, owner),
        ),
{
}

/// A duplicate `bind` returns an error: a `bind` that has registered and gets the notice that the
/// broker sends for a label that another agent serves returns the error for a label that is bound,
/// gives up the label, and stays so.
pub proof fn a_refused_bind_returns_an_error(binding: BindingView, action: BindAction)
    requires
        binding.stage != BindStage::Opening,
        binding.stage != BindStage::Finished,
        binding.answers(BindEvent::Notice(protocol::REGISTRATION_REFUSED), action),
    ensures
        action matches BindAction::Return(Err(e)) && e.is_protocol(
            agent::already_bound_text(binding.label),
        ),
        binding.unbinds(BindEvent::Notice(protocol::REGISTRATION_REFUSED)),
        binding.next_stage(BindEvent::Notice(protocol::REGISTRATION_REFUSED))
            == BindStage::Finished,
{
}

/// Registering a label leaves the other labels as they are.
pub proof fn labels_are_independent<C>(
    broker: BrokerView<C>,
    control: C,
    session: u64,
    label: Seq<char>,
    other: Seq<char>,
)
    requires
        label != other,
    ensures
        broker.after_frame(control, session, KindView::Register { label }).route(other)
            == broker.route(other),
{
}

/// Any number of forward agents share a label: their frames leave the broker as it is.
pub proof fn forwards_change_nothing<C>(
    broker: BrokerView<C>,
    control: C,
    session: u64,
    label: Seq<char>,
)
    ensures
        broker.after_frame(control, session, KindView::Data { label }) == broker,
{
}

/// Once a session has ended, no label leads to it, and every label that led elsewhere leads there
/// still.
pub proof fn an_ended_session_leaves_nothing_behind<C>(
    broker: BrokerView<C>,
    session: u64,
    label: Seq<char>,
)
    ensures
        match broker.route(label) {
            Some((control, owner)) => broker.after_session(session).route(label) == (if owner
                == session {
                None
            } else {
                Some((control, owner))
            }),
            None => broker.after_session(session).route(label) is None,
        },
{
}

/// The end of a stream that registered a label takes the label from its session where it was the
/// last such stream, and changes nothing else.
pub proof fn a_label_goes_with_its_last_stream<C>(
    broker: BrokerView<C>,
    label: Seq<char>,
    session: u64,
    other: Seq<char>,
)
    ensures
        match broker.route(label) {
            Some((control, owner)) => broker.after_release(label, session).route(label) == (if owner
                == session && broker.streams(label) <= 1 {
                None
            } else {
                Some((control, owner))
            }),
            None => broker.after_release(label, session).route(label) is None,
        },
        other != label ==> broker.after_release(label, session).route(other) == broker.route(other),
{
}

/// A registration that a session renews outlives the end of the stream that it came on first, and
/// goes with the stream that renewed it.
pub proof fn a_renewed_label_outlives_its_first_stream<C>(
    broker: BrokerView<C>,
    label: Seq<char>,
    first: C,
    second: C,
    session: u64,
)
    requires
        broker.route(label) is None,
    ensures
        ({
            let register = KindView::Register { label };
            let renewed = broker.after_frame(first, session, register).after_frame(
                second,
                session,
                register,
            );
            &&& renewed.route(label) == Some((second, session))
            &&& renewed.after_release(label, session).route(label) == Some((second, session))
            &&& renewed.after_release(label, session).after_release(label, session).route(
                label,
            ) is None
        }),
{
}

/// A label whose agent is gone can be registered anew at once, whether the agent's session has ended
/// or only the last stream of its registration; and what is left of the old session does not take it
/// away again.
pub proof fn a_label_can_be_registered_anew<C>(
    broker: BrokerView<C>,
    label: Seq<char>,
    old_session: u64,
    control: C,
    session: u64,
)
    requires
        session != old_session,
        broker.is_free_for(label, old_session),
    ensures
        ({
            let register = KindView::Register { label };
            let ended = broker.after_session(old_session).after_frame(control, session, register);
            let released = broker.after_release(label, old_session).after_frame(
                control,
                session,
                register,
            );
            &&& ended.route(label) == Some((control, session))
            &&& ended.after_release(label, old_session).route(label) == Some((control, session))
            &&& broker.streams(label) <= 1 ==> released.route(label) == Some((control, session))
                && released.after_session(old_session).route(label) == Some((control, session))
        }),
{
}

/// The number of shutdowns, as a broker counts it, after `n` more of them.
pub open spec fn shut_down_times<C>(broker: BrokerView<C>, n: nat) -> BrokerView<C>
    decreases n,
{
    if n == 0 {
        broker
    } else {
        shut_down_times(broker, (n - 1) as nat).after_shutdown()
    }
}

/// How the count of shutdowns grows.
proof fn shutdowns_count<C>(broker: BrokerView<C>, n: nat)
    ensures
        shut_down_times(broker, n).generation == session::nth_id(broker.generation, n),
    decreases n,
{
    if n > 0 {
        shutdowns_count(broker, (n - 1) as nat);
    }
}

/// After a shutdown no label leads anywhere, and every session that was running leaves its loop at
/// the next thing that it is told, whatever that is. Only fewer than 2^64 shutdowns are counted
/// apart.
pub proof fn a_shutdown_ends_the_sessions<C>(
    broker: BrokerView<C>,
    n: nat,
    label: Seq<char>,
    running: SessionView,
    event: SessionEvent,
)
    requires
        1 <= n < 0x1_0000_0000_0000_0000,
        running.generation == broker.generation,
    ensures
        shut_down_times(broker, n).route(label) is None,
        running.action(shut_down_times(broker, n).generation, event) == SessionAction::Close,
{
    shutdowns_count(broker, n);
    session::ids_are_distinct(broker.generation, 0, n);
}

/// A label that is bound cannot be bound again by the same agent; once it is given up, it can, and
/// the agent is as it was before.
pub proof fn a_label_is_bound_once<T>(agent: AgentView<T>, label: Seq<char>, queue: T)
    requires
        agent.bind_fault(label) is None,
    ensures
        agent.after_bind(label, queue).bind_fault(label) == Some(agent::already_bound_text(label)),
        agent.after_bind(label, queue).after_unbind(label) == agent,
{
    assert(agent.after_bind(label, queue).after_unbind(label) =~= agent);
}

/// One agent serves any number of labels: binding or giving up one leaves the others alone.
pub proof fn an_agent_serves_many_labels<T>(
    agent: AgentView<T>,
    label: Seq<char>,
    queue: T,
    other: Seq<char>,
)
    requires
        label != other,
    ensures
        agent.after_bind(label, queue).destination(KindView::Data { label: other })
            == agent.destination(KindView::Data { label: other }),
        agent.after_bind(label, queue).bind_fault(other) == agent.bind_fault(other),
        agent.after_unbind(label).destination(KindView::Data { label: other })
            == agent.destination(KindView::Data { label: other }),
        agent.after_unbind(label).bind_fault(other) == agent.bind_fault(other),
{
}

/// What changes an agent.
pub enum AgentEvent<T> {
    /// A `bind` was asked for.
    Bind { label: Seq<char>, queue: T },
    /// A `bind` gave up its label.
    GivenUp(Seq<char>),
    /// The session with the broker has ended.
    Ended,
}

/// The agent after an event.
pub open spec fn agent_after<T>(agent: AgentView<T>, event: AgentEvent<T>) -> AgentView<T> {
    match event {
        AgentEvent::Bind { label, queue } => if agent.bind_fault(label) is None {
            agent.after_bind(label, queue)
        } else {
            agent
        },
        AgentEvent::GivenUp(label) => agent.after_unbind(label),
        AgentEvent::Ended => AgentView { shut_down: true, ..agent },
    }
}

/// An agent that has connected, after a history of events.
pub open spec fn agent_of<T>(history: Seq<AgentEvent<T>>) -> AgentView<T>
    decreases history.len(),
{
    if history.len() == 0 {
        AgentView::fresh()
    } else {
        agent_after(agent_of(history.drop_last()), history.last())
    }
}

/// Whether event `i` bound the label to the queue, and the label was not given up since.
pub open spec fn bound_since<T>(
    history: Seq<AgentEvent<T>>,
    i: int,
    label: Seq<char>,
    queue: T,
) -> bool {
    &&& 0 <= i < history.len()
    &&& history[i] == (AgentEvent::Bind { label, queue })
    &&& agent_of(history.take(i)).bind_fault(label) is None
    &&& forall|j: int|
        i < j < history.len() ==> #[trigger] history[j] != AgentEvent::<T>::GivenUp(label)
}

/// An agent gives the streams of a label to the `bind` that was the first to ask for the label and
/// has not given it up, as long as the session with the broker lasts, and to no other.
pub proof fn the_bind_that_holds_a_label_gets_its_streams<T>(
    history: Seq<AgentEvent<T>>,
    label: Seq<char>,
    queue: T,
)
    ensures
        agent_of(history).shut_down <==> history.contains(AgentEvent::<T>::Ended),
        agent_of(history).bound.contains_key(label) && agent_of(history).bound[label] == queue
            <==> exists|i: int| bound_since(history, i, label, queue),
        agent_of(history).destination(KindView::Data { label }) == Some(queue)
            <==> !history.contains(AgentEvent::<T>::Ended) && exists|i: int|
            bound_since(history, i, label, queue),
    decreases history.len(),
{
    if history.len() > 0 {
        let before = history.drop_last();
        let last = history.last();
        let n = history.len() as int;
        the_bind_that_holds_a_label_gets_its_streams(before, label, queue);
        assert(history.take(n - 1) =~= before);
        if before.contains(AgentEvent::<T>::Ended) {
            let k = choose|k: int| 0 <= k < before.len() && before[k] == AgentEvent::<T>::Ended;
            assert(history[k] == AgentEvent::<T>::Ended);
        }
        if history.contains(AgentEvent::<T>::Ended) && last != AgentEvent::<T>::Ended {
            let k = choose|k: int| 0 <= k < n && history[k] == AgentEvent::<T>::Ended;
            assert(before[k] == AgentEvent::<T>::Ended);
        }
        assert(last == AgentEvent::<T>::Ended ==> history[n - 1] == AgentEvent::<T>::Ended);
        if agent_of(history).bound.contains_key(label) && agent_of(history).bound[label] == queue {
            if agent_of(before).bound.contains_key(label) {
                let i = choose|i: int| bound_since(before, i, label, queue);
                assert(history.take(i) =~= before.take(i));
                assert forall|j: int| i < j < n implies #[trigger] history[j] != AgentEvent::<
                    T,
                >::GivenUp(label) by {
                    if j < n - 1 {
                        assert(history[j] == before[j]);
                    }
                }
                assert(bound_since(history, i, label, queue));
            } else {
                assert(bound_since(history, n - 1, label, queue));
            }
        }
        if exists|i: int| bound_since(history, i, label, queue) {
            let i = choose|i: int| bound_since(history, i, label, queue);
            if i < n - 1 {
                assert(history.take(i) =~= before.take(i));
                assert(history[n - 1] != AgentEvent::<T>::GivenUp(label));
                assert forall|j: int| i < j < before.len() implies #[trigger] before[j]
                    != AgentEvent::<T>::GivenUp(label) by {
                    assert(history[j] == before[j]);
                }
                assert(bound_since(before, i, label, queue));
            }
        }
    }
}

/// An agent that is shut down takes no stream.
pub proof fn a_shut_down_agent_takes_nothing<T>(agent: AgentView<T>, kind: KindView)
    requires
        agent.shut_down,
    ensures
        agent.destination(kind) is None,
{
}

/// A `bind` that serves goes on, whether its local service can be reached or not, until the agent
/// is shut down, its queue is closed or the broker refuses it; and once it has returned it stays so.
pub proof fn a_bind_outlives_its_service(binding: BindingView, event: BindEvent)
    ensures
        binding.stage == BindStage::Waiting || binding.stage == BindStage::Connecting ==> (
        binding.next_stage(event) == BindStage::Finished <==> event == BindEvent::Notice(
            protocol::REGISTRATION_REFUSED,
        ) || binding.stage
            == BindStage::Waiting && (event is QueueClosed || event is ShutDown)),
        binding.stage == BindStage::Connecting && event is ConnectFailed ==> binding.next_stage(
            event,
        ) == BindStage::Waiting,
        binding.stage == BindStage::Finished ==> binding.next_stage(event) == BindStage::Finished,
{
}

/// A `bind` registers at most once: the registration is what answers the opening of its stream, and
/// once that has been answered no event brings the opening back.
pub proof fn a_bind_registers_once(binding: BindingView, event: BindEvent, action: BindAction)
    requires
        binding.answers(event, action),
    ensures
        action is Register <==> binding.stage == BindStage::Opening && event is Opened,
        action is Register ==> binding.next_stage(event) != BindStage::Opening,
        binding.stage != BindStage::Opening ==> binding.next_stage(event) != BindStage::Opening,
{
}

/// The tunnel: a connection that a forward agent leads to a label comes to the `bind` of that label.
///
/// An agent has bound the label and not given it up, and its session lasts. The frame of that `bind`
/// was read by the broker while the label was free, and a stream of that registration is still open.
/// Then the frame that a forward agent writes is read by the broker as it was meant; the broker
/// leads it to the agent's session and writes the same frame there; and the agent reads it as it was
/// meant and gives it to the queue of that `bind`. This holds whatever else has happened to the
/// broker and to the agent, whatever the connection sends behind the frame, and of every label whose
/// frame a reader accepts.
pub proof fn the_tunnel_leads_to_the_bind<C, T>(
    at_broker: Seq<BrokerEvent<C>>,
    registered: int,
    at_agent: Seq<AgentEvent<T>>,
    bound: int,
    label: Seq<char>,
    control: C,
    session: u64,
    queue: T,
    connection: Seq<u8>,
)
    requires
        protocol::payload_bytes(KindView::Register { label }).len() <= protocol::MAX_FRAME_SIZE,
        bound_since(at_agent, bound, label, queue),
        !at_agent.contains(AgentEvent::<T>::Ended),
        at_broker.len() <= u64::MAX,
        serves_since(at_broker, registered, label, control, session),
    ensures
        protocol::progress(protocol::frame_bytes(KindView::Register { label }))
            == protocol::Progress::Kind(KindView::Register { label }),
        protocol::progress(protocol::frame_bytes(KindView::Data { label }) + connection)
            == protocol::Progress::Kind(KindView::Data { label }),
        broker_of(at_broker).route(label) == Some((control, session)),
        agent_of(at_agent).destination(KindView::Data { label }) == Some(queue),
{
    let register = KindView::Register { label };
    let data = KindView::Data { label };
    protocol::frame_reads_back(register, Seq::empty());
    assert(protocol::frame_bytes(register) + Seq::<u8>::empty() =~= protocol::frame_bytes(
        register,
    ));
    assert(protocol::payload_bytes(data).len() == protocol::payload_bytes(register).len());
    protocol::frame_reads_back(data, connection);
    the_agent_that_holds_a_label_serves(at_broker, label, control, session);
    the_bind_that_holds_a_label_gets_its_streams(at_agent, label, queue);
}

} // verus!
