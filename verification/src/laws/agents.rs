//! What the operations of the agent do, told by what goes in and what comes out.

use vstd::prelude::*;
use vstd::string::*;

use crate::agent::{
    AgentClient, BindAction, BindEvent, BindStage, Binding, Delivery, Forward, ForwardAction,
    ForwardEvent,
};
use crate::dial::{Dial, DialAction, DialEvent};
use crate::error::Error;
use crate::protocol::StreamKind;
use crate::session::{SessionAction, SessionEvent};
use crate::{dial, protocol};

verus! {

/// An agent is there if and only if the connection was made. It serves no label yet; where it is not
/// there, the reason is the one that was given.
pub proof fn an_agent_connects<T>(
    outcome: Result<(), String>,
    connected: Result<AgentClient<T>, Error>,
)
    requires
        call_ensures(AgentClient::<T>::connect, (outcome,), connected),
    ensures
        connected is Ok <==> outcome is Ok,
        connected matches Ok(a) ==> !a@.shut_down && forall|label: Seq<char>|
            !#[trigger] a@.bound.contains_key(label),
        outcome matches Err(reason) ==> (connected matches Err(Error::Protocol(t)) && t@ == reason@),
{
}

/// An agent serves every stream that its session brings, whatever has happened before. The end of
/// the session, and nothing else, ends its loop and shuts it down, and it stays so; its labels stay
/// bound.
pub proof fn an_agent_goes_on_until_its_session_ends<T>(
    agent: &mut AgentClient<T>,
    event: SessionEvent,
    action: SessionAction,
)
    requires
        call_ensures(AgentClient::<T>::on_session, (agent, event), action),
    ensures
        action == SessionAction::Serve <==> event == SessionEvent::Stream,
        action == SessionAction::Close <==> event == SessionEvent::Ended,
        final(agent)@.shut_down <==> old(agent)@.shut_down || event == SessionEvent::Ended,
        final(agent)@.bound == old(agent)@.bound,
{
}

/// A stream goes to the queue of the label that it names, if that label is bound and the agent is
/// not shut down; in all other cases it goes nowhere.
pub proof fn a_stream_goes_to_the_queue_of_its_label<T: Clone>(
    agent: &AgentClient<T>,
    frame: Result<StreamKind, Error>,
    delivery: Delivery<T>,
)
    requires
        call_ensures(AgentClient::<T>::accept_stream, (agent, frame), delivery),
    ensures
        frame matches Err(e) ==> delivery == Delivery::<T>::Refused(e),
        delivery is Refused ==> frame is Err,
        delivery is Deliver <==> !agent@.shut_down && (frame matches Ok(StreamKind::Data { label })
            && agent@.bound.contains_key(label@)),
        delivery matches Delivery::Deliver(queue) ==> (frame matches Ok(StreamKind::Data { label })
            && cloned(agent@.bound[label@], queue)),
{
}

/// A `bind` starts if and only if its label is valid and not bound. It has the label and the port
/// that it was given, and its queue gets the streams of the label; every other label is as before.
pub proof fn a_bind_starts_for_a_free_label<T>(
    agent: &mut AgentClient<T>,
    local_port: u16,
    label: &str,
    queue: T,
    valid: Result<(), Error>,
    started: Result<Binding, Error>,
)
    requires
        call_ensures(protocol::validate_label, (label,), valid),
        call_ensures(AgentClient::<T>::bind, (agent, local_port, label, queue), started),
    ensures
        started is Ok <==> valid is Ok && !old(agent)@.bound.contains_key(label@),
        started matches Ok(binding) ==> {
            &&& binding@.local_port == local_port
            &&& binding@.label == label@
            &&& binding@.stage == BindStage::Opening
            &&& final(agent)@.bound.contains_key(label@)
            &&& final(agent)@.bound[label@] == queue
            &&& final(agent)@.bound.remove(label@) == old(agent)@.bound
        },
        valid is Err ==> (valid matches Err(Error::Protocol(t)) && started matches Err(
            Error::Protocol(u),
        ) && u@ == t@),
        valid is Ok && old(agent)@.bound.contains_key(label@) ==> (started matches Err(
            Error::Protocol(t),
        ) && t@ == "label '"@ + label@ + "' already bound"@),
        started is Err ==> final(agent)@ == old(agent)@,
        final(agent)@.shut_down == old(agent)@.shut_down,
{
    if started is Ok {
        assert(final(agent)@.bound.remove(label@) =~= old(agent)@.bound);
    }
}

/// A stream that arrives while a `bind` waits is led to the port that the `bind` has, whichever port
/// that is, and no other event leads anywhere. A `bind` keeps its port and its label.
pub proof fn a_bind_connects_to_its_own_port<T>(
    binding: &mut Binding,
    agent: &mut AgentClient<T>,
    event: BindEvent,
    action: BindAction,
)
    requires
        call_ensures(Binding::step::<T>, (binding, agent, event), action),
    ensures
        old(binding)@.stage == BindStage::Waiting && event is Stream ==> action
            == BindAction::Connect(old(binding)@.local_port),
        action is Connect ==> old(binding)@.stage == BindStage::Waiting && event is Stream,
        final(binding)@.local_port == old(binding)@.local_port,
        final(binding)@.label == old(binding)@.label,
{
}

/// From its start to its end a `bind` leads streams to the port that it was started with: whatever
/// steps lie between, on whatever events, a stream that arrives while it waits is led there.
pub proof fn a_bind_leads_to_the_port_it_was_started_with<T>(
    starting: &mut AgentClient<T>,
    local_port: u16,
    label: &str,
    queue: T,
    started: Result<Binding, Error>,
    steps: Seq<&mut Binding>,
    owners: Seq<&mut AgentClient<T>>,
    events: Seq<BindEvent>,
    done: Seq<BindAction>,
    binding: &mut Binding,
    agent: &mut AgentClient<T>,
    action: BindAction,
)
    requires
        call_ensures(AgentClient::<T>::bind, (starting, local_port, label, queue), started),
        started is Ok,
        forall|i: int|
            #![trigger steps[i]]
            0 <= i < steps.len() ==> call_ensures(
                Binding::step::<T>,
                (steps[i], owners[i], events[i]),
                done[i],
            ),
        forall|i: int|
            #![trigger steps[i]]
            0 < i < steps.len() ==> steps[i]@ == final(steps[i - 1])@,
        steps.len() > 0 ==> steps[0]@ == started->Ok_0@,
        steps.len() > 0 ==> old(binding)@ == final(steps.last())@,
        steps.len() == 0 ==> old(binding)@ == started->Ok_0@,
        old(binding)@.stage == BindStage::Waiting,
        call_ensures(Binding::step::<T>, (binding, agent, BindEvent::Stream), action),
    ensures
        action == BindAction::Connect(local_port),
{
    if steps.len() > 0 {
        steps_keep_the_port::<T>(steps, owners, events, done, steps.len() - 1);
    }
}

/// The steps of a `bind` keep its port.
proof fn steps_keep_the_port<T>(
    steps: Seq<&mut Binding>,
    owners: Seq<&mut AgentClient<T>>,
    events: Seq<BindEvent>,
    done: Seq<BindAction>,
    k: int,
)
    requires
        0 <= k < steps.len(),
        forall|i: int|
            #![trigger steps[i]]
            0 <= i < steps.len() ==> call_ensures(
                Binding::step::<T>,
                (steps[i], owners[i], events[i]),
                done[i],
            ),
        forall|i: int|
            #![trigger steps[i]]
            0 < i < steps.len() ==> steps[i]@ == final(steps[i - 1])@,
    ensures
        final(steps[k])@.local_port == steps[0]@.local_port,
    decreases k,
{
    assert(final(steps[k])@.local_port == steps[k]@.local_port);
    if k > 0 {
        steps_keep_the_port::<T>(steps, owners, events, done, k - 1);
    }
}

/// A `bind` registers its label with the very frame that is written for a registration of that
/// label, when its stream is open and never otherwise.
pub proof fn a_bind_registers_its_label<T>(
    binding: &mut Binding,
    agent: &mut AgentClient<T>,
    event: BindEvent,
    action: BindAction,
    label: String,
    written: Result<Vec<u8>, Error>,
)
    requires
        call_ensures(Binding::step::<T>, (binding, agent, event), action),
        label@ == old(binding)@.label,
        call_ensures(protocol::write_frame, (&StreamKind::Register { label },), written),
        written is Ok,
    ensures
        action is Register <==> old(binding)@.stage == BindStage::Opening && event is Opened,
        action matches BindAction::Register(bytes) ==> bytes@ == written->Ok_0@,
{
}

/// When a `bind` waits, bridges and returns. It waits once its registration is written, and again
/// when its local service cannot be reached; it bridges when the service is connected; and it
/// returns without an error when no more streams will arrive or the agent is shut down.
pub proof fn a_bind_waits_bridges_and_returns<T>(
    binding: &mut Binding,
    agent: &mut AgentClient<T>,
    event: BindEvent,
    action: BindAction,
)
    requires
        call_ensures(Binding::step::<T>, (binding, agent, event), action),
    ensures
        action is Wait <==> old(binding)@.stage == BindStage::Registering && event is Written || old(
            binding,
        )@.stage == BindStage::Connecting && event is ConnectFailed,
        action is Bridge <==> old(binding)@.stage == BindStage::Connecting && event is Connected,
        action == BindAction::Return(Ok(())) <==> old(binding)@.stage == BindStage::Waiting && (
        event is QueueClosed || event is ShutDown),
{
}

/// When a `bind` returns an error, and which: the reason why its stream could not be opened, the
/// error with which its registration could not be written, or, once it has registered, that its
/// label is bound already, where the broker sends back the byte 1.
pub proof fn a_bind_fails_for_a_reason<T>(
    binding: &mut Binding,
    agent: &mut AgentClient<T>,
    event: BindEvent,
    action: BindAction,
)
    requires
        call_ensures(Binding::step::<T>, (binding, agent, event), action),
    ensures
        ({
            let stage = old(binding)@.stage;
            let refused = event == BindEvent::Notice(1) && (stage == BindStage::Registering || stage
                == BindStage::Waiting || stage == BindStage::Connecting);
            &&& (action matches BindAction::Return(Err(_))) <==> refused || stage
                == BindStage::Opening && event is OpenFailed || stage == BindStage::Registering
                && event is WriteFailed
            &&& refused ==> (action matches BindAction::Return(Err(Error::Protocol(t))) && t@
                == "label '"@ + old(binding)@.label + "' already bound"@)
            &&& stage == BindStage::Opening ==> (event matches BindEvent::OpenFailed(reason) ==> (
            action matches BindAction::Return(Err(Error::Protocol(t))) && t@ == reason@))
            &&& stage == BindStage::Registering ==> (event matches BindEvent::WriteFailed(e)
                ==> action == BindAction::Return(Err(e)))
        }),
{
}

/// What a `bind` does tells how far it has come: it registers, waits, connects or has returned, and
/// what it ignores changes nothing.
pub proof fn a_bind_moves_on_with_its_action<T>(
    binding: &mut Binding,
    agent: &mut AgentClient<T>,
    event: BindEvent,
    action: BindAction,
)
    requires
        call_ensures(Binding::step::<T>, (binding, agent, event), action),
    ensures
        final(binding)@.stage == (match action {
            BindAction::Register(_) => BindStage::Registering,
            BindAction::Wait => BindStage::Waiting,
            BindAction::Bridge => BindStage::Waiting,
            BindAction::Connect(_) => BindStage::Connecting,
            BindAction::Return(_) => BindStage::Finished,
            BindAction::Ignore => old(binding)@.stage,
        }),
{
}

/// A `bind` that returns gives up its label, unless its stream could not be opened, and no other
/// label; one that goes on gives up nothing.
pub proof fn a_bind_gives_up_its_label_when_it_returns<T>(
    binding: &mut Binding,
    agent: &mut AgentClient<T>,
    event: BindEvent,
    action: BindAction,
)
    requires
        call_ensures(Binding::step::<T>, (binding, agent, event), action),
    ensures
        action is Return && !(event is OpenFailed) ==> !final(agent)@.bound.contains_key(
            old(binding)@.label,
        ) && final(agent)@.bound == old(agent)@.bound.remove(old(binding)@.label),
        !(action is Return) || event is OpenFailed ==> final(agent)@.bound == old(agent)@.bound,
        final(agent)@.shut_down == old(agent)@.shut_down,
{
}

/// A `forward` starts if and only if its label is valid. Every connection gets a stream that starts
/// with the very frame that is written for a connection to that label, and to no other; the
/// `forward` returns when the agent is shut down or its port fails, and never otherwise.
pub proof fn a_forward_dials_its_label<T>(
    agent: &AgentClient<T>,
    label: &str,
    valid: Result<(), Error>,
    started: Result<Forward, Error>,
    forward: &Forward,
    event: ForwardEvent,
    action: ForwardAction,
    name: String,
    written: Result<Vec<u8>, Error>,
)
    requires
        call_ensures(protocol::validate_label, (label,), valid),
        call_ensures(AgentClient::<T>::forward, (agent, label), started),
        started matches Ok(f) ==> f == *forward,
        call_ensures(Forward::step, (forward, event), action),
        name@ == label@,
        call_ensures(protocol::write_frame, (&StreamKind::Data { label: name },), written),
    ensures
        started is Ok <==> valid is Ok,
        valid is Err ==> (valid matches Err(Error::Protocol(t)) && started matches Err(
            Error::Protocol(u),
        ) && u@ == t@),
        started is Ok ==> written is Ok,
        action is Serve <==> event is Connection,
        started is Ok ==> (action matches ForwardAction::Serve(dial) ==> (
        dial matches Dial::Opening { frame } && frame@ == written->Ok_0@)),
        event matches ForwardEvent::Failed(e) ==> action == ForwardAction::Return(Err(e)),
        event is ShutDown ==> action == ForwardAction::Return(Ok(())),
{
    if started is Ok {
        protocol::valid_labels_have_frames(protocol::KindView::Data { label: label@ });
    }
}

/// A stream that is dialled writes its frame, unchanged, when it is open, is bridged when the frame
/// is written, and is closed on everything else and ever after.
pub proof fn a_dial_writes_its_frame_and_bridges(
    frame: Vec<u8>,
    fresh: Dial,
    dial: &mut Dial,
    event: DialEvent,
    action: DialAction,
)
    requires
        call_ensures(Dial::new, (frame,), fresh),
        call_ensures(Dial::step, (dial, event), action),
    ensures
        fresh matches Dial::Opening { frame: kept } && kept@ == frame@,
        action is Write <==> *old(dial) is Opening && event == DialEvent::Opened,
        action matches DialAction::Write(bytes) ==> (*old(dial) matches Dial::Opening { frame: kept }
            && bytes@ == kept@),
        action is Bridge <==> *old(dial) is Writing && event == DialEvent::Written,
        action is Write <==> *final(dial) is Writing,
        action is Bridge <==> *final(dial) is Bridging,
        action is Close <==> *final(dial) is Finished,
{
}

/// A stream that was opened is handed on as it is, and the reason why it was not becomes the error.
pub proof fn an_opened_stream_is_handed_on<S>(
    outcome: Result<S, String>,
    opened: Result<S, Error>,
)
    requires
        call_ensures(dial::opened_stream::<S>, (outcome,), opened),
    ensures
        outcome matches Ok(stream) ==> opened == Ok::<S, Error>(stream),
        outcome matches Err(reason) ==> (opened matches Err(Error::Protocol(t)) && t@ == reason@),
{
}

} // verus!
