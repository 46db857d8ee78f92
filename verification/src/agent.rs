//! The agent: which labels it serves, what becomes of the streams that the broker opens to it, and
//! how its `bind` and `forward` go about their work.

use vstd::prelude::*;
use vstd::string::*;

use crate::dial::Dial;
use crate::error::Error;
use crate::labels::LabelTable;
use crate::protocol::{validate_label, write_frame, StreamKind, REGISTRATION_REFUSED};
use crate::session::{SessionAction, SessionEvent};
use crate::{dial, protocol, text};

verus! {

/// So many streams may wait for the local service of one label.
pub const STREAM_QUEUE: usize = 64;

/// A connected agent. `T` is what hands a stream to the `bind` that serves a label.
pub struct AgentClient<T> {
    bound: LabelTable<T>,
    shut_down: bool,
}

/// The message for a label that has a `bind` already.
pub open spec fn already_bound_text(label: Seq<char>) -> Seq<char> {
    "label '"@ + label + "' already bound"@
}

/// The error for a label that has a `bind` already.
fn already_bound(label: &str) -> (error: Error)
    ensures
        error.is_protocol(already_bound_text(label@)),
{
    Error::Protocol(text::join3("label '", label, "' already bound"))
}

/// What an agent knows.
#[verifier::ext_equal]
pub struct AgentView<T> {
    /// For each label that is bound, where its streams go.
    pub bound: Map<Seq<char>, T>,
    /// Whether the connection to the broker has ended.
    pub shut_down: bool,
}

impl<T> View for AgentClient<T> {
    type V = AgentView<T>;

    closed spec fn view(&self) -> AgentView<T> {
        AgentView { bound: self.bound@, shut_down: self.shut_down }
    }
}

impl<T> AgentView<T> {
    /// An agent that has just connected.
    pub open spec fn fresh() -> AgentView<T> {
        AgentView { bound: Map::empty(), shut_down: false }
    }

    /// Where a stream of the given kind goes.
    pub open spec fn destination(self, kind: protocol::KindView) -> Option<T> {
        match kind {
            protocol::KindView::Data { label } => if !self.shut_down && self.bound.contains_key(
                label,
            ) {
                Some(self.bound[label])
            } else {
                None
            },
            protocol::KindView::Register { .. } => None,
        }
    }

    /// Why a label cannot be bound, if it cannot.
    pub open spec fn bind_fault(self, label: Seq<char>) -> Option<Seq<char>> {
        match protocol::label_fault(label) {
            Some(fault) => Some(fault),
            None => if self.bound.contains_key(label) {
                Some(already_bound_text(label))
            } else {
                None
            },
        }
    }

    /// The agent with one more label bound.
    pub open spec fn after_bind(self, label: Seq<char>, queue: T) -> AgentView<T> {
        AgentView { bound: self.bound.insert(label, queue), ..self }
    }

    /// The agent with a label no longer bound.
    pub open spec fn after_unbind(self, label: Seq<char>) -> AgentView<T> {
        AgentView { bound: self.bound.remove(label), ..self }
    }
}

/// What becomes of a stream that the broker has opened, once its frame is read.
pub enum Delivery<T> {
    /// There was no frame; the stream is dropped.
    Refused(Error),
    /// The stream goes to the `bind` behind the queue.
    Deliver(T),
    /// Nobody waits for the stream; it is dropped.
    Ignored,
}

impl<T> AgentClient<T> {
    /// An agent, if the connection to the broker was made; else the reason why not.
    pub fn connect(outcome: Result<(), String>) -> (agent: Result<Self, Error>)
        ensures
            match outcome {
                Ok(_) => agent matches Ok(a) && a@ == AgentView::<T>::fresh(),
                Err(reason) => agent matches Err(e) && e.is_protocol(reason@),
            },
    {
        match outcome {
            Ok(_) => Ok(AgentClient { bound: LabelTable::new(), shut_down: false }),
            Err(reason) => Err(Error::Protocol(reason)),
        }
    }

    /// Takes note of what the session with the broker reports and says how its loop goes on.
    ///
    /// Failures are passed over. The end of the session shuts the agent down.
    pub fn on_session(&mut self, event: SessionEvent) -> (action: SessionAction)
        ensures
            final(self)@ == (AgentView {
                shut_down: old(self)@.shut_down || event == SessionEvent::Ended,
                ..old(self)@
            }),
            action == (match event {
                SessionEvent::Stream => SessionAction::Serve,
                SessionEvent::Ended => SessionAction::Close,
                _ => SessionAction::Continue,
            }),
    {
        match event {
            SessionEvent::Stream => SessionAction::Serve,
            SessionEvent::Failed => SessionAction::Continue,
            SessionEvent::Woken => SessionAction::Continue,
            SessionEvent::Ended => {
                self.shut_down = true;
                SessionAction::Close
            },
        }
    }

    /// Starts to serve a label with the service on a local port. Its streams go to the queue.
    ///
    /// The label has to be valid and not bound already.
    pub fn bind(&mut self, local_port: u16, label: &str, queue: T) -> (started: Result<
        Binding,
        Error,
    >)
        ensures
            match old(self)@.bind_fault(label@) {
                Some(fault) => started matches Err(e) && e.is_protocol(fault) && final(self)@ == old(
                    self,
                )@,
                None => started matches Ok(binding) && binding@ == (BindingView {
                    label: label@,
                    local_port,
                    stage: BindStage::Opening,
                }) && final(self)@ == old(self)@.after_bind(label@, queue),
            },
    {
        match validate_label(label) {
            Ok(_) => {},
            Err(e) => return Err(e),
        }
        if self.bound.get(label).is_some() {
            return Err(already_bound(label));
        }
        self.bound.insert(label.to_owned(), queue);
        Ok(Binding { label: label.to_owned(), local_port, stage: BindStage::Opening })
    }

    /// Starts to lead connections to a local port to the service behind a label.
    pub fn forward(&self, label: &str) -> (started: Result<Forward, Error>)
        ensures
            match protocol::label_fault(label@) {
                Some(fault) => started matches Err(e) && e.is_protocol(fault),
                None => started matches Ok(forward) && forward@ == label@,
            },
    {
        match validate_label(label) {
            Ok(_) => Ok(Forward { label: label.to_owned() }),
            Err(e) => Err(e),
        }
    }
}

impl<T: Clone> AgentClient<T> {
    /// Decides about a stream that the broker has opened, once its frame is read.
    pub fn accept_stream(&self, frame: Result<StreamKind, Error>) -> (delivery: Delivery<T>)
        ensures
            match frame {
                Err(e) => delivery == Delivery::<T>::Refused(e),
                Ok(kind) => match self@.destination(kind@) {
                    Some(queue) => delivery matches Delivery::Deliver(q) && cloned(queue, q),
                    None => delivery is Ignored,
                },
            },
    {
        match frame {
            Err(e) => Delivery::Refused(e),
            Ok(StreamKind::Register { .. }) => Delivery::Ignored,
            Ok(StreamKind::Data { label }) => {
                if self.shut_down {
                    return Delivery::Ignored;
                }
                match self.bound.get(label.as_str()) {
                    Some(queue) => Delivery::Deliver(queue.clone()),
                    None => Delivery::Ignored,
                }
            },
        }
    }
}

/// How far a `bind` has come.
#[derive(Debug, Clone, Copy, PartialEq, Eq)]
pub enum BindStage {
    /// The stream for the registration is being opened.
    Opening,
    /// The registration is being written.
    Registering,
    /// The next stream is awaited.
    Waiting,
    /// The local service is being connected to, for a stream.
    Connecting,
    /// The `bind` has returned.
    Finished,
}

/// A `bind` at work.
pub struct Binding {
    label: String,
    local_port: u16,
    stage: BindStage,
}

/// A `bind` with its label as a sequence of characters.
#[verifier::ext_equal]
pub struct BindingView {
    pub label: Seq<char>,
    pub local_port: u16,
    pub stage: BindStage,
}

/// What a `bind` is told.
pub enum BindEvent {
    /// The stream for the registration is open.
    Opened,
    /// It could not be opened, for this reason.
    OpenFailed(String),
    /// The registration is written.
    Written,
    /// It could not be written.
    WriteFailed(Error),
    /// A stream has arrived.
    Stream,
    /// No more streams will arrive.
    QueueClosed,
    /// The agent is shut down.
    ShutDown,
    /// The local service is connected.
    Connected,
    /// The local service cannot be reached.
    ConnectFailed,
    /// The broker has sent this back on the stream for the registration.
    Notice(u8),
}

/// What a `bind` does next.
pub enum BindAction {
    /// Write these bytes on the stream for the registration.
    Register(Vec<u8>),
    /// Wait for the next stream.
    Wait,
    /// Connect to this local port.
    Connect(u16),
    /// Bridge the stream with the local connection, and wait for the next stream.
    Bridge,
    /// Return.
    Return(Result<(), Error>),
    /// Do nothing: this was not the event awaited.
    Ignore,
}

impl View for Binding {
    type V = BindingView;

    closed spec fn view(&self) -> BindingView {
        BindingView { label: self.label@, local_port: self.local_port, stage: self.stage }
    }
}

impl BindingView {
    /// The stage after an event.
    pub open spec fn next_stage(self, event: BindEvent) -> BindStage {
        match (self.stage, event) {
            (BindStage::Opening, BindEvent::Opened) => BindStage::Registering,
            (BindStage::Opening, BindEvent::OpenFailed(_)) => BindStage::Finished,
            (BindStage::Registering, BindEvent::Written) => BindStage::Waiting,
            (BindStage::Registering, BindEvent::WriteFailed(_)) => BindStage::Finished,
            (BindStage::Waiting, BindEvent::Stream) => BindStage::Connecting,
            (BindStage::Waiting, BindEvent::QueueClosed) => BindStage::Finished,
            (BindStage::Waiting, BindEvent::ShutDown) => BindStage::Finished,
            (BindStage::Connecting, BindEvent::Connected) => BindStage::Waiting,
            (BindStage::Connecting, BindEvent::ConnectFailed) => BindStage::Waiting,
            (BindStage::Registering, BindEvent::Notice(REGISTRATION_REFUSED)) => BindStage::Finished,
            (BindStage::Waiting, BindEvent::Notice(REGISTRATION_REFUSED)) => BindStage::Finished,
            (BindStage::Connecting, BindEvent::Notice(REGISTRATION_REFUSED)) => BindStage::Finished,
            (stage, _) => stage,
        }
    }

    /// Whether the event makes the agent give up the label: every return does, but for the one
    /// where the stream for the registration could not be opened.
    pub open spec fn unbinds(self, event: BindEvent) -> bool {
        self.stage != BindStage::Finished && self.next_stage(event) == BindStage::Finished && !(
        event is OpenFailed)
    }

    /// Whether the action is the answer to the event.
    pub open spec fn answers(self, event: BindEvent, action: BindAction) -> bool {
        match (self.stage, event) {
            (BindStage::Opening, BindEvent::Opened) => action matches BindAction::Register(bytes)
                && bytes@ == protocol::frame_bytes(
                protocol::KindView::Register { label: self.label },
            ),
            (BindStage::Opening, BindEvent::OpenFailed(reason)) => action matches BindAction::Return(
                Err(e),
            ) && e.is_protocol(reason@),
            (BindStage::Registering, BindEvent::Written) => action is Wait,
            (BindStage::Registering, BindEvent::WriteFailed(error)) => action
                == BindAction::Return(Err(error)),
            (BindStage::Waiting, BindEvent::Stream) => action == BindAction::Connect(
                self.local_port,
            ),
            (BindStage::Waiting, BindEvent::QueueClosed) => action == BindAction::Return(Ok(())),
            (BindStage::Waiting, BindEvent::ShutDown) => action == BindAction::Return(Ok(())),
            (BindStage::Connecting, BindEvent::Connected) => action is Bridge,
            (BindStage::Connecting, BindEvent::ConnectFailed) => action is Wait,
            (BindStage::Opening, BindEvent::Notice(_)) => action is Ignore,
            (BindStage::Finished, BindEvent::Notice(_)) => action is Ignore,
            (_, BindEvent::Notice(REGISTRATION_REFUSED)) => action matches BindAction::Return(
                Err(e),
            ) && e.is_protocol(already_bound_text(self.label)),
            _ => action is Ignore,
        }
    }
}

impl Binding {
    #[verifier::type_invariant]
    spec fn well_formed(self) -> bool {
        protocol::label_fault(self.label@) is None
    }

    /// Takes note of an event and says what to do next.
    ///
    /// A local service that cannot be reached costs one stream and no more. When the `bind` returns,
    /// the agent gives up the label, unless the stream for the registration could not be opened. A
    /// `bind` whose registration the broker refuses returns the error for a label that is bound.
    pub fn step<T>(&mut self, agent: &mut AgentClient<T>, event: BindEvent) -> (action: BindAction)
        ensures
            final(self)@ == (BindingView { stage: old(self)@.next_stage(event), ..old(self)@ }),
            old(self)@.answers(event, action),
            final(agent)@ == (if old(self)@.unbinds(event) {
                old(agent)@.after_unbind(old(self)@.label)
            } else {
                old(agent)@
            }),
    {
        proof {
            use_type_invariant(&*self);
            protocol::valid_labels_have_frames(
                protocol::KindView::Register { label: self.label@ },
            );
        }
        match (self.stage, event) {
            (BindStage::Opening, BindEvent::Opened) => {
                match write_frame(&StreamKind::Register { label: self.label.clone() }) {
                    Ok(frame) => {
                        self.stage = BindStage::Registering;
                        BindAction::Register(frame)
                    },
                    Err(e) => {
                        self.stage = BindStage::Finished;
                        BindAction::Return(Err(e))
                    },
                }
            },
            (BindStage::Opening, BindEvent::OpenFailed(reason)) => {
                self.stage = BindStage::Finished;
                BindAction::Return(Err(Error::Protocol(reason)))
            },
            (BindStage::Registering, BindEvent::Written) => {
                self.stage = BindStage::Waiting;
                BindAction::Wait
            },
            (BindStage::Registering, BindEvent::WriteFailed(e)) => {
                self.stage = BindStage::Finished;
                agent.bound.remove(self.label.as_str());
                BindAction::Return(Err(e))
            },
            (BindStage::Waiting, BindEvent::Stream) => {
                self.stage = BindStage::Connecting;
                BindAction::Connect(self.local_port)
            },
            (BindStage::Waiting, BindEvent::QueueClosed) => {
                self.stage = BindStage::Finished;
                agent.bound.remove(self.label.as_str());
                BindAction::Return(Ok(()))
            },
            (BindStage::Waiting, BindEvent::ShutDown) => {
                self.stage = BindStage::Finished;
                agent.bound.remove(self.label.as_str());
                BindAction::Return(Ok(()))
            },
            (BindStage::Connecting, BindEvent::Connected) => {
                self.stage = BindStage::Waiting;
                BindAction::Bridge
            },
            (BindStage::Connecting, BindEvent::ConnectFailed) => {
                self.stage = BindStage::Waiting;
                BindAction::Wait
            },
            (BindStage::Registering, BindEvent::Notice(REGISTRATION_REFUSED)) => {
                self.stage = BindStage::Finished;
                agent.bound.remove(self.label.as_str());
                BindAction::Return(Err(already_bound(self.label.as_str())))
            },
            (BindStage::Waiting, BindEvent::Notice(REGISTRATION_REFUSED)) => {
                self.stage = BindStage::Finished;
                agent.bound.remove(self.label.as_str());
                BindAction::Return(Err(already_bound(self.label.as_str())))
            },
            (BindStage::Connecting, BindEvent::Notice(REGISTRATION_REFUSED)) => {
                self.stage = BindStage::Finished;
                agent.bound.remove(self.label.as_str());
                BindAction::Return(Err(already_bound(self.label.as_str())))
            },
            _ => BindAction::Ignore,
        }
    }
}

/// A `forward` at work.
pub struct Forward {
    label: String,
}

/// What a `forward` is told.
pub enum ForwardEvent {
    /// A connection came in.
    Connection,
    /// The local port cannot be listened on.
    Failed(Error),
    /// The agent is shut down.
    ShutDown,
}

/// What a `forward` does next.
pub enum ForwardAction {
    /// Bridge the connection with a stream that is dialled, and wait for the next connection.
    Serve(Dial),
    /// Return.
    Return(Result<(), Error>),
}

impl View for Forward {
    type V = Seq<char>;

    closed spec fn view(&self) -> Seq<char> {
        self.label@
    }
}

impl Forward {
    #[verifier::type_invariant]
    spec fn well_formed(self) -> bool {
        protocol::label_fault(self.label@) is None
    }

    /// Says what to do on an event.
    ///
    /// Every connection gets a stream of its own.
    pub fn step(&self, event: ForwardEvent) -> (action: ForwardAction)
        ensures
            match event {
                ForwardEvent::Connection => action matches ForwardAction::Serve(dial) && dial@ == (
                dial::DialView::Opening {
                    frame: protocol::frame_bytes(protocol::KindView::Data { label: self@ }),
                }),
                ForwardEvent::Failed(e) => action == ForwardAction::Return(Err(e)),
                ForwardEvent::ShutDown => action == ForwardAction::Return(Ok(())),
            },
    {
        proof {
            use_type_invariant(self);
            protocol::valid_labels_have_frames(protocol::KindView::Data { label: self.label@ });
        }
        match event {
            ForwardEvent::Connection => match write_frame(
                &StreamKind::Data { label: self.label.clone() },
            ) {
                Ok(frame) => ForwardAction::Serve(Dial::new(frame)),
                Err(e) => ForwardAction::Return(Err(e)),
            },
            ForwardEvent::Failed(e) => ForwardAction::Return(Err(e)),
            ForwardEvent::ShutDown => ForwardAction::Return(Ok(())),
        }
    }
}

} // verus!
