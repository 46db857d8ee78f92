//! The broker: which session serves which label, and what becomes of the streams of agents.

use vstd::prelude::*;
use vstd::string::*;

use crate::dial::Dial;
use crate::error::Error;
use crate::labels::LabelTable;
use crate::protocol::{write_frame, StreamKind};
use crate::session::{AgentSession, SessionIds};
use crate::{dial, labels, protocol, session, text};

verus! {

/// Seconds without traffic before a connection is probed.
pub const KEEPALIVE_TIME_SECS: u64 = 30;

/// Seconds between two probes of a connection.
pub const KEEPALIVE_INTERVAL_SECS: u64 = 10;

/// What a broker keeps of a label that an agent has registered.
pub struct Registration<C> {
    /// What opens a stream to the agent.
    pub control: C,
    /// The agent's session.
    pub session: u64,
    /// How many streams that registered the label are open.
    pub streams: u64,
}

/// The labels that bind agents have registered. `C` is what opens a stream to an agent.
pub struct Broker<C> {
    table: LabelTable<Registration<C>>,
    generation: u64,
}

/// What a broker knows.
#[verifier::ext_equal]
pub struct BrokerView<C> {
    /// What is known of each registered label.
    pub table: Map<Seq<char>, Registration<C>>,
    /// How often the broker was shut down.
    pub generation: u64,
}

impl<C> View for Broker<C> {
    type V = BrokerView<C>;

    closed spec fn view(&self) -> BrokerView<C> {
        BrokerView { table: self.table@, generation: self.generation }
    }
}

impl<C> BrokerView<C> {
    /// A broker that nobody has registered at.
    pub open spec fn fresh() -> BrokerView<C> {
        BrokerView { table: Map::empty(), generation: 0 }
    }

    /// Whether a session may register the label: nobody serves it, or the session itself does.
    pub open spec fn is_free_for(self, label: Seq<char>, session: u64) -> bool {
        match self.route(label) {
            Some((_, owner)) => owner == session,
            None => true,
        }
    }

    /// How many streams that registered the label are open.
    pub open spec fn streams(self, label: Seq<char>) -> u64 {
        if self.table.contains_key(label) {
            self.table[label].streams
        } else {
            0
        }
    }

    /// The broker after it has read a frame on a stream of a session. A label that another session
    /// serves stays with that session; one that the session itself serves has one more stream, as
    /// far as they can be counted.
    pub open spec fn after_frame(
        self,
        control: C,
        session: u64,
        kind: protocol::KindView,
    ) -> BrokerView<C> {
        match kind {
            protocol::KindView::Register { label } => if self.is_free_for(label, session) {
                let streams = if self.streams(label) < u64::MAX {
                    (self.streams(label) + 1) as u64
                } else {
                    u64::MAX
                };
                BrokerView {
                    table: self.table.insert(label, Registration { control, session, streams }),
                    ..self
                }
            } else {
                self
            },
            protocol::KindView::Data { .. } => self,
        }
    }

    /// How to reach the agent that serves the label, and its session.
    pub open spec fn route(self, label: Seq<char>) -> Option<(C, u64)> {
        if self.table.contains_key(label) {
            Some((self.table[label].control, self.table[label].session))
        } else {
            None
        }
    }

    /// The broker after a stream on which a session registered a label has come to its end. The
    /// label goes with the last of these streams.
    pub open spec fn after_release(self, label: Seq<char>, session: u64) -> BrokerView<C> {
        if !self.table.contains_key(label) || self.table[label].session != session {
            self
        } else if self.streams(label) > 1 {
            let left = Registration {
                streams: (self.streams(label) - 1) as u64,
                ..self.table[label]
            };
            BrokerView { table: self.table.insert(label, left), ..self }
        } else {
            BrokerView { table: self.table.remove(label), ..self }
        }
    }

    /// The broker after a session has ended.
    pub open spec fn after_session(self, session: u64) -> BrokerView<C> {
        BrokerView { table: labels::without_session(self.table, session), ..self }
    }

    /// The broker after a shutdown.
    pub open spec fn after_shutdown(self) -> BrokerView<C> {
        BrokerView {
            table: Map::empty(),
            generation: session::nth_id(self.generation, 1) as u64,
        }
    }
}

/// What becomes of a stream that an agent has opened, once its frame is read.
pub enum Accepted<C> {
    /// There was no frame, or none can be passed on; the stream is dropped.
    Refused(Error),
    /// The agent serves the label, as long as a stream that registered it lasts. It may have done so
    /// before.
    Registered { label: String, renewed: bool },
    /// Another agent serves the label. The notice is sent back on the stream.
    Taken { label: String, notice: u8 },
    /// The stream is to be bridged with one that is dialled over the control.
    Relay { control: C, dial: Dial },
    /// Nobody serves the label; the stream is dropped.
    Unbound { label: String },
}

/// What the loop that accepts connections is told.
pub enum ListenEvent {
    /// A connection came in. Its keepalive may or may not have been set.
    Connected { keepalive: bool },
    /// No more connections can be accepted.
    AcceptFailed(Error),
    /// The connection was upgraded to a WebSocket.
    Upgraded,
    /// The connection did not become a WebSocket.
    UpgradeFailed,
}

/// What the loop that accepts connections does next.
pub enum ListenAction {
    /// Upgrade the connection.
    Upgrade,
    /// Run a session on the connection, and wait for the next one.
    Serve,
    /// Drop the connection, and wait for the next one.
    Skip,
    /// Stop with the error.
    Stop(Error),
}

impl<C> Broker<C> {
    /// A broker that nobody has registered at.
    pub fn new() -> (broker: Self)
        ensures
            broker@ == BrokerView::<C>::fresh(),
    {
        Broker { table: LabelTable::new(), generation: 0 }
    }

    /// Decides how the accepting of connections goes on.
    ///
    /// Only a failure to accept ends it. A connection that is no WebSocket is dropped, and one
    /// without keepalive is served like any other.
    pub fn listen(event: ListenEvent) -> (action: ListenAction)
        ensures
            match event {
                ListenEvent::Connected { .. } => action is Upgrade,
                ListenEvent::AcceptFailed(e) => action == ListenAction::Stop(e),
                ListenEvent::Upgraded => action is Serve,
                ListenEvent::UpgradeFailed => action is Skip,
            },
    {
        match event {
            ListenEvent::Connected { .. } => ListenAction::Upgrade,
            ListenEvent::AcceptFailed(e) => ListenAction::Stop(e),
            ListenEvent::Upgraded => ListenAction::Serve,
            ListenEvent::UpgradeFailed => ListenAction::Skip,
        }
    }

    /// Begins a session under the next number.
    pub fn run(&self, ids: &mut SessionIds) -> (session: AgentSession)
        ensures
            session@ == (session::SessionView {
                id: old(ids)@,
                generation: self@.generation,
                errors: 0,
                open: true,
            }),
            final(ids)@ == session::nth_id(old(ids)@, 1),
    {
        AgentSession::new(ids.take(), self.generation)
    }

    /// How often the broker was shut down.
    pub fn generation(&self) -> (generation: u64)
        ensures
            generation == self@.generation,
    {
        self.generation
    }

    /// Forgets every label and has every session of before leave its loop.
    pub fn shutdown(&mut self)
        ensures
            final(self)@ == old(self)@.after_shutdown(),
    {
        self.table.clear();
        self.generation = self.generation.wrapping_add(1);
    }

    /// Takes note that a stream on which the session registered the label has come to its end, and
    /// forgets the label where it was the last one. A label that another session serves is left
    /// alone.
    pub fn release(&mut self, label: &str, session: u64)
        ensures
            final(self)@ == old(self)@.after_release(label@, session),
    {
        let owned = match self.table.get(label) {
            Some(held) => held.session == session,
            None => false,
        };
        if !owned {
            return;
        }
        match self.table.remove(label) {
            Some(held) => {
                if held.streams > 1 {
                    let left = Registration {
                        control: held.control,
                        session: held.session,
                        streams: held.streams - 1,
                    };
                    self.table.insert(label.to_owned(), left);
                    proof {
                        assert(self@ =~= old(self)@.after_release(label@, session));
                    }
                }
            },
            None => {},
        }
    }

    /// Forgets the labels of a session that has ended.
    pub fn end_session(&mut self, session: u64)
        ensures
            final(self)@ == old(self)@.after_session(session),
    {
        self.table.remove_session(session);
    }
}

impl<C: Clone> Broker<C> {
    /// Starts a stream to the agent that serves the label.
    pub fn open_stream(&self, label: &str) -> (opened: Result<(C, Dial), Error>)
        ensures
            match self@.route(label@) {
                Some((control, _)) => match protocol::frame_fault(
                    protocol::KindView::Data { label: label@ },
                ) {
                    None => opened matches Ok((c, dial)) && cloned(control, c) && dial@ == (
                    dial::DialView::Opening {
                        frame: protocol::frame_bytes(protocol::KindView::Data { label: label@ }),
                    }),
                    Some(fault) => opened matches Err(e) && e.is_protocol(fault),
                },
                None => opened matches Err(e) && e.is_protocol(
                    "label '"@ + label@ + "' not registered"@,
                ),
            },
    {
        match self.table.get(label) {
            Some(held) => {
                let control = held.control.clone();
                match write_frame(&StreamKind::Data { label: label.to_owned() }) {
                    Ok(frame) => Ok((control, Dial::new(frame))),
                    Err(e) => Err(e),
                }
            },
            None => Err(Error::Protocol(text::join3("label '", label, "' not registered"))),
        }
    }

    /// Decides about a stream that an agent has opened, once its frame is read. `control` is what
    /// opens streams to that agent, `session` is the agent's session.
    ///
    /// A label has one agent: it is not registered for a second one while the first serves it.
    pub fn accept_stream(
        &mut self,
        control: C,
        session: u64,
        frame: Result<StreamKind, Error>,
    ) -> (accepted: Accepted<C>)
        ensures
            match frame {
                Err(e) => accepted == Accepted::<C>::Refused(e) && final(self)@ == old(self)@,
                Ok(kind) => final(self)@ == old(self)@.after_frame(control, session, kind@)
                    && match kind@ {
                    protocol::KindView::Register { label } => if old(self)@.is_free_for(
                        label,
                        session,
                    ) {
                        accepted matches Accepted::Registered { label: l, renewed } && l@ == label
                            && renewed == old(self)@.route(label) is Some
                    } else {
                        accepted matches Accepted::Taken { label: l, notice } && l@ == label
                            && notice == protocol::REGISTRATION_REFUSED
                    },
                    protocol::KindView::Data { label } => match old(self)@.route(label) {
                        Some((bound, _)) => match protocol::frame_fault(kind@) {
                            None => accepted matches Accepted::Relay { control: c, dial } && cloned(
                                bound,
                                c,
                            ) && dial@ == (dial::DialView::Opening {
                                frame: protocol::frame_bytes(kind@),
                            }),
                            Some(fault) => accepted matches Accepted::Refused(e) && e.is_protocol(
                                fault,
                            ),
                        },
                        None => accepted matches Accepted::Unbound { label: l } && l@ == label,
                    },
                },
            },
    {
        match frame {
            Err(e) => Accepted::Refused(e),
            Ok(StreamKind::Register { label }) => {
                let (taken, open): (bool, u64) = match self.table.get(label.as_str()) {
                    Some(held) => (held.session != session, held.streams),
                    None => (false, 0),
                };
                if taken {
                    return Accepted::Taken { label, notice: protocol::REGISTRATION_REFUSED };
                }
                let streams: u64 = if open < u64::MAX {
                    open + 1
                } else {
                    u64::MAX
                };
                let kept = label.clone();
                let registration = Registration { control, session, streams };
                let renewed = self.table.insert(label, registration).is_some();
                Accepted::Registered { label: kept, renewed }
            },
            Ok(StreamKind::Data { label }) => {
                if self.table.get(label.as_str()).is_none() {
                    return Accepted::Unbound { label };
                }
                match self.open_stream(label.as_str()) {
                    Ok((control, dial)) => Accepted::Relay { control, dial },
                    Err(e) => Accepted::Refused(e),
                }
            },
        }
    }
}

impl<C> Default for Broker<C> {
    fn default() -> (broker: Self)
        ensures
            broker@ == BrokerView::<C>::fresh(),
    {
        Broker::new()
    }
}

} // verus!
