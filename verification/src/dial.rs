//! A stream that this side opens: one control frame, then the connection.

use vstd::prelude::*;

use crate::error::Error;

verus! {

/// How far a stream that this side opens has come.
pub enum Dial {
    /// The stream is being opened; the frame goes out on it first.
    Opening { frame: Vec<u8> },
    /// The frame is being written.
    Writing,
    /// The stream and the connection are bridged.
    Bridging,
    /// The stream is given up or done.
    Finished,
}

/// What happened to the stream.
#[derive(Debug, Clone, Copy, PartialEq, Eq)]
pub enum DialEvent {
    /// The stream is open.
    Opened,
    /// The frame is written.
    Written,
    /// The bridge has come to its end.
    Ended,
    /// What was asked for did not succeed.
    Failed,
}

/// What to do next with the stream.
pub enum DialAction {
    /// Write these bytes.
    Write(Vec<u8>),
    /// Copy bytes both ways between the stream and the connection.
    Bridge,
    /// Drop the stream.
    Close,
}

/// A [`Dial`] with its frame as a sequence of bytes.
#[verifier::ext_equal]
pub enum DialView {
    Opening { frame: Seq<u8> },
    Writing,
    Bridging,
    Finished,
}

/// A [`DialAction`] with its bytes as a sequence.
#[verifier::ext_equal]
pub enum DialActionView {
    Write(Seq<u8>),
    Bridge,
    Close,
}

impl View for Dial {
    type V = DialView;

    open spec fn view(&self) -> DialView {
        match self {
            Dial::Opening { frame } => DialView::Opening { frame: frame@ },
            Dial::Writing => DialView::Writing,
            Dial::Bridging => DialView::Bridging,
            Dial::Finished => DialView::Finished,
        }
    }
}

impl View for DialAction {
    type V = DialActionView;

    open spec fn view(&self) -> DialActionView {
        match self {
            DialAction::Write(bytes) => DialActionView::Write(bytes@),
            DialAction::Bridge => DialActionView::Bridge,
            DialAction::Close => DialActionView::Close,
        }
    }
}

impl DialView {
    /// The state after an event, and what to do.
    pub open spec fn next(self, event: DialEvent) -> (DialView, DialActionView) {
        match (self, event) {
            (DialView::Opening { frame }, DialEvent::Opened) => (
                DialView::Writing,
                DialActionView::Write(frame),
            ),
            (DialView::Writing, DialEvent::Written) => (DialView::Bridging, DialActionView::Bridge),
            _ => (DialView::Finished, DialActionView::Close),
        }
    }

    /// What is done on a whole run of events.
    pub open spec fn actions(self, events: Seq<DialEvent>) -> Seq<DialActionView>
        decreases events.len(),
    {
        if events.len() == 0 {
            Seq::empty()
        } else {
            seq![self.next(events[0]).1] + self.next(events[0]).0.actions(events.drop_first())
        }
    }
}

impl Dial {
    /// Starts: the stream is to be opened.
    pub fn new(frame: Vec<u8>) -> (dial: Dial)
        ensures
            dial@ == (DialView::Opening { frame: frame@ }),
    {
        Dial::Opening { frame }
    }

    /// Takes note of an event and says what to do next.
    pub fn step(&mut self, event: DialEvent) -> (action: DialAction)
        ensures
            (final(self)@, action@) == old(self)@.next(event),
    {
        let mut before = Dial::Finished;
        std::mem::swap(&mut before, self);
        match (before, event) {
            (Dial::Opening { frame }, DialEvent::Opened) => {
                *self = Dial::Writing;
                DialAction::Write(frame)
            },
            (Dial::Writing, DialEvent::Written) => {
                *self = Dial::Bridging;
                DialAction::Bridge
            },
            _ => DialAction::Close,
        }
    }
}

/// The stream that was opened, or the error for the reason why it was not.
pub fn opened_stream<S>(outcome: Result<S, String>) -> (opened: Result<S, Error>)
    ensures
        match outcome {
            Ok(stream) => opened == Ok::<S, Error>(stream),
            Err(reason) => opened matches Err(e) && e.is_protocol(reason@),
        },
{
    match outcome {
        Ok(stream) => Ok(stream),
        Err(reason) => Err(Error::Protocol(reason)),
    }
}

/// A finished stream is only ever closed.
proof fn finished_stays_finished(events: Seq<DialEvent>, i: int)
    requires
        0 <= i < events.len(),
    ensures
        DialView::Finished.actions(events).len() == events.len(),
        DialView::Finished.actions(events)[i] == DialActionView::Close,
    decreases events.len(),
{
    reveal_with_fuel(DialView::actions, 2);
    if events.len() > 1 {
        finished_stays_finished(events.drop_first(), if i > 0 { i - 1 } else { 0 });
    }
}

/// Whatever happens, a stream carries exactly one control frame before its connection: the frame is
/// written as the answer to the opening and never again, and the bridge follows on its completion
/// and never otherwise.
pub proof fn a_stream_carries_one_frame(frame: Seq<u8>, events: Seq<DialEvent>, i: int)
    requires
        0 <= i < events.len(),
    ensures
        ({
            let actions = (DialView::Opening { frame }).actions(events);
            &&& actions.len() == events.len()
            &&& actions[i] == DialActionView::Write(frame) <==> i == 0 && events[0]
                == DialEvent::Opened
            &&& actions[i] is Write ==> i == 0
            &&& actions[i] is Bridge <==> i == 1 && events[0] == DialEvent::Opened && events[1]
                == DialEvent::Written
        }),
{
    reveal_with_fuel(DialView::actions, 4);
    let opening = DialView::Opening { frame };
    let rest = events.drop_first();
    if events[0] == DialEvent::Opened {
        if rest.len() > 0 {
            assert(rest[0] == events[1]);
            let last = rest.drop_first();
            if rest[0] == DialEvent::Written {
                if last.len() > 0 {
                    let end = last.drop_first();
                    if end.len() > 0 {
                        finished_stays_finished(end, if i > 2 { i - 3 } else { 0 });
                    }
                }
            } else if last.len() > 0 {
                finished_stays_finished(last, if i > 1 { i - 2 } else { 0 });
            }
        }
    } else if rest.len() > 0 {
        finished_stays_finished(rest, if i > 0 { i - 1 } else { 0 });
    }
}

} // verus!
