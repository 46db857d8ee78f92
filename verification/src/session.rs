//! The life of one agent's session at the broker.

use vstd::prelude::*;

verus! {

/// So many failures in a row end a session.
pub const MAX_SESSION_ERRORS: u32 = 10;

/// Hands out the numbers of sessions.
pub struct SessionIds {
    next: u64,
}

/// The number that follows `n` others, from `first` on. Numbers start again behind the largest.
pub open spec fn nth_id(first: u64, n: nat) -> nat {
    (first + n) as nat % 0x1_0000_0000_0000_0000
}

impl View for SessionIds {
    type V = u64;

    closed spec fn view(&self) -> u64 {
        self.next
    }
}

impl SessionIds {
    /// Starts with number one.
    pub fn new() -> (ids: SessionIds)
        ensures
            ids@ == 1,
    {
        SessionIds { next: 1 }
    }

    /// The next number.
    pub fn take(&mut self) -> (id: u64)
        ensures
            id == old(self)@,
            final(self)@ == nth_id(old(self)@, 1),
    {
        let id: u64 = self.next;
        self.next = id.wrapping_add(1);
        id
    }
}

/// Numbers are not given twice, as long as fewer than 2^64 are given.
pub proof fn ids_are_distinct(first: u64, m: nat, n: nat)
    requires
        m < n < 0x1_0000_0000_0000_0000,
    ensures
        nth_id(first, m) != nth_id(first, n),
        nth_id(first, m + 1) == nth_id(nth_id(first, m) as u64, 1),
{
}

/// A session, as its loop sees it.
pub struct AgentSession {
    id: u64,
    generation: u64,
    errors: u32,
    open: bool,
}

/// What a session looks like from outside.
#[verifier::ext_equal]
pub struct SessionView {
    /// Its number.
    pub id: u64,
    /// How often the broker had been shut down when it began.
    pub generation: u64,
    /// Failures since the last stream.
    pub errors: nat,
    /// Whether its loop goes on.
    pub open: bool,
}

/// What a session's loop is told.
#[derive(Debug, Clone, Copy, PartialEq, Eq)]
pub enum SessionEvent {
    /// The agent opened a stream.
    Stream,
    /// The session reported a failure.
    Failed,
    /// The session has ended.
    Ended,
    /// Nothing arrived; the broker asks the session to look around.
    Woken,
}

/// What a session's loop does next.
#[derive(Debug, Clone, Copy, PartialEq, Eq)]
pub enum SessionAction {
    /// Serve the new stream and wait on.
    Serve,
    /// Wait on.
    Continue,
    /// Leave the loop.
    Close,
}

impl SessionView {
    /// The session after an event at a broker of the given generation.
    pub open spec fn next(self, generation: u64, event: SessionEvent) -> SessionView {
        if !self.open {
            self
        } else if self.generation != generation {
            SessionView { open: false, ..self }
        } else {
            match event {
                SessionEvent::Stream => SessionView { errors: 0, ..self },
                SessionEvent::Failed => SessionView {
                    errors: self.errors + 1,
                    open: self.errors + 1 < MAX_SESSION_ERRORS,
                    ..self
                },
                SessionEvent::Ended => SessionView { open: false, ..self },
                SessionEvent::Woken => self,
            }
        }
    }

    /// What the loop does on an event.
    pub open spec fn action(self, generation: u64, event: SessionEvent) -> SessionAction {
        if !self.next(generation, event).open {
            SessionAction::Close
        } else if event == SessionEvent::Stream {
            SessionAction::Serve
        } else {
            SessionAction::Continue
        }
    }

    /// The session after a run of events.
    pub open spec fn after(self, generation: u64, events: Seq<SessionEvent>) -> SessionView
        decreases events.len(),
    {
        if events.len() == 0 {
            self
        } else {
            self.after(generation, events.drop_last()).next(generation, events.last())
        }
    }
}

impl View for AgentSession {
    type V = SessionView;

    closed spec fn view(&self) -> SessionView {
        SessionView {
            id: self.id,
            generation: self.generation,
            errors: self.errors as nat,
            open: self.open,
        }
    }
}

impl AgentSession {
    #[verifier::type_invariant]
    spec fn well_formed(self) -> bool {
        self.open ==> self.errors < MAX_SESSION_ERRORS
    }

    /// A session that begins.
    pub fn new(id: u64, generation: u64) -> (session: AgentSession)
        ensures
            session@ == (SessionView { id, generation, errors: 0, open: true }),
    {
        AgentSession { id, generation, errors: 0, open: true }
    }

    /// The number of the session.
    pub fn id(&self) -> (id: u64)
        ensures
            id == self@.id,
    {
        self.id
    }

    /// Takes note of an event at a broker of the given generation and says what to do.
    pub fn step(&mut self, generation: u64, event: SessionEvent) -> (action: SessionAction)
        ensures
            final(self)@ == old(self)@.next(generation, event),
            action == old(self)@.action(generation, event),
    {
        proof {
            use_type_invariant(&*self);
        }
        if !self.open {
            return SessionAction::Close;
        }
        if self.generation != generation {
            self.open = false;
            return SessionAction::Close;
        }
        match event {
            SessionEvent::Stream => {
                self.errors = 0;
                SessionAction::Serve
            },
            SessionEvent::Failed => {
                let errors: u32 = self.errors + 1;
                if errors >= MAX_SESSION_ERRORS {
                    self.open = false;
                    self.errors = errors;
                    SessionAction::Close
                } else {
                    self.errors = errors;
                    SessionAction::Continue
                }
            },
            SessionEvent::Ended => {
                self.open = false;
                SessionAction::Close
            },
            SessionEvent::Woken => SessionAction::Continue,
        }
    }
}

/// Failures since the last stream.
pub open spec fn failures_in_a_row(events: Seq<SessionEvent>) -> nat
    decreases events.len(),
{
    if events.len() == 0 {
        0
    } else {
        match events.last() {
            SessionEvent::Stream => 0,
            SessionEvent::Failed => failures_in_a_row(events.drop_last()) + 1,
            _ => failures_in_a_row(events.drop_last()),
        }
    }
}

/// A session that its broker does not shut down goes on until it ends by itself or until ten
/// failures have come without a stream in between, and no longer.
pub proof fn a_session_lasts_until_it_ends_or_keeps_failing(
    id: u64,
    generation: u64,
    events: Seq<SessionEvent>,
)
    ensures
        ({
            let fresh = SessionView { id, generation, errors: 0, open: true };
            fresh.after(generation, events).open <==> !events.contains(SessionEvent::Ended)
                && forall|k: int|
                0 <= k <= events.len() ==> failures_in_a_row(#[trigger] events.take(k))
                    < MAX_SESSION_ERRORS
        }),
        ({
            let fresh = SessionView { id, generation, errors: 0, open: true };
            let now = fresh.after(generation, events);
            now.id == id && now.generation == generation && (now.open ==> now.errors
                == failures_in_a_row(events))
        }),
    decreases events.len(),
{
    let fresh = SessionView { id, generation, errors: 0, open: true };
    if events.len() > 0 {
        let before = events.drop_last();
        let n = events.len() as int;
        a_session_lasts_until_it_ends_or_keeps_failing(id, generation, before);
        assert(events.take(n) =~= events);
        assert forall|k: int| 0 <= k < n implies #[trigger] events.take(k) == before.take(k) by {
            assert(events.take(k) =~= before.take(k));
        }
        assert(before.take(n - 1) =~= before);
        if before.contains(SessionEvent::Ended) {
            let i = choose|i: int| 0 <= i < before.len() && before[i] == SessionEvent::Ended;
            assert(events[i] == SessionEvent::Ended);
        }
        if events.last() == SessionEvent::Ended {
            assert(events[n - 1] == SessionEvent::Ended);
        }
        if events.contains(SessionEvent::Ended) && events.last() != SessionEvent::Ended {
            let i = choose|i: int| 0 <= i < n && events[i] == SessionEvent::Ended;
            assert(before[i] == SessionEvent::Ended);
        }
        if fresh.after(generation, events).open {
            assert forall|k: int| 0 <= k <= n implies failures_in_a_row(#[trigger] events.take(k))
                < MAX_SESSION_ERRORS by {
                if k < n {
                    assert(events.take(k) == before.take(k));
                }
            }
        } else if fresh.after(generation, before).open {
            assert(events.last() == SessionEvent::Ended || failures_in_a_row(events.take(n))
                >= MAX_SESSION_ERRORS);
        } else if !before.contains(SessionEvent::Ended) {
            let k = choose|k: int|
                0 <= k <= before.len() && failures_in_a_row(#[trigger] before.take(k))
                    >= MAX_SESSION_ERRORS;
            assert(events.take(k) == before.take(k));
        }
    }
}

} // verus!
