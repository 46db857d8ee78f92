//! What the operations of the broker do, told by what goes in and what comes out.

use vstd::prelude::*;
use vstd::string::*;

use crate::broker::{Accepted, Broker, ListenAction, ListenEvent, Registration};
use crate::dial::Dial;
use crate::error::Error;
use crate::labels::LabelTable;
use crate::protocol;
use crate::protocol::StreamKind;
use crate::session::{AgentSession, SessionAction, SessionEvent};

verus! {

/// A new broker knows no label and was never shut down.
pub proof fn a_new_broker_knows_nothing<C>(broker: Broker<C>, by_default: Broker<C>)
    requires
        call_ensures(Broker::<C>::new, (), broker),
        call_ensures(Broker::<C>::default, (), by_default),
    ensures
        forall|label: Seq<char>| !#[trigger] broker@.table.contains_key(label),
        forall|label: Seq<char>| !#[trigger] by_default@.table.contains_key(label),
        broker@.generation == 0,
        by_default@.generation == 0,
{
}

/// Accepting ends when it fails, with the failure, and for no other reason. A connection is
/// upgraded, with or without keepalive; it is served if it was upgraded, and skipped if not.
pub proof fn accepting_goes_on<C>(event: ListenEvent, action: ListenAction)
    requires
        call_ensures(Broker::<C>::listen, (event,), action),
    ensures
        action is Stop <==> event is AcceptFailed,
        event matches ListenEvent::AcceptFailed(e) ==> action == ListenAction::Stop(e),
        action is Upgrade <==> event is Connected,
        action is Serve <==> event is Upgraded,
        action is Skip <==> event is UpgradeFailed,
{
}

/// A registration succeeds if and only if no other session serves the label. The session then
/// serves it, over the control that it gave last, with one stream more; it is told whether the label
/// was registered before.
pub proof fn a_registration_takes_a_free_label<C: Clone>(
    broker: &mut Broker<C>,
    control: C,
    session: u64,
    label: String,
    accepted: Accepted<C>,
)
    requires
        call_ensures(
            Broker::<C>::accept_stream,
            (broker, control, session, Ok(StreamKind::Register { label })),
            accepted,
        ),
        old(broker)@.table.contains_key(label@) ==> old(broker)@.table[label@].session == session,
    ensures
        accepted matches Accepted::Registered { label: told, renewed } && told@ == label@ && (renewed
            <==> old(broker)@.table.contains_key(label@)),
        final(broker)@.table.contains_key(label@),
        final(broker)@.table[label@].control == control,
        final(broker)@.table[label@].session == session,
        !old(broker)@.table.contains_key(label@) ==> final(broker)@.table[label@].streams == 1,
        old(broker)@.table.contains_key(label@) && old(broker)@.table[label@].streams < u64::MAX
            ==> final(broker)@.table[label@].streams == old(broker)@.table[label@].streams + 1,
        old(broker)@.table.contains_key(label@) && old(broker)@.table[label@].streams == u64::MAX
            ==> final(broker)@.table[label@].streams == u64::MAX,
        final(broker)@.table.remove(label@) == old(broker)@.table.remove(label@),
        final(broker)@.generation == old(broker)@.generation,
{
    assert(final(broker)@.table.remove(label@) =~= old(broker)@.table.remove(label@));
}

/// A registration of a label that another session serves is answered with the byte 1, and changes
/// nothing.
pub proof fn a_registration_of_a_held_label_is_refused<C: Clone>(
    broker: &mut Broker<C>,
    control: C,
    session: u64,
    label: String,
    accepted: Accepted<C>,
)
    requires
        call_ensures(
            Broker::<C>::accept_stream,
            (broker, control, session, Ok(StreamKind::Register { label })),
            accepted,
        ),
        old(broker)@.table.contains_key(label@),
        old(broker)@.table[label@].session != session,
    ensures
        accepted matches Accepted::Taken { label: told, notice } && told@ == label@ && notice == 1,
        final(broker)@ == old(broker)@,
{
}

/// A connection for a label is relayed to the agent that serves the label, over its control and
/// behind the very frame that is written for a connection to that label; one for a label that
/// nobody serves is dropped. Whichever session it comes from, it changes nothing.
pub proof fn a_connection_is_relayed_to_its_label<C: Clone>(
    broker: &mut Broker<C>,
    control: C,
    session: u64,
    label: String,
    accepted: Accepted<C>,
    written: Result<Vec<u8>, Error>,
)
    requires
        call_ensures(
            Broker::<C>::accept_stream,
            (broker, control, session, Ok(StreamKind::Data { label })),
            accepted,
        ),
        call_ensures(protocol::write_frame, (&StreamKind::Data { label },), written),
    ensures
        final(broker)@ == old(broker)@,
        accepted is Unbound <==> !old(broker)@.table.contains_key(label@),
        accepted matches Accepted::Unbound { label: told } ==> told@ == label@,
        accepted is Relay <==> old(broker)@.table.contains_key(label@) && written is Ok,
        accepted matches Accepted::Relay { control: to, dial } ==> cloned(
            old(broker)@.table[label@].control,
            to,
        ) && (dial matches Dial::Opening { frame } && frame@ == written->Ok_0@),
        accepted is Refused <==> old(broker)@.table.contains_key(label@) && written is Err,
        accepted matches Accepted::Refused(e) ==> (e matches Error::Protocol(t)
            && written matches Err(Error::Protocol(u)) && t@ == u@),
{
}

/// A stream without a frame is dropped with the error, and changes nothing.
pub proof fn a_stream_without_a_frame_is_dropped<C: Clone>(
    broker: &mut Broker<C>,
    control: C,
    session: u64,
    error: Error,
    accepted: Accepted<C>,
)
    requires
        call_ensures(Broker::<C>::accept_stream, (broker, control, session, Err(error)), accepted),
    ensures
        accepted == Accepted::<C>::Refused(error),
        final(broker)@ == old(broker)@,
{
}

/// A stream can be opened to a label if and only if an agent serves it and a frame can be written
/// for it. It goes to that agent, and starts with that frame.
pub proof fn a_stream_is_opened_to_a_served_label<C: Clone>(
    broker: &Broker<C>,
    label: &str,
    opened: Result<(C, Dial), Error>,
    name: String,
    written: Result<Vec<u8>, Error>,
)
    requires
        call_ensures(Broker::<C>::open_stream, (broker, label), opened),
        name@ == label@,
        call_ensures(protocol::write_frame, (&StreamKind::Data { label: name },), written),
    ensures
        opened is Ok <==> broker@.table.contains_key(label@) && written is Ok,
        opened matches Ok((to, dial)) ==> cloned(broker@.table[label@].control, to) && (
        dial matches Dial::Opening { frame } && frame@ == written->Ok_0@),
        !broker@.table.contains_key(label@) ==> (opened matches Err(Error::Protocol(t)) && t@
            == "label '"@ + label@ + "' not registered"@),
        broker@.table.contains_key(label@) && written is Err ==> (opened matches Err(
            Error::Protocol(t),
        ) && written matches Err(Error::Protocol(u)) && t@ == u@),
{
}

/// The end of a stream that registered a label is one stream less for the session that serves the
/// label; with the last one the label is forgotten. Nothing else changes.
pub proof fn a_release_takes_one_stream<C>(broker: &mut Broker<C>, label: &str, session: u64)
    requires
        call_ensures(Broker::<C>::release, (broker, label, session), ()),
    ensures
        final(broker)@.generation == old(broker)@.generation,
        final(broker)@.table.remove(label@) == old(broker)@.table.remove(label@),
        !old(broker)@.table.contains_key(label@) ==> !final(broker)@.table.contains_key(label@),
        old(broker)@.table.contains_key(label@) && old(broker)@.table[label@].session != session
            ==> final(broker)@.table.contains_key(label@) && final(broker)@.table[label@] == old(
            broker,
        )@.table[label@],
        old(broker)@.table.contains_key(label@) && old(broker)@.table[label@].session == session
            ==> {
            let streams = old(broker)@.table[label@].streams;
            &&& final(broker)@.table.contains_key(label@) <==> streams > 1
            &&& streams > 1 ==> final(broker)@.table[label@].streams == streams - 1
            &&& streams > 1 ==> final(broker)@.table[label@].session == session
            &&& streams > 1 ==> final(broker)@.table[label@].control == old(
                broker,
            )@.table[label@].control
        },
{
    assert(final(broker)@.table.remove(label@) =~= old(broker)@.table.remove(label@));
}

/// The end of a session takes away the labels that it serves, and leaves all others as they are.
pub proof fn the_end_of_a_session_takes_its_labels<C>(broker: &mut Broker<C>, session: u64)
    requires
        call_ensures(Broker::<C>::end_session, (broker, session), ()),
    ensures
        final(broker)@.generation == old(broker)@.generation,
        forall|label: Seq<char>| #[trigger]
            final(broker)@.table.contains_key(label) <==> old(broker)@.table.contains_key(label)
                && old(broker)@.table[label].session != session,
        forall|label: Seq<char>| #[trigger]
            final(broker)@.table.contains_key(label) ==> final(broker)@.table[label] == old(
                broker,
            )@.table[label],
{
}

/// A shutdown forgets all labels and is counted, and every session that began since the shutdown
/// before closes at the next thing that it is told, whatever that is.
pub proof fn a_shutdown_forgets_all_labels<C>(
    broker: &mut Broker<C>,
    before: u64,
    stopped: &Broker<C>,
    after: u64,
    running: &mut AgentSession,
    event: SessionEvent,
    action: SessionAction,
)
    requires
        call_ensures(Broker::<C>::shutdown, (broker,), ()),
        call_ensures(Broker::<C>::generation, (&*old(broker),), before),
        stopped@ == final(broker)@,
        call_ensures(Broker::<C>::generation, (stopped,), after),
        old(running)@.generation == before,
        call_ensures(AgentSession::step, (running, after, event), action),
    ensures
        action == SessionAction::Close,
        !final(running)@.open,
        forall|label: Seq<char>| !#[trigger] final(broker)@.table.contains_key(label),
        before < u64::MAX ==> after == before + 1,
        before == u64::MAX ==> after == 0,
        before == old(broker)@.generation,
        after == final(broker)@.generation,
{
}

/// A table gives back what was put in last for a label, and what it held before for every other.
pub proof fn a_table_holds_what_was_put_in<T>(
    table: &mut LabelTable<T>,
    label: String,
    value: T,
    replaced: Option<T>,
    later: &LabelTable<T>,
    name: &str,
    found: Option<&T>,
    earlier: Option<&T>,
)
    requires
        call_ensures(LabelTable::<T>::insert, (table, label, value), replaced),
        later@ == final(table)@,
        call_ensures(LabelTable::<T>::get, (later, name), found),
        call_ensures(LabelTable::<T>::get, (&*old(table), name), earlier),
    ensures
        name@ == label@ ==> (found matches Some(v) && *v == value),
        name@ == label@ ==> (earlier is None <==> replaced is None),
        name@ == label@ ==> (earlier matches Some(v) ==> replaced == Some(*v)),
        name@ != label@ ==> (found is None <==> earlier is None),
        name@ != label@ ==> (found matches Some(v) ==> earlier matches Some(w) && *v == *w),
{
}

/// A table no longer holds what was removed, gives it back, and holds all else as before.
pub proof fn a_table_forgets_what_was_removed<T>(
    table: &mut LabelTable<T>,
    label: &str,
    removed: Option<T>,
    later: &LabelTable<T>,
    name: &str,
    found: Option<&T>,
    earlier: Option<&T>,
)
    requires
        call_ensures(LabelTable::<T>::remove, (table, label), removed),
        later@ == final(table)@,
        call_ensures(LabelTable::<T>::get, (later, name), found),
        call_ensures(LabelTable::<T>::get, (&*old(table), name), earlier),
    ensures
        name@ == label@ ==> found is None,
        name@ == label@ ==> (earlier is None <==> removed is None),
        name@ == label@ ==> (earlier matches Some(v) ==> removed == Some(*v)),
        name@ != label@ ==> (found is None <==> earlier is None),
        name@ != label@ ==> (found matches Some(v) ==> earlier matches Some(w) && *v == *w),
{
}

/// A new table and one that was cleared hold nothing.
pub proof fn an_empty_table_holds_nothing<T>(
    fresh: LabelTable<T>,
    table: &mut LabelTable<T>,
    later: &LabelTable<T>,
    name: &str,
    in_fresh: Option<&T>,
    in_cleared: Option<&T>,
)
    requires
        call_ensures(LabelTable::<T>::new, (), fresh),
        call_ensures(LabelTable::<T>::get, (&fresh, name), in_fresh),
        call_ensures(LabelTable::<T>::clear, (table,), ()),
        later@ == final(table)@,
        call_ensures(LabelTable::<T>::get, (later, name), in_cleared),
    ensures
        in_fresh is None,
        in_cleared is None,
{
}

/// A table from which a session was removed holds what other sessions registered, as it was, and
/// nothing of that session.
pub proof fn a_table_forgets_a_session<C>(
    table: &mut LabelTable<Registration<C>>,
    session: u64,
    later: &LabelTable<Registration<C>>,
    name: &str,
    found: Option<&Registration<C>>,
    earlier: Option<&Registration<C>>,
)
    requires
        call_ensures(LabelTable::<Registration<C>>::remove_session, (table, session), ()),
        later@ == final(table)@,
        call_ensures(LabelTable::<Registration<C>>::get, (later, name), found),
        call_ensures(LabelTable::<Registration<C>>::get, (&*old(table), name), earlier),
    ensures
        found is Some <==> (earlier matches Some(held) && held.session != session),
        found matches Some(held) ==> earlier matches Some(before) && *held == *before,
{
}

} // verus!
