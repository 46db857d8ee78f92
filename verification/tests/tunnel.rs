use agent_pair::agent::{
    AgentClient, BindAction, BindEvent, Binding, Delivery, Forward, ForwardAction, ForwardEvent,
};
use agent_pair::broker::{Accepted, Broker, ListenAction, ListenEvent};
use agent_pair::dial::{opened_stream, Dial, DialAction, DialEvent};
use agent_pair::labels::LabelTable;
use agent_pair::protocol::{
    read_frame, write_frame, ReadStep, StreamKind, REGISTRATION_REFUSED,
};
use agent_pair::session::{
    AgentSession, SessionAction, SessionEvent, SessionIds, MAX_SESSION_ERRORS,
};
use agent_pair::Error;

fn register(label: &str) -> Result<StreamKind, Error> {
    Ok(StreamKind::Register { label: label.to_string() })
}

fn data(label: &str) -> Result<StreamKind, Error> {
    Ok(StreamKind::Data { label: label.to_string() })
}

fn data_frame(label: &str) -> Vec<u8> {
    write_frame(&StreamKind::Data { label: label.to_string() }).unwrap()
}

fn parsed(bytes: &[u8]) -> Result<StreamKind, Error> {
    match read_frame(bytes) {
        ReadStep::Done(result) => result,
        ReadStep::Need(n) => panic!("{n} more bytes asked for"),
    }
}

fn frame_of(mut dial: Dial) -> Vec<u8> {
    match dial.step(DialEvent::Opened) {
        DialAction::Write(bytes) => bytes,
        _ => panic!("no frame"),
    }
}

fn text<T>(result: Result<T, Error>) -> String {
    match result {
        Ok(_) => panic!("expected an error"),
        Err(e) => e.to_string(),
    }
}

fn agent() -> AgentClient<u32> {
    match AgentClient::connect(Ok(())) {
        Ok(agent) => agent,
        Err(_) => panic!("not connected"),
    }
}

fn refusal() -> BindEvent {
    BindEvent::Notice(REGISTRATION_REFUSED)
}

/// Brings a bind to the point where its registration is written, and gives the frame.
fn registration(binding: &mut Binding, agent: &mut AgentClient<u32>) -> Vec<u8> {
    let frame = match binding.step(agent, BindEvent::Opened) {
        BindAction::Register(bytes) => bytes,
        _ => panic!("no registration"),
    };
    assert!(matches!(binding.step(agent, BindEvent::Written), BindAction::Wait));
    frame
}

/// Where the broker leads a stream with the label: the control, and the frame that it writes.
fn relayed(broker: &mut Broker<&'static str>, label: &str) -> Option<(&'static str, Vec<u8>)> {
    match broker.accept_stream("forward", 99, data(label)) {
        Accepted::Relay { control, dial } => Some((control, frame_of(dial))),
        Accepted::Unbound { label: l } => {
            assert_eq!(l, label);
            None
        }
        _ => panic!("not a decision on data"),
    }
}

fn delivered(agent: &AgentClient<u32>, frame: Result<StreamKind, Error>) -> Option<u32> {
    match agent.accept_stream(frame) {
        Delivery::Deliver(queue) => Some(queue),
        Delivery::Ignored => None,
        Delivery::Refused(e) => panic!("refused: {}", e.to_string()),
    }
}

fn forwarded(forward: &Forward) -> Vec<u8> {
    match forward.step(ForwardEvent::Connection) {
        ForwardAction::Serve(dial) => frame_of(dial),
        ForwardAction::Return(_) => panic!("returned"),
    }
}

#[test]
fn a_connection_reaches_the_bind_of_its_label() {
    let mut broker: Broker<&'static str> = Broker::new();
    let mut ids = SessionIds::new();
    let mut bind_agent = agent();
    let session = broker.run(&mut ids);
    let mut web = bind_agent.bind(8080, "web", 7).unwrap_or_else(|_| panic!("web"));
    let mut ssh = bind_agent.bind(22, "ssh", 8).unwrap_or_else(|_| panic!("ssh"));
    for binding in [&mut web, &mut ssh] {
        let frame = registration(binding, &mut bind_agent);
        assert!(matches!(
            broker.accept_stream("agent", session.id(), parsed(&frame)),
            Accepted::Registered { renewed: false, .. }
        ));
    }

    let forward_agent = agent();
    for (label, queue, port) in [("web", 7, 8080), ("ssh", 8, 22), ("web", 7, 8080)] {
        let forward = forward_agent.forward(label).unwrap_or_else(|_| panic!("forward"));
        let sent = forwarded(&forward);
        assert_eq!(sent, data_frame(label));
        let (control, frame) = match broker.accept_stream("forward", 2, parsed(&sent)) {
            Accepted::Relay { control, dial } => (control, frame_of(dial)),
            _ => panic!("not relayed"),
        };
        assert_eq!(control, "agent");
        assert_eq!(frame, sent);
        assert_eq!(delivered(&bind_agent, parsed(&frame)), Some(queue));
        let binding = if label == "web" { &mut web } else { &mut ssh };
        assert!(matches!(
            binding.step(&mut bind_agent, BindEvent::Stream),
            BindAction::Connect(p) if p == port
        ));
        assert!(matches!(binding.step(&mut bind_agent, BindEvent::Connected), BindAction::Bridge));
    }
}

#[test]
fn bind_and_forward_share_an_agent() {
    let mut broker: Broker<&'static str> = Broker::default();
    let mut both = agent();
    let mut binding = both.bind(80, "web", 1).unwrap_or_else(|_| panic!("bind"));
    let frame = registration(&mut binding, &mut both);
    broker.accept_stream("both", 1, parsed(&frame));
    let forward = both.forward("web").unwrap_or_else(|_| panic!("forward"));
    let sent = forwarded(&forward);
    match broker.accept_stream("both", 1, parsed(&sent)) {
        Accepted::Relay { control, .. } => assert_eq!(control, "both"),
        _ => panic!("not relayed"),
    }
    assert_eq!(delivered(&both, parsed(&sent)), Some(1));
}

#[test]
fn an_unknown_label_leads_nowhere() {
    let mut broker: Broker<&'static str> = Broker::new();
    assert_eq!(relayed(&mut broker, "nope"), None);
    assert_eq!(
        text(broker.open_stream("nope")),
        "protocol error: label 'nope' not registered"
    );
    assert_eq!(delivered(&agent(), data("nope")), None);
}

#[test]
fn any_number_of_forwards_share_a_label() {
    let mut broker: Broker<&'static str> = Broker::new();
    broker.accept_stream("a", 1, register("srv"));
    for _ in 0..100 {
        assert_eq!(relayed(&mut broker, "srv"), Some(("a", data_frame("srv"))));
    }
}

#[test]
fn a_registered_label_can_be_opened_from_the_broker() {
    let mut broker: Broker<&'static str> = Broker::new();
    broker.accept_stream("a", 1, register("web"));
    let (control, dial) = broker.open_stream("web").unwrap_or_else(|_| panic!("open"));
    assert_eq!(control, "a");
    assert_eq!(frame_of(dial), data_frame("web"));
}

#[test]
fn a_refused_frame_changes_nothing() {
    let mut broker: Broker<&'static str> = Broker::new();
    broker.accept_stream("a", 1, register("web"));
    match broker.accept_stream("b", 2, Err(Error::Protocol("bad".to_string()))) {
        Accepted::Refused(e) => assert_eq!(e.to_string(), "protocol error: bad"),
        _ => panic!("not refused"),
    }
    assert_eq!(relayed(&mut broker, "web"), Some(("a", data_frame("web"))));
    assert!(matches!(
        agent().accept_stream(Err(Error::Protocol("bad".to_string()))),
        Delivery::Refused(Error::Protocol(t)) if t == "bad"
    ));
}

#[test]
fn a_label_bound_twice_is_refused() {
    let mut client = agent();
    assert!(client.bind(1, "web", 1).is_ok());
    assert_eq!(text(client.bind(2, "web", 2)), "protocol error: label 'web' already bound");
    assert_eq!(delivered(&client, data("web")), Some(1));
    assert!(client.bind(2, "api", 2).is_ok());
    assert_eq!(delivered(&client, data("api")), Some(2));
}

#[test]
fn invalid_labels_are_neither_bound_nor_forwarded() {
    let mut client = agent();
    assert_eq!(text(client.bind(1, "", 1)), "protocol error: label cannot be empty");
    assert_eq!(text(client.forward("a\nb")), "protocol error: label contains invalid characters");
    assert_eq!(
        text(client.bind(1, &"x".repeat(4097), 1)),
        "protocol error: label too long (max 4096 bytes)"
    );
}

#[test]
fn a_label_that_is_served_is_not_taken_over() {
    let mut broker: Broker<&'static str> = Broker::new();
    broker.accept_stream("first", 1, register("web"));
    assert!(matches!(
        broker.accept_stream("second", 2, register("web")),
        Accepted::Taken { label, notice: 1 } if label == "web"
    ));
    assert_eq!(relayed(&mut broker, "web"), Some(("first", data_frame("web"))));
    broker.release("web", 2);
    broker.end_session(2);
    assert_eq!(relayed(&mut broker, "web"), Some(("first", data_frame("web"))));
}

#[test]
fn a_session_may_renew_its_own_label() {
    let mut broker: Broker<&'static str> = Broker::new();
    broker.accept_stream("before", 1, register("web"));
    assert!(matches!(
        broker.accept_stream("after", 1, register("web")),
        Accepted::Registered { label, renewed: true } if label == "web"
    ));
    assert_eq!(relayed(&mut broker, "web"), Some(("after", data_frame("web"))));
}

#[test]
fn a_renewed_label_outlives_its_first_stream() {
    let mut broker: Broker<&'static str> = Broker::new();
    broker.accept_stream("before", 1, register("web"));
    broker.accept_stream("after", 1, register("web"));
    broker.accept_stream("other", 2, register("web"));
    broker.release("web", 1);
    assert_eq!(relayed(&mut broker, "web"), Some(("after", data_frame("web"))));
    broker.release("web", 1);
    assert_eq!(relayed(&mut broker, "web"), None);
    broker.release("web", 1);
    assert!(matches!(
        broker.accept_stream("other", 2, register("web")),
        Accepted::Registered { renewed: false, .. }
    ));
    broker.release("web", 2);
    assert_eq!(relayed(&mut broker, "web"), None);
}

#[test]
fn a_session_takes_all_streams_of_its_labels_with_it() {
    let mut broker: Broker<&'static str> = Broker::new();
    broker.accept_stream("a", 1, register("web"));
    broker.accept_stream("a", 1, register("web"));
    broker.end_session(1);
    assert_eq!(relayed(&mut broker, "web"), None);
    broker.accept_stream("b", 1, register("web"));
    broker.release("web", 1);
    assert_eq!(relayed(&mut broker, "web"), None);
}

#[test]
fn a_label_whose_bind_is_gone_can_be_registered_while_its_session_lives() {
    let mut broker: Broker<&'static str> = Broker::new();
    broker.accept_stream("old", 1, register("web"));
    broker.accept_stream("old", 1, register("api"));
    broker.release("web", 1);
    assert_eq!(relayed(&mut broker, "web"), None);
    assert_eq!(relayed(&mut broker, "api"), Some(("old", data_frame("api"))));
    assert!(matches!(
        broker.accept_stream("new", 2, register("web")),
        Accepted::Registered { renewed: false, .. }
    ));
    assert_eq!(relayed(&mut broker, "web"), Some(("new", data_frame("web"))));
    broker.release("web", 1);
    broker.end_session(1);
    assert_eq!(relayed(&mut broker, "web"), Some(("new", data_frame("web"))));
}

#[test]
fn a_second_bind_of_a_label_fails_at_the_broker() {
    let mut broker: Broker<&'static str> = Broker::new();
    let (mut c1, mut c2) = (agent(), agent());
    let mut first = c1.bind(1, "web", 1).unwrap_or_else(|_| panic!("first"));
    let mut second = c2.bind(2, "web", 2).unwrap_or_else(|_| panic!("second"));
    let frame = registration(&mut first, &mut c1);
    broker.accept_stream("c1", 1, parsed(&frame));
    let frame = registration(&mut second, &mut c2);
    assert!(matches!(
        broker.accept_stream("c2", 2, parsed(&frame)),
        Accepted::Taken { label, notice: 1 } if label == "web"
    ));
    match second.step(&mut c2, refusal()) {
        BindAction::Return(result) => {
            assert_eq!(text(result), "protocol error: label 'web' already bound")
        }
        _ => panic!("not returned"),
    }
    assert_eq!(relayed(&mut broker, "web"), Some(("c1", data_frame("web"))));
    assert_eq!(delivered(&c1, data("web")), Some(1));
    assert_eq!(delivered(&c2, data("web")), None);
    assert!(c2.bind(2, "web", 3).is_ok());
}

#[test]
fn a_bind_can_be_refused_at_every_stage_after_its_stream_is_open() {
    let mut client = agent();
    let mut binding = client.bind(9, "web", 1).unwrap_or_else(|_| panic!("bind"));
    assert!(matches!(binding.step(&mut client, refusal()), BindAction::Ignore));
    binding.step(&mut client, BindEvent::Opened);
    assert!(matches!(binding.step(&mut client, refusal()), BindAction::Return(Err(_))));
    assert!(matches!(binding.step(&mut client, refusal()), BindAction::Ignore));
    let mut binding = client.bind(9, "web", 1).unwrap_or_else(|_| panic!("bind"));
    registration(&mut binding, &mut client);
    binding.step(&mut client, BindEvent::Stream);
    assert!(matches!(binding.step(&mut client, refusal()), BindAction::Return(Err(_))));
    assert!(client.bind(9, "web", 1).is_ok());
}

#[test]
fn an_unknown_notice_changes_nothing() {
    let mut client = agent();
    let mut binding = client.bind(9, "web", 1).unwrap_or_else(|_| panic!("bind"));
    registration(&mut binding, &mut client);
    for notice in [0, 2, 255] {
        assert!(matches!(
            binding.step(&mut client, BindEvent::Notice(notice)),
            BindAction::Ignore
        ));
    }
    assert_eq!(delivered(&client, data("web")), Some(1));
    assert!(matches!(binding.step(&mut client, BindEvent::Stream), BindAction::Connect(9)));
}

#[test]
fn a_label_without_a_frame_cannot_be_led_to() {
    let mut broker: Broker<&'static str> = Broker::new();
    let long = "x".repeat(65_532);
    broker.accept_stream("a", 1, register(&long));
    assert_eq!(text(broker.open_stream(&long)), "protocol error: frame too large: 65536");
    match broker.accept_stream("b", 2, data(&long)) {
        Accepted::Refused(e) => assert_eq!(e.to_string(), "protocol error: frame too large: 65536"),
        _ => panic!("not refused"),
    }
    assert!(matches!(broker.accept_stream("b", 2, data(&long[1..])), Accepted::Unbound { .. }));
}

#[test]
fn an_ended_session_takes_its_labels_along() {
    let mut broker: Broker<&'static str> = Broker::new();
    broker.accept_stream("a", 1, register("web"));
    broker.accept_stream("b", 2, register("ssh"));
    broker.accept_stream("a", 1, register("api"));
    broker.end_session(1);
    assert_eq!(relayed(&mut broker, "web"), None);
    assert_eq!(relayed(&mut broker, "api"), None);
    assert_eq!(relayed(&mut broker, "ssh"), Some(("b", data_frame("ssh"))));
    broker.accept_stream("c", 3, register("web"));
    assert_eq!(relayed(&mut broker, "web"), Some(("c", data_frame("web"))));
}

#[test]
fn a_shutdown_forgets_labels_and_ends_sessions() {
    let mut broker: Broker<&'static str> = Broker::new();
    let mut ids = SessionIds::new();
    let mut before = broker.run(&mut ids);
    broker.accept_stream("a", before.id(), register("web"));
    assert_eq!(before.step(broker.generation(), SessionEvent::Woken), SessionAction::Continue);
    broker.shutdown();
    assert_eq!(relayed(&mut broker, "web"), None);
    assert_eq!(before.step(broker.generation(), SessionEvent::Stream), SessionAction::Close);
    let mut after = broker.run(&mut ids);
    assert_eq!((before.id(), after.id()), (1, 2));
    assert_eq!(after.step(broker.generation(), SessionEvent::Stream), SessionAction::Serve);
}

#[test]
fn ten_failures_in_a_row_end_a_session() {
    assert_eq!(MAX_SESSION_ERRORS, 10);
    let mut session = AgentSession::new(5, 0);
    for _ in 0..9 {
        assert_eq!(session.step(0, SessionEvent::Failed), SessionAction::Continue);
    }
    assert_eq!(session.step(0, SessionEvent::Stream), SessionAction::Serve);
    for _ in 0..9 {
        assert_eq!(session.step(0, SessionEvent::Failed), SessionAction::Continue);
    }
    assert_eq!(session.step(0, SessionEvent::Failed), SessionAction::Close);
    assert_eq!(session.step(0, SessionEvent::Stream), SessionAction::Close);
    let mut ended = AgentSession::new(6, 0);
    assert_eq!(ended.step(0, SessionEvent::Ended), SessionAction::Close);
}

#[test]
fn an_agent_passes_over_failures_until_its_session_ends() {
    let mut client = agent();
    assert!(client.bind(1, "web", 3).is_ok());
    for _ in 0..50 {
        assert_eq!(client.on_session(SessionEvent::Failed), SessionAction::Continue);
    }
    assert_eq!(client.on_session(SessionEvent::Stream), SessionAction::Serve);
    assert_eq!(delivered(&client, data("web")), Some(3));
    assert_eq!(delivered(&client, register("web")), None);
    assert_eq!(client.on_session(SessionEvent::Ended), SessionAction::Close);
    assert_eq!(delivered(&client, data("web")), None);
}

#[test]
fn a_failed_connection_makes_no_agent() {
    assert_eq!(
        text(AgentClient::<u32>::connect(Err("refused".to_string()))),
        "protocol error: refused"
    );
}

#[test]
fn an_unreachable_service_costs_one_stream() {
    let mut client = agent();
    let mut binding = client.bind(9, "web", 1).unwrap_or_else(|_| panic!("bind"));
    registration(&mut binding, &mut client);
    assert!(matches!(binding.step(&mut client, BindEvent::Opened), BindAction::Ignore));
    assert!(matches!(binding.step(&mut client, BindEvent::Stream), BindAction::Connect(9)));
    assert!(matches!(binding.step(&mut client, BindEvent::ConnectFailed), BindAction::Wait));
    assert!(matches!(binding.step(&mut client, BindEvent::Stream), BindAction::Connect(9)));
    assert!(matches!(binding.step(&mut client, BindEvent::Connected), BindAction::Bridge));
    assert!(matches!(binding.step(&mut client, BindEvent::Connected), BindAction::Ignore));
}

#[test]
fn a_bind_gives_up_its_label_when_it_returns() {
    for event in [BindEvent::QueueClosed, BindEvent::ShutDown] {
        let mut client = agent();
        let mut binding = client.bind(9, "web", 1).unwrap_or_else(|_| panic!("bind"));
        registration(&mut binding, &mut client);
        assert!(matches!(binding.step(&mut client, event), BindAction::Return(Ok(()))));
        assert!(client.bind(9, "web", 2).is_ok());
    }
}

#[test]
fn a_bind_that_cannot_register_fails() {
    let mut client = agent();
    let mut binding = client.bind(9, "web", 1).unwrap_or_else(|_| panic!("bind"));
    match binding.step(&mut client, BindEvent::Opened) {
        BindAction::Register(bytes) => assert_eq!(bytes, [0, 5, 0, 3, b'w', b'e', b'b']),
        _ => panic!("no registration"),
    }
    let lost = Error::Io(std::io::Error::new(std::io::ErrorKind::Other, "gone"));
    match binding.step(&mut client, BindEvent::WriteFailed(lost)) {
        BindAction::Return(result) => assert_eq!(text(result), "I/O error: gone"),
        _ => panic!("not returned"),
    }
    assert!(client.bind(9, "web", 2).is_ok());
}

#[test]
fn a_bind_without_a_stream_fails_and_stays_bound() {
    let mut client = agent();
    let mut binding = client.bind(9, "web", 1).unwrap_or_else(|_| panic!("bind"));
    match binding.step(&mut client, BindEvent::OpenFailed("closed".to_string())) {
        BindAction::Return(result) => assert_eq!(text(result), "protocol error: closed"),
        _ => panic!("not returned"),
    }
    assert_eq!(text(client.bind(9, "web", 2)), "protocol error: label 'web' already bound");
}

#[test]
fn a_forward_returns_on_failure_and_on_shutdown() {
    let forward = agent().forward("web").unwrap_or_else(|_| panic!("forward"));
    match forward.step(ForwardEvent::Failed(Error::Protocol("port".to_string()))) {
        ForwardAction::Return(result) => assert_eq!(text(result), "protocol error: port"),
        _ => panic!("not returned"),
    }
    assert!(matches!(forward.step(ForwardEvent::ShutDown), ForwardAction::Return(Ok(()))));
}

#[test]
fn a_dialled_stream_carries_one_frame() {
    let mut dial = Dial::new(vec![1, 2]);
    assert!(matches!(dial.step(DialEvent::Opened), DialAction::Write(b) if b == [1, 2]));
    assert!(matches!(dial.step(DialEvent::Written), DialAction::Bridge));
    assert!(matches!(dial.step(DialEvent::Ended), DialAction::Close));
    assert!(matches!(dial.step(DialEvent::Opened), DialAction::Close));
    let mut failed = Dial::new(vec![1]);
    assert!(matches!(failed.step(DialEvent::Failed), DialAction::Close));
    assert!(matches!(failed.step(DialEvent::Opened), DialAction::Close));
    let mut unwritten = Dial::new(vec![1]);
    unwritten.step(DialEvent::Opened);
    assert!(matches!(unwritten.step(DialEvent::Failed), DialAction::Close));
}

#[test]
fn a_stream_that_cannot_be_opened_is_a_protocol_error() {
    assert_eq!(opened_stream(Ok(5)).unwrap_or(0), 5);
    assert_eq!(text(opened_stream::<u8>(Err("gone".to_string()))), "protocol error: gone");
}

#[test]
fn only_a_failure_to_accept_stops_the_broker() {
    let listen = Broker::<u8>::listen;
    assert!(matches!(listen(ListenEvent::Connected { keepalive: false }), ListenAction::Upgrade));
    assert!(matches!(listen(ListenEvent::Connected { keepalive: true }), ListenAction::Upgrade));
    assert!(matches!(listen(ListenEvent::UpgradeFailed), ListenAction::Skip));
    assert!(matches!(listen(ListenEvent::Upgraded), ListenAction::Serve));
    assert!(matches!(
        listen(ListenEvent::AcceptFailed(Error::Protocol("x".to_string()))),
        ListenAction::Stop(Error::Protocol(t)) if t == "x"
    ));
}

#[test]
fn a_table_holds_one_value_per_label() {
    let mut table: LabelTable<u8> = LabelTable::new();
    assert_eq!(table.get("a"), None);
    assert_eq!(table.insert("a".to_string(), 1), None);
    assert_eq!(table.insert("b".to_string(), 2), None);
    assert_eq!(table.insert("a".to_string(), 3), Some(1));
    assert_eq!(table.get("a"), Some(&3));
    assert_eq!(table.remove("a"), Some(3));
    assert_eq!(table.remove("a"), None);
    assert_eq!(table.get("b"), Some(&2));
    table.clear();
    assert_eq!(table.get("b"), None);
}
