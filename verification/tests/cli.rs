use agent_pair::cli::{
    keep_link, mode, pair_of, parse_pair, LinkAction, LinkEvent, Mode, DEFAULT_SERVER,
};
use agent_pair::transport::{deliver, server_url, Incoming};

#[test]
fn pairs_are_parsed() {
    assert_eq!(parse_pair("8080:web"), Ok((8080, "web".to_string())));
    assert_eq!(parse_pair("0:x"), Ok((0, "x".to_string())));
    assert_eq!(parse_pair("65535:x"), Ok((65535, "x".to_string())));
    assert_eq!(parse_pair("+0080:web"), Ok((80, "web".to_string())));
    assert_eq!(parse_pair("80:a:b"), Ok((80, "a:b".to_string())));
    assert_eq!(parse_pair("80: \u{e9}"), Ok((80, " \u{e9}".to_string())));
}

#[test]
fn broken_pairs_are_refused() {
    assert_eq!(parse_pair("8080"), Err("expected PORT:LABEL, got '8080'".to_string()));
    assert_eq!(parse_pair(""), Err("expected PORT:LABEL, got ''".to_string()));
    assert_eq!(parse_pair("8080:"), Err("label cannot be empty".to_string()));
    assert_eq!(
        parse_pair("x1:web"),
        Err("invalid port 'x1': invalid digit found in string".to_string())
    );
    assert_eq!(
        parse_pair(":web"),
        Err("invalid port '': cannot parse integer from empty string".to_string())
    );
    assert_eq!(
        parse_pair("65536:"),
        Err("invalid port '65536': number too large to fit in target type".to_string())
    );
    for port in ["-1", "+", "1_0", " 1", "1 ", "+-1", "++1", "\u{661}"] {
        let meant = port.parse::<u16>().unwrap_err();
        assert_eq!(parse_pair(&format!("{port}:a")), Err(format!("invalid port '{port}': {meant}")));
    }
}

#[test]
fn every_port_is_read_back() {
    for port in 0..=65535u16 {
        assert_eq!(parse_pair(&format!("{port}:label")), Ok((port, "label".to_string())));
    }
}

#[test]
fn a_failed_port_is_reported_before_an_empty_label() {
    assert_eq!(pair_of("p", Err("why".to_string()), ""), Err("invalid port 'p': why".to_string()));
    assert_eq!(pair_of("7", Ok(7), ""), Err("label cannot be empty".to_string()));
    assert_eq!(pair_of("7", Ok(7), "l"), Ok((7, "l".to_string())));
}

#[test]
fn without_work_the_program_is_the_broker() {
    let some = vec![(1u16, "a".to_string())];
    assert_eq!(mode(&vec![], &vec![]), Mode::Broker);
    assert_eq!(mode(&some, &vec![]), Mode::Agent);
    assert_eq!(mode(&vec![], &some), Mode::Agent);
    assert_eq!(DEFAULT_SERVER, "127.0.0.1:7799");
}

#[test]
fn a_lost_link_is_made_again_after_three_seconds() {
    assert_eq!(keep_link(LinkEvent::Connected), LinkAction::Work);
    assert_eq!(keep_link(LinkEvent::ConnectFailed), LinkAction::Rest(3));
    assert_eq!(keep_link(LinkEvent::Ended), LinkAction::Rest(3));
    assert_eq!(keep_link(LinkEvent::Rested), LinkAction::Connect);
}

#[test]
fn addresses_become_urls() {
    assert_eq!(server_url("relay:7799"), "ws://relay:7799");
    assert_eq!(server_url("ws://relay:7799"), "ws://relay:7799");
    assert_eq!(server_url("wss://relay"), "wss://relay");
    assert_eq!(server_url("http://relay"), "ws://http://relay");
    assert_eq!(server_url("ws:/"), "ws://ws:/");
    assert_eq!(server_url(""), "ws://");
    assert_eq!(server_url(&server_url("relay")), "ws://relay");
}

#[test]
fn close_messages_carry_nothing() {
    let message = |is_close: bool| Incoming::<&str, u8>::Message { is_close, data: "d" };
    assert_eq!(deliver(message(true)), None);
    assert_eq!(deliver(message(false)), Some(Ok("d")));
    assert_eq!(deliver(Incoming::<&str, u8>::Failed(4)), Some(Err(4)));
}
