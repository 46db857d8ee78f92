//! The command line of the agent: what its arguments mean, and how it keeps its connection.

use vstd::prelude::*;
use vstd::string::*;

use crate::text;

verus! {

/// Where the broker is, unless told otherwise.
pub const DEFAULT_SERVER: &'static str = "127.0.0.1:7799";

/// Seconds before the next attempt to connect.
pub const RETRY_DELAY_SECS: u64 = 3;

/// Whether all characters are decimal digits.
pub open spec fn all_digits(s: Seq<char>) -> bool {
    forall|i: int| 0 <= i < s.len() ==> '0' <= #[trigger] s[i] <= '9'
}

/// The number that decimal digits write.
pub open spec fn digits_value(s: Seq<char>) -> nat
    decreases s.len(),
{
    if s.len() == 0 {
        0
    } else {
        (10 * digits_value(s.drop_last()) + (s.last() as nat - '0' as nat)) as nat
    }
}

/// The port that a text writes: digits, with or without a plus sign before them, of a number that
/// is a port.
pub open spec fn port_value(s: Seq<char>) -> Option<u16> {
    let digits = if s.len() > 0 && s[0] == '+' {
        s.drop_first()
    } else {
        s
    };
    if digits.len() > 0 && all_digits(digits) && digits_value(digits) <= u16::MAX {
        Some(digits_value(digits) as u16)
    } else {
        None
    }
}

/// What `str::parse` says of a text that is no `u16`.
pub uninterp spec fn port_failure(s: Seq<char>) -> Seq<char>;

/// `str::parse` for a `u16`.
///
/// Claimed of it: it takes an optional plus sign followed by digits only, of a number that fits, and
/// nothing else. What the error displays depends on the text alone; which text that is, is not said.
#[verifier::external_body]
fn parse_port(s: &str) -> (parsed: Result<u16, String>)
    ensures
        match port_value(s@) {
            Some(port) => parsed == Ok::<u16, String>(port),
            None => parsed matches Err(failure) && failure@ == port_failure(s@),
        },
{
    s.parse::<u16>().map_err(|e| e.to_string())
}

/// What a parsed port and a label make, or the message of the failure.
pub open spec fn make_pair(
    port: Seq<char>,
    parsed: Result<u16, Seq<char>>,
    label: Seq<char>,
) -> Result<(u16, Seq<char>), Seq<char>> {
    match parsed {
        Err(failure) => Err("invalid port '"@ + port + "': "@ + failure),
        Ok(n) => if label.len() == 0 {
            Err("label cannot be empty"@)
        } else {
            Ok((n, label))
        },
    }
}

/// The port and the label that an argument names, or the message of the failure.
pub open spec fn read_pair(s: Seq<char>) -> Result<(u16, Seq<char>), Seq<char>> {
    if !s.contains(':') {
        Err("expected PORT:LABEL, got '"@ + s + "'"@)
    } else {
        let colon = text::position(s, ':') as int;
        let port = s.take(colon);
        make_pair(
            port,
            match port_value(port) {
                Some(n) => Ok(n),
                None => Err(port_failure(port)),
            },
            s.skip(colon + 1),
        )
    }
}

/// Whether a pair, or its failure, is the one that is meant.
pub open spec fn is_pair(
    pair: Result<(u16, String), String>,
    meant: Result<(u16, Seq<char>), Seq<char>>,
) -> bool {
    match meant {
        Ok((port, label)) => pair matches Ok((p, l)) && p == port && l@ == label,
        Err(failure) => pair matches Err(f) && f@ == failure,
    }
}

/// Puts a port and a label together. `port` is the text that `parsed` came from.
pub fn pair_of(port: &str, parsed: Result<u16, String>, label: &str) -> (pair: Result<
    (u16, String),
    String,
>)
    ensures
        is_pair(
            pair,
            make_pair(
                port@,
                match parsed {
                    Ok(n) => Ok(n),
                    Err(failure) => Err(failure@),
                },
                label@,
            ),
        ),
{
    match parsed {
        Err(failure) => {
            let mut message = text::join3("invalid port '", port, "': ");
            message.append(failure.as_str());
            Err(message)
        },
        Ok(n) => if label.is_empty() {
            Err("label cannot be empty".to_owned())
        } else {
            Ok((n, label.to_owned()))
        },
    }
}

/// Reads an argument of the form PORT:LABEL. The first colon is the one that counts.
pub fn parse_pair(s: &str) -> (pair: Result<(u16, String), String>)
    ensures
        is_pair(pair, read_pair(s@)),
{
    match text::split_once(s, ':') {
        None => Err(text::join3("expected PORT:LABEL, got '", s, "'")),
        Some((port, label)) => pair_of(port, parse_port(port), label),
    }
}

/// A number in decimal consists of digits and is read as that number.
proof fn decimal_reads_back(n: nat)
    ensures
        text::decimal(n).len() > 0,
        all_digits(text::decimal(n)),
        digits_value(text::decimal(n)) == n,
    decreases n,
{
    let s = text::decimal(n);
    if n < 10 {
        assert(s.drop_last() =~= Seq::<char>::empty());
        reveal_with_fuel(digits_value, 2);
    } else {
        decimal_reads_back(n / 10);
        assert(s.drop_last() =~= text::decimal(n / 10));
    }
}

/// A port in decimal, a colon and a label that is not empty are read as that port and that label,
/// whatever the label holds.
pub proof fn pair_reads_back(port: u16, label: Seq<char>)
    requires
        label.len() > 0,
    ensures
        read_pair(text::decimal(port as nat) + seq![':'] + label) == Ok::<
            (u16, Seq<char>),
            Seq<char>,
        >((port, label)),
{
    let digits = text::decimal(port as nat);
    let s = digits + seq![':'] + label;
    let colon = digits.len() as int;
    decimal_reads_back(port as nat);
    assert(s[colon] == ':');
    assert forall|j: int| 0 <= j < colon implies s[j] != ':' by {
        assert(s[j] == digits[j]);
    }
    text::position_is_first(s, ':', colon);
    assert(s.take(colon) =~= digits);
    assert(s.skip(colon + 1) =~= label);
    assert(digits[0] != '+');
}

/// What the program is to be.
#[derive(Debug, Clone, Copy, PartialEq, Eq)]
pub enum Mode {
    /// The broker itself.
    Broker,
    /// An agent of the broker.
    Agent,
}

/// Decides what the program is to be: the broker where nothing is bound and nothing forwarded.
pub fn mode(binds: &Vec<(u16, String)>, forwards: &Vec<(u16, String)>) -> (mode: Mode)
    ensures
        mode == (if binds@.len() == 0 && forwards@.len() == 0 {
            Mode::Broker
        } else {
            Mode::Agent
        }),
{
    if binds.len() == 0 && forwards.len() == 0 {
        Mode::Broker
    } else {
        Mode::Agent
    }
}

/// What became of the connection to the broker.
#[derive(Debug, Clone, Copy, PartialEq, Eq)]
pub enum LinkEvent {
    /// It was made.
    Connected,
    /// It could not be made.
    ConnectFailed,
    /// Everything that used it has come to an end.
    Ended,
    /// The delay has passed.
    Rested,
}

/// What to do about the connection to the broker.
#[derive(Debug, Clone, Copy, PartialEq, Eq)]
pub enum LinkAction {
    /// Make it.
    Connect,
    /// Start all that is to be bound and forwarded.
    Work,
    /// Wait for so many seconds.
    Rest(u64),
}

/// Decides about the connection to the broker: one that fails or ends is made again after a delay,
/// without limit.
pub fn keep_link(event: LinkEvent) -> (action: LinkAction)
    ensures
        action == (match event {
            LinkEvent::Connected => LinkAction::Work,
            LinkEvent::ConnectFailed => LinkAction::Rest(RETRY_DELAY_SECS),
            LinkEvent::Ended => LinkAction::Rest(RETRY_DELAY_SECS),
            LinkEvent::Rested => LinkAction::Connect,
        }),
{
    match event {
        LinkEvent::Connected => LinkAction::Work,
        LinkEvent::ConnectFailed => LinkAction::Rest(RETRY_DELAY_SECS),
        LinkEvent::Ended => LinkAction::Rest(RETRY_DELAY_SECS),
        LinkEvent::Rested => LinkAction::Connect,
    }
}

} // verus!
