//! What the operations on addresses, arguments and messages do, told by their characters.

use vstd::prelude::*;
use vstd::string::*;

use crate::cli::{LinkAction, LinkEvent, Mode};
use crate::error::Error;
use crate::transport::Incoming;
use crate::{agent, broker, cli, text, transport};

verus! {

/// The URL for an address is the whole address behind `ws://`, unchanged, for every address that
/// starts with neither `ws://` nor `wss://`, and the address itself for every other.
pub proof fn a_url_is_the_whole_address(addr: &str, url: String)
    requires
        call_ensures(transport::server_url, (addr,), url),
    ensures
        !"ws://"@.is_prefix_of(addr@) && !"wss://"@.is_prefix_of(addr@) ==> url@ == "ws://"@ + addr@,
        "ws://"@.is_prefix_of(addr@) || "wss://"@.is_prefix_of(addr@) ==> url@ == addr@,
{
}

/// Of what a WebSocket delivers, the data of every message but the closing one goes on, unchanged,
/// and so does every failure.
pub proof fn messages_are_delivered<D, E>(
    item: Incoming<D, E>,
    delivered: Option<Result<D, E>>,
)
    requires
        call_ensures(transport::deliver::<D, E>, (item,), delivered),
    ensures
        delivered is None <==> (item matches Incoming::Message { is_close, .. } && is_close),
        item matches Incoming::Message { is_close, data } ==> !is_close ==> delivered == Some(
            Ok::<D, E>(data),
        ),
        item matches Incoming::Failed(e) ==> delivered == Some(Err::<D, E>(e)),
{
}

/// The last character of a number in decimal is its last digit, and what stands before is the tenth
/// part in decimal, where there is one.
pub proof fn a_number_is_written_digit_by_digit(n: u64, s: String, tenth: String)
    requires
        call_ensures(text::decimal_text, (n,), s),
        call_ensures(text::decimal_text, (n / 10,), tenth),
    ensures
        s@.len() > 0,
        s@.last() as int == '0' as int + n % 10,
        n < 10 ==> s@.len() == 1,
        n >= 10 ==> s@.drop_last() == tenth@,
{
    let whole = text::decimal(n as nat);
    if n >= 10 {
        assert(whole.drop_last() =~= text::decimal((n / 10) as nat));
    }
}

/// The same of every number, however large.
pub proof fn decimals_are_digits(n: nat)
    ensures
        text::decimal(n).len() > 0,
        text::decimal(n).last() as int == '0' as int + n % 10,
        n < 10 ==> text::decimal(n).len() == 1,
        n >= 10 ==> text::decimal(n).drop_last() == text::decimal(n / 10),
{
    if n >= 10 {
        assert(text::decimal(n).drop_last() =~= text::decimal(n / 10));
    }
}

/// A text holds a character if and only if the character stands at some place of it.
pub proof fn a_character_is_found(s: &str, wanted: char, found: bool)
    requires
        call_ensures(text::contains_char, (s, wanted), found),
    ensures
        found <==> exists|i: int| 0 <= i < s@.len() && #[trigger] s@[i] == wanted,
{
}

/// A text starts with another if and only if it is that text and something behind it.
pub proof fn a_prefix_is_found(s: &str, prefix: &str, starts: bool)
    requires
        call_ensures(text::starts_with, (s, prefix), starts),
    ensures
        starts <==> prefix@.len() <= s@.len() && s@ == prefix@ + s@.skip(prefix@.len() as int),
{
    let n = prefix@.len() as int;
    if starts {
        assert(s@ =~= prefix@ + s@.skip(n));
    }
    if prefix@.len() <= s@.len() && s@ == prefix@ + s@.skip(n) {
        assert(s@.subrange(0, n) =~= prefix@);
    }
}

/// Where the first occurrence is: nothing before it is one, and it is one, if there is any.
proof fn first_position(s: Seq<char>, wanted: char)
    requires
        s.contains(wanted),
    ensures
        0 <= text::position(s, wanted) < s.len(),
        s[text::position(s, wanted) as int] == wanted,
        !s.take(text::position(s, wanted) as int).contains(wanted),
    decreases s.len(),
{
    if s[0] != wanted {
        let i = choose|i: int| 0 <= i < s.len() && s[i] == wanted;
        assert(s.drop_first()[i - 1] == wanted);
        first_position(s.drop_first(), wanted);
        let p = text::position(s.drop_first(), wanted) as int;
        let head = s.take(p + 1);
        if head.contains(wanted) {
            let j = choose|j: int| 0 <= j < head.len() && head[j] == wanted;
            assert(s.drop_first().take(p)[j - 1] == wanted);
        }
    }
}

/// A text is split if and only if it holds the character: into what stands before it, which does
/// not hold it, and what stands behind it.
pub proof fn a_text_is_split_at_the_first_occurrence(
    s: &str,
    wanted: char,
    split: Option<(&str, &str)>,
)
    requires
        call_ensures(text::split_once, (s, wanted), split),
    ensures
        split is Some <==> s@.contains(wanted),
        split matches Some((before, behind)) ==> s@ == before@ + seq![wanted] + behind@
            && !before@.contains(wanted),
{
    if split is Some {
        first_position(s@, wanted);
        let (before, behind) = split->0;
        assert(s@ =~= before@ + seq![wanted] + behind@);
    }
}

/// Three pieces are joined in their order.
pub proof fn pieces_are_joined_in_order(a: &str, b: &str, c: &str, s: String)
    requires
        call_ensures(text::join3, (a, b, c), s),
    ensures
        s@ == a@ + b@ + c@,
{
}

/// A protocol error shows its own text behind its prefix, and an I/O error what it displays.
pub proof fn an_error_shows_its_text(error: &Error, shown: String)
    requires
        call_ensures(Error::to_string, (error,), shown),
    ensures
        error matches Error::Protocol(message) ==> shown@ == "protocol error: "@ + message@,
        error matches Error::Io(e) ==> exists|inner: String|
            #[trigger] to_string_from_display_ensures::<std::io::Error>(e, inner) && shown@
                == "I/O error: "@ + inner@,
{
}

/// An I/O error is kept as it is.
pub proof fn an_io_error_is_kept(error: std::io::Error, kept: Error)
    requires
        call_ensures(<Error as From<std::io::Error>>::from, (error,), kept),
    ensures
        kept == Error::Io(error),
{
}

/// What writes a port: digits and nothing else, behind a plus sign or not, of a number up to 65535.
/// The number that digits write is ten times the number that all but the last write, and the last.
pub proof fn a_port_is_written_in_digits(digits: Seq<char>, last: char)
    ensures
        cli::digits_value(Seq::empty()) == 0,
        '0' <= last <= '9' ==> cli::digits_value(digits.push(last)) == 10 * cli::digits_value(digits)
            + (last as int - '0' as int),
        digits.len() > 0 && (forall|i: int|
            0 <= i < digits.len() ==> '0' <= #[trigger] digits[i] <= '9') && cli::digits_value(
            digits,
        ) <= 65535 <==> cli::port_value(seq!['+'] + digits) is Some,
        cli::port_value(seq!['+'] + digits) matches Some(port) ==> port == cli::digits_value(digits),
        digits.len() > 0 && digits[0] != '+' ==> cli::port_value(digits) == cli::port_value(
            seq!['+'] + digits,
        ),
        cli::port_value(Seq::empty()) is None,
{
    assert(digits.push(last).drop_last() =~= digits);
    assert((seq!['+'] + digits).drop_first() =~= digits);
}

/// A port and a label make a pair if and only if the port was read and the label is not empty. The
/// pair holds both as they are; a port that was not read is quoted with the failure.
pub proof fn a_pair_holds_its_port_and_label(
    port: &str,
    parsed: Result<u16, String>,
    label: &str,
    pair: Result<(u16, String), String>,
)
    requires
        call_ensures(cli::pair_of, (port, parsed, label), pair),
    ensures
        pair is Ok <==> parsed is Ok && label@.len() > 0,
        pair matches Ok((p, l)) ==> parsed == Ok::<u16, String>(p) && l@ == label@,
        parsed matches Err(failure) ==> (pair matches Err(t) && t@ == "invalid port '"@ + port@
            + "': "@ + failure@),
        parsed is Ok && label@.len() == 0 ==> (pair matches Err(t) && t@ == "label cannot be empty"@),
{
}

/// An argument is read as a port, the first colon, and a label: for every text without a colon and
/// every text behind the colon, the port is the number that the first writes and the label is the
/// second, unchanged and whole. It fails where the first writes no port, and where the second is
/// empty.
pub proof fn an_argument_is_a_port_and_a_label(
    s: &str,
    port: Seq<char>,
    label: Seq<char>,
    pair: Result<(u16, String), String>,
)
    requires
        call_ensures(cli::parse_pair, (s,), pair),
        s@ == port + seq![':'] + label,
        !port.contains(':'),
    ensures
        pair is Ok <==> cli::port_value(port) is Some && label.len() > 0,
        pair matches Ok((p, l)) ==> cli::port_value(port) == Some(p) && l@ == label,
        cli::port_value(port) is None ==> (pair matches Err(t) && t@ == "invalid port '"@ + port
            + "': "@ + cli::port_failure(port)),
        cli::port_value(port) is Some && label.len() == 0 ==> (pair matches Err(t) && t@
            == "label cannot be empty"@),
{
    let n = port.len() as int;
    assert(s@[n] == ':');
    assert forall|j: int| 0 <= j < n implies s@[j] != ':' by {
        assert(s@[j] == port[j]);
    }
    text::position_is_first(s@, ':', n);
    assert(s@.take(n) =~= port);
    assert(s@.skip(n + 1) =~= label);
}

/// An argument without a colon is refused, and quoted whole.
pub proof fn an_argument_needs_a_colon(s: &str, pair: Result<(u16, String), String>)
    requires
        call_ensures(cli::parse_pair, (s,), pair),
        !s@.contains(':'),
    ensures
        pair matches Err(t) && t@ == "expected PORT:LABEL, got '"@ + s@ + "'"@,
{
}

/// Every port can be given: its decimal digits, a colon and any label that is not empty are read as
/// that port and that label.
pub proof fn every_port_can_be_given(
    port: u16,
    digits: String,
    label: Seq<char>,
    s: &str,
    pair: Result<(u16, String), String>,
)
    requires
        call_ensures(text::decimal_text, (port as u64,), digits),
        label.len() > 0,
        s@ == digits@ + seq![':'] + label,
        call_ensures(cli::parse_pair, (s,), pair),
    ensures
        pair matches Ok((p, l)) && p == port && l@ == label,
{
    cli::pair_reads_back(port, label);
}

/// The program is an agent if and only if something is to be bound or forwarded.
pub proof fn an_agent_has_work(
    binds: &Vec<(u16, String)>,
    forwards: &Vec<(u16, String)>,
    mode: Mode,
)
    requires
        call_ensures(cli::mode, (binds, forwards), mode),
    ensures
        mode == Mode::Agent <==> binds@.len() + forwards@.len() > 0,
        mode == Mode::Broker <==> binds@.len() + forwards@.len() == 0,
{
}

/// A connection that cannot be made or has ended is made again after three seconds, and one that was
/// made is put to work.
pub proof fn a_lost_connection_is_made_again(
    event: LinkEvent,
    action: LinkAction,
    next: LinkAction,
)
    requires
        call_ensures(cli::keep_link, (event,), action),
        call_ensures(cli::keep_link, (LinkEvent::Rested,), next),
    ensures
        action == LinkAction::Rest(3) <==> event == LinkEvent::ConnectFailed || event
            == LinkEvent::Ended,
        action == LinkAction::Work <==> event == LinkEvent::Connected,
        action == LinkAction::Connect <==> event == LinkEvent::Rested,
        next == LinkAction::Connect,
{
}

/// The numbers and the address that users rely on.
pub proof fn the_defaults_are_these()
    ensures
        cli::DEFAULT_SERVER@ == "127.0.0.1:7799"@,
        broker::KEEPALIVE_TIME_SECS == 30,
        broker::KEEPALIVE_INTERVAL_SECS == 10,
        agent::STREAM_QUEUE == 64,
{
}

} // verus!
