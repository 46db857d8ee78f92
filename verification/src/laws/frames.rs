//! What the operations on frames and labels do, told by the bytes and the characters.

use vstd::prelude::*;
use vstd::utf8::*;

use crate::error::Error;
use crate::protocol::{ReadStep, StreamKind};
use crate::{protocol, text, wire};

verus! {

/// A label is accepted if and only if it has a character, takes at most 4096 bytes in UTF-8, and
/// none of its characters is a line feed or a carriage return.
pub proof fn a_label_is_valid_by_three_conditions(label: &str, valid: Result<(), Error>)
    requires
        call_ensures(protocol::validate_label, (label,), valid),
    ensures
        valid is Ok <==> label@.len() > 0 && encode_utf8(label@).len() <= 4096 && forall|i: int|
            0 <= i < label@.len() ==> #[trigger] label@[i] != '\n' && label@[i] != '\r',
{
    if valid is Err && label@.len() > 0 && encode_utf8(label@).len() <= 4096 {
        assert(exists|i: int|
            0 <= i < label@.len() && (#[trigger] label@[i] == '\n' || label@[i] == '\r'));
    }
}

/// A label that is refused is refused for its first fault: that it is empty, that it is too long, or
/// that it does not stand on one line.
pub proof fn a_refused_label_is_told_why(label: &str, valid: Result<(), Error>)
    requires
        call_ensures(protocol::validate_label, (label,), valid),
        valid is Err,
    ensures
        valid matches Err(Error::Protocol(t)) && t@ == (if label@.len() == 0 {
            "label cannot be empty"@
        } else if encode_utf8(label@).len() > 4096 {
            "label too long (max 4096 bytes)"@
        } else {
            "label contains invalid characters"@
        }),
{
}

/// How many bytes the varint of a length takes, and which.
proof fn varint_of_a_length(n: nat)
    ensures
        wire::varint(0) == seq![0u8],
        wire::varint(1) == seq![1u8],
        n < 128 ==> wire::varint(n) == seq![n as u8],
        128 <= n < 16384 ==> wire::varint(n) == seq![(n % 128 + 128) as u8, (n / 128) as u8],
        16384 <= n < 2097152 ==> wire::varint(n) == seq![
            (n % 128 + 128) as u8,
            (n / 128 % 128 + 128) as u8,
            (n / 16384) as u8,
        ],
        n >= 16384 ==> wire::varint(n).len() >= 3,
{
    reveal_with_fuel(wire::varint, 4);
    assert(n / 128 / 128 == n / 16384);
    if n >= 16384 {
        wire::varint_reads_back(n / 128 / 128, Seq::empty());
    }
    if 128 <= n < 16384 {
        assert(wire::varint(n) =~= seq![(n % 128 + 128) as u8, (n / 128) as u8]);
    }
    if 16384 <= n < 2097152 {
        assert(wire::varint(n) =~= seq![
            (n % 128 + 128) as u8,
            (n / 128 % 128 + 128) as u8,
            (n / 16384) as u8,
        ]);
    }
}

/// A payload is the byte 0 for a registration and the byte 1 for a connection, whatever the label,
/// and then the label as a text.
pub proof fn a_payload_starts_with_its_kind(kind: &StreamKind, encoded: Result<Vec<u8>, Error>)
    requires
        call_ensures(protocol::encode_payload, (kind,), encoded),
    ensures
        encoded is Ok,
        kind matches StreamKind::Register { label } ==> encoded->Ok_0@ == seq![0u8]
            + wire::text_bytes(label@),
        kind matches StreamKind::Data { label } ==> encoded->Ok_0@ == seq![1u8] + wire::text_bytes(
            label@,
        ),
{
    varint_of_a_length(0);
}

/// A frame is written if and only if its label takes at most 65531 bytes in UTF-8. A frame that
/// would be longer is refused with the length that its payload would have.
pub proof fn a_frame_is_written_if_its_length_fits(
    kind: &StreamKind,
    label: String,
    written: Result<Vec<u8>, Error>,
)
    requires
        call_ensures(protocol::write_frame, (kind,), written),
        *kind == (StreamKind::Register { label }) || *kind == (StreamKind::Data { label }),
    ensures
        written is Ok <==> encode_utf8(label@).len() <= 65531,
        written is Err ==> (written matches Err(Error::Protocol(t)) && t@ == "frame too large: "@
            + text::decimal(1 + wire::text_bytes(label@).len())),
{
    varint_of_a_length(0);
    varint_of_a_length(encode_utf8(label@).len());
}

/// A frame on the wire: two bytes that tell the length of the rest, most significant first; the byte
/// 0 for a registration or the byte 1 for a connection; the length of the label in UTF-8, seven bits
/// to a byte, least significant first, the high bit set on all but the last; and the label in UTF-8.
pub proof fn a_frame_is_made_of_these_bytes(
    kind: &StreamKind,
    label: String,
    written: Result<Vec<u8>, Error>,
)
    requires
        call_ensures(protocol::write_frame, (kind,), written),
        *kind == (StreamKind::Register { label }) || *kind == (StreamKind::Data { label }),
        written is Ok,
    ensures
        ({
            let bytes = written->Ok_0@;
            let utf8 = encode_utf8(label@);
            let n = utf8.len();
            &&& bytes[0] * 256 + bytes[1] == bytes.len() - 2
            &&& bytes[2] == (if kind is Register {
                0u8
            } else {
                1u8
            })
            &&& n < 128 ==> bytes[3] == n && bytes.skip(4) == utf8
            &&& 128 <= n < 16384 ==> bytes[3] == n % 128 + 128 && bytes[4] == n / 128 && bytes.skip(
                5,
            ) == utf8
            &&& 16384 <= n ==> bytes[3] == n % 128 + 128 && bytes[4] == n / 128 % 128 + 128
                && bytes[5] == n / 16384 && bytes.skip(6) == utf8
        }),
{
    let bytes = written->Ok_0@;
    let utf8 = encode_utf8(label@);
    let n = utf8.len();
    a_frame_is_written_if_its_length_fits(kind, label, written);
    varint_of_a_length(0);
    varint_of_a_length(n);
    if n < 128 {
        assert(bytes.skip(4) =~= utf8);
    } else if n < 16384 {
        assert(bytes.skip(5) =~= utf8);
    } else {
        assert(bytes.skip(6) =~= utf8);
    }
}

/// A frame is its payload behind the two bytes of its length.
pub proof fn a_frame_carries_its_payload(
    kind: &StreamKind,
    encoded: Result<Vec<u8>, Error>,
    written: Result<Vec<u8>, Error>,
)
    requires
        call_ensures(protocol::encode_payload, (kind,), encoded),
        call_ensures(protocol::write_frame, (kind,), written),
        written is Ok,
    ensures
        encoded is Ok,
        written->Ok_0@.skip(2) == encoded->Ok_0@,
        encoded->Ok_0@.len() <= 65535,
{
    assert(written->Ok_0@.skip(2) =~= encoded->Ok_0@);
}

/// A reader asks for the two bytes of the length and then for the payload that they announce, and
/// refuses a payload of more than 4096 bytes as soon as it is announced.
pub proof fn a_reader_asks_for_what_is_missing(received: &[u8], step: ReadStep)
    requires
        call_ensures(protocol::read_frame, (received,), step),
    ensures
        received@.len() < 2 ==> (step matches ReadStep::Need(more) && received@.len() + more == 2),
        received@.len() >= 2 ==> ({
            let length = received@[0] * 256 + received@[1];
            &&& length > 4096 ==> (step matches ReadStep::Done(Err(Error::Protocol(t))) && t@
                == "frame too large: "@ + text::decimal(length as nat))
            &&& length <= 4096 && received@.len() < 2 + length ==> (step matches ReadStep::Need(more)
                && received@.len() + more == 2 + length)
            &&& length <= 4096 && received@.len() >= 2 + length ==> step is Done
        }),
{
}

/// What a reader makes of a complete frame is what its payload is decoded to, and nothing behind the
/// payload counts.
pub proof fn a_reader_decodes_the_payload(
    received: &[u8],
    step: ReadStep,
    payload: &[u8],
    decoded: Result<StreamKind, Error>,
)
    requires
        call_ensures(protocol::read_frame, (received,), step),
        call_ensures(protocol::decode_payload, (payload,), decoded),
        payload@.len() <= 4096,
        received@.len() >= 2 + payload@.len(),
        received@[0] * 256 + received@[1] == payload@.len(),
        received@.subrange(2, 2 + payload@.len() as int) == payload@,
    ensures
        step is Done,
        decoded matches Ok(StreamKind::Register { label }) ==> (step matches ReadStep::Done(
            Ok(StreamKind::Register { label: read }),
        ) && read@ == label@),
        decoded matches Ok(StreamKind::Data { label }) ==> (step matches ReadStep::Done(
            Ok(StreamKind::Data { label: read }),
        ) && read@ == label@),
        decoded is Err ==> (decoded matches Err(Error::Protocol(t)) && step matches ReadStep::Done(
            Err(Error::Protocol(u)),
        ) && u@ == t@),
{
}

/// Reading one byte of a number.
proof fn one_byte_number(bytes: Seq<u8>)
    requires
        bytes.len() > 0,
        bytes[0] < 128,
    ensures
        wire::read_tag(bytes) == (wire::Varint::Value { value: bytes[0] as nat, width: 1 }),
        wire::read_length(bytes) == (wire::Varint::Value { value: bytes[0] as nat, width: 1 }),
{
    reveal_with_fuel(wire::groups_value, 2);
    assert(wire::continuation_run(bytes) == 0);
    assert(wire::groups_value(bytes, 1) == bytes[0] as nat);
}

/// Reading two bytes of a number.
proof fn two_byte_number(bytes: Seq<u8>)
    requires
        bytes.len() > 1,
        bytes[0] >= 128,
        bytes[1] < 128,
    ensures
        wire::read_length(bytes) == (wire::Varint::Value {
            value: (bytes[0] - 128 + 128 * bytes[1]) as nat,
            width: 2,
        }),
{
    let rest = bytes.drop_first();
    reveal_with_fuel(wire::groups_value, 3);
    reveal_with_fuel(wire::continuation_run, 3);
    assert(rest[0] == bytes[1]);
    assert(wire::groups_value(rest.drop_first(), 0) == 0);
    assert(bytes[0] % 128 == bytes[0] - 128);
}

/// The first byte of a payload tells what it is. One that starts with the byte 0 is a registration,
/// if it is anything; one that starts with the byte 1 is a connection, if it is anything; none that
/// starts with another byte below 128 is anything, and neither is an empty one.
pub proof fn the_first_byte_tells_the_kind(payload: &[u8], decoded: Result<StreamKind, Error>)
    requires
        call_ensures(protocol::decode_payload, (payload,), decoded),
    ensures
        payload@.len() > 0 && payload@[0] == 0 && decoded is Ok ==> decoded->Ok_0 is Register,
        payload@.len() > 0 && payload@[0] == 1 && decoded is Ok ==> decoded->Ok_0 is Data,
        payload@.len() > 0 && 1 < payload@[0] < 128 ==> (decoded matches Err(Error::Protocol(t)) && t@
            == "Serde Deserialization Error"@),
        payload@.len() == 0 ==> (decoded matches Err(Error::Protocol(t)) && t@
            == "Hit the end of buffer, expected more data"@),
{
    if payload@.len() > 0 && payload@[0] < 128 {
        one_byte_number(payload@);
    }
    if payload@.len() == 0 {
        assert(wire::continuation_run(payload@) == 0);
    }
}

/// Behind the byte of the kind stands the length of the label, in one byte or in two, and then the
/// label in UTF-8. A payload that is shorter, or is not UTF-8 there, is refused; what stands behind
/// the label is not looked at.
pub proof fn the_label_follows_its_length(payload: &[u8], decoded: Result<StreamKind, Error>)
    requires
        call_ensures(protocol::decode_payload, (payload,), decoded),
        payload@.len() > 1,
        payload@[0] < 2,
        payload@[1] < 128 || payload@.len() > 2 && payload@[2] < 128,
    ensures
        ({
            let start = if payload@[1] < 128 {
                2int
            } else {
                3int
            };
            let n = if payload@[1] < 128 {
                payload@[1] as int
            } else {
                payload@[1] - 128 + 128 * payload@[2]
            };
            let utf8 = payload@.subrange(start, start + n);
            if payload@.len() < start + n {
                decoded matches Err(Error::Protocol(t)) && t@
                    == "Hit the end of buffer, expected more data"@
            } else if !valid_utf8(utf8) {
                decoded matches Err(Error::Protocol(t)) && t@ == "Tried to parse invalid utf-8"@
            } else {
                &&& payload@[0] == 0 ==> (decoded matches Ok(StreamKind::Register { label })
                    && label@ == decode_utf8(utf8))
                &&& payload@[0] == 1 ==> (decoded matches Ok(StreamKind::Data { label }) && label@
                    == decode_utf8(utf8))
            }
        }),
{
    let rest = payload@.skip(1);
    one_byte_number(payload@);
    assert(rest[0] == payload@[1]);
    if payload@[1] < 128 {
        one_byte_number(rest);
        let n = payload@[1] as int;
        if payload@.len() >= 2 + n {
            assert(rest.subrange(1, 1 + n) =~= payload@.subrange(2, 2 + n));
        }
    } else {
        assert(rest[1] == payload@[2]);
        two_byte_number(rest);
        let n = payload@[1] - 128 + 128 * payload@[2];
        if payload@.len() >= 3 + n {
            assert(rest.subrange(2, 2 + n) =~= payload@.subrange(3, 3 + n));
        }
    }
}

/// However many bytes its numbers take: a payload with the number 0 is a registration and one with
/// the number 1 a connection, for the text behind the number; another number, a number that is none
/// and a text that is none are refused, each with its own message.
pub proof fn a_payload_is_a_number_and_a_text(payload: &[u8], decoded: Result<StreamKind, Error>)
    requires
        call_ensures(protocol::decode_payload, (payload,), decoded),
    ensures
        wire::read_tag(payload@) is Ended ==> (decoded matches Err(Error::Protocol(t)) && t@
            == "Hit the end of buffer, expected more data"@),
        wire::read_tag(payload@) is Malformed ==> (decoded matches Err(Error::Protocol(t)) && t@
            == "Found a varint that didn't terminate. Is the usize too big for this platform?"@),
        forall|value: nat, width: nat| #[trigger]
            wire::read_tag(payload@) == (wire::Varint::Value { value, width }) ==> {
                let label = wire::read_text(payload@.skip(width as int));
                &&& value > 1 ==> (decoded matches Err(Error::Protocol(t)) && t@
                    == "Serde Deserialization Error"@)
                &&& value <= 1 && label is Err ==> (decoded matches Err(Error::Protocol(t)) && t@
                    == label->Err_0)
                &&& value == 0 && label is Ok ==> (decoded matches Ok(StreamKind::Register { label: l })
                    && l@ == label->Ok_0)
                &&& value == 1 && label is Ok ==> (decoded matches Ok(StreamKind::Data { label: l })
                    && l@ == label->Ok_0)
            },
{
}

/// How many bytes at the front continue a number.
proof fn run_of_continuations(bytes: Seq<u8>)
    ensures
        wire::continuation_run(bytes) <= bytes.len(),
        forall|i: int| 0 <= i < wire::continuation_run(bytes) ==> #[trigger] bytes[i] >= 128,
        wire::continuation_run(bytes) < bytes.len() ==> bytes[wire::continuation_run(bytes) as int]
            < 128,
    decreases bytes.len(),
{
    if bytes.len() > 0 && bytes[0] >= 128 {
        let rest = bytes.drop_first();
        run_of_continuations(rest);
        assert forall|i: int| 0 <= i < wire::continuation_run(bytes) implies #[trigger] bytes[i]
            >= 128 by {
            if i > 0 {
                assert(rest[i - 1] == bytes[i]);
            }
        }
    }
}

/// A number on the wire ends with the first byte below 128, is at most five bytes long and at most
/// `u32::MAX` as a kind, and is at most `usize::MAX` as a length.
pub proof fn a_number_ends_with_its_first_low_byte(bytes: Seq<u8>, value: nat, width: nat)
    requires
        wire::read_tag(bytes) == (wire::Varint::Value { value, width }) || wire::read_length(bytes)
            == (wire::Varint::Value { value, width }),
    ensures
        1 <= width <= bytes.len(),
        bytes[width - 1] < 128,
        forall|i: int| 0 <= i < width - 1 ==> #[trigger] bytes[i] >= 128,
        value == wire::groups_value(bytes, width),
        wire::read_tag(bytes) is Value ==> width <= 5 && value <= u32::MAX,
        wire::read_length(bytes) is Value ==> width <= 10 && value <= usize::MAX,
{
    run_of_continuations(bytes);
}

/// Each byte of a number counts its low seven bits, and 128 times what follows.
pub proof fn a_number_is_made_of_groups(bytes: Seq<u8>, width: nat)
    ensures
        wire::groups_value(bytes, 0) == 0,
        wire::groups_value(bytes, width + 1) == bytes[0] % 128 + 128 * wire::groups_value(
            bytes.drop_first(),
            width,
        ),
{
}

/// A text that is read takes exactly the bytes that its length announces, and they are its UTF-8.
pub proof fn a_text_is_its_length_and_its_characters(bytes: Seq<u8>)
    ensures
        wire::read_text(bytes) matches Ok(read) ==> (wire::read_length(
            bytes,
        ) matches wire::Varint::Value { value, width } && width + value <= bytes.len()
            && encode_utf8(read) == bytes.subrange(width as int, (width + value) as int)),
        wire::read_text(bytes) is Err ==> (wire::read_length(bytes) matches wire::Varint::Value {
            value,
            width,
        } ==> width + value > bytes.len() || !valid_utf8(
            bytes.subrange(width as int, (width + value) as int),
        )),
{
    if let wire::Varint::Value { value, width } = wire::read_length(bytes) {
        if width + value <= bytes.len() {
            let utf8 = bytes.subrange(width as int, (width + value) as int);
            if valid_utf8(utf8) {
                decode_utf8_encode_utf8(utf8);
            }
        }
    }
}

/// What is written is read back: a registration as a registration and a connection as a connection,
/// with the same label, whatever follows on the stream. This holds of every label of at most 4093
/// bytes in UTF-8.
pub proof fn what_is_written_is_read_back(
    kind: &StreamKind,
    written: Result<Vec<u8>, Error>,
    received: &[u8],
    rest: Seq<u8>,
    step: ReadStep,
)
    requires
        call_ensures(protocol::write_frame, (kind,), written),
        written is Ok,
        received@ == written->Ok_0@ + rest,
        call_ensures(protocol::read_frame, (received,), step),
    ensures
        kind matches StreamKind::Register { label } ==> encode_utf8(label@).len() <= 4093 ==> (
        step matches ReadStep::Done(Ok(StreamKind::Register { label: read })) && read@ == label@),
        kind matches StreamKind::Data { label } ==> encode_utf8(label@).len() <= 4093 ==> (
        step matches ReadStep::Done(Ok(StreamKind::Data { label: read })) && read@ == label@),
{
    if encode_utf8(kind@.label()).len() <= 4093 {
        protocol::label_arrives(kind@, rest);
    }
}

} // verus!
