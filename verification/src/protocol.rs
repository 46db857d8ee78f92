//! The control frames of the tunnel, and the labels that they carry.
//!
//! Every stream starts with one frame: two bytes that hold the length of the payload, most
//! significant first, and the payload. The payload is an enumeration with two variants in the
//! postcard format: the number of the variant and its label. The bytes behind the frame belong to the tunnelled
//! connection, so a reader takes exactly the bytes of the frame.

use vstd::prelude::*;
use vstd::slice::*;
use vstd::string::*;
use vstd::utf8::*;

use crate::error::Error;
use crate::text;
use crate::wire;

verus! {

/// The largest payload that a reader accepts, in bytes.
pub const MAX_FRAME_SIZE: usize = 4096;

/// The longest label, in bytes.
pub const MAX_LABEL_LENGTH: usize = 4096;

/// What the broker sends back on the stream of a registration that it refuses.
pub const REGISTRATION_REFUSED: u8 = 1;

/// What a stream is for.
#[derive(Debug, Clone, PartialEq)]
pub enum StreamKind {
    /// The sender serves connections for the label.
    Register { label: String },
    /// The stream carries one connection for the label.
    Data { label: String },
}

/// A [`StreamKind`] with its label as a sequence of characters.
#[verifier::ext_equal]
pub enum KindView {
    Register { label: Seq<char> },
    Data { label: Seq<char> },
}

impl KindView {
    /// The label.
    pub open spec fn label(self) -> Seq<char> {
        match self {
            KindView::Register { label } => label,
            KindView::Data { label } => label,
        }
    }

    /// The number that stands for the kind on the wire.
    pub open spec fn tag(self) -> u32 {
        match self {
            KindView::Register { .. } => 0,
            KindView::Data { .. } => 1,
        }
    }

    /// The kind with the given number, for one of the two numbers in use.
    pub open spec fn from_tag(tag: nat, label: Seq<char>) -> KindView {
        if tag == 0 {
            KindView::Register { label }
        } else {
            KindView::Data { label }
        }
    }
}

impl View for StreamKind {
    type V = KindView;

    open spec fn view(&self) -> KindView {
        match self {
            StreamKind::Register { label } => KindView::Register { label: label@ },
            StreamKind::Data { label } => KindView::Data { label: label@ },
        }
    }
}

/// The payload of a frame.
pub open spec fn payload_bytes(kind: KindView) -> Seq<u8> {
    wire::varint(kind.tag() as nat) + wire::text_bytes(kind.label())
}

/// The kind that a payload holds, or the message of the failure. Bytes behind the label are not
/// looked at.
pub open spec fn read_payload(bytes: Seq<u8>) -> Result<KindView, Seq<char>> {
    match wire::read_tag(bytes) {
        wire::Varint::Ended => Err(wire::ended_text()),
        wire::Varint::Malformed => Err(wire::malformed_text()),
        wire::Varint::Value { value, width } => if value > 1 {
            Err(wire::unknown_tag_text())
        } else {
            match wire::read_text(bytes.skip(width as int)) {
                Ok(label) => Ok(KindView::from_tag(value, label)),
                Err(failure) => Err(failure),
            }
        },
    }
}

/// The largest length that a header can hold.
pub const MAX_HEADER_LENGTH: usize = 65535;

/// A length in two bytes, most significant first.
pub open spec fn header_bytes(len: nat) -> Seq<u8>
    recommends
        len <= MAX_HEADER_LENGTH,
{
    seq![(len / 256) as u8, (len % 256) as u8]
}

/// Why there is no frame for a kind, if there is none: its payload is longer than a header can say.
pub open spec fn frame_fault(kind: KindView) -> Option<Seq<char>> {
    if payload_bytes(kind).len() > MAX_HEADER_LENGTH {
        Some("frame too large: "@ + text::decimal(payload_bytes(kind).len()))
    } else {
        None
    }
}

/// A frame: the header and the payload.
pub open spec fn frame_bytes(kind: KindView) -> Seq<u8>
    recommends
        frame_fault(kind) is None,
{
    header_bytes(payload_bytes(kind).len()) + payload_bytes(kind)
}

/// The length that a header announces.
pub open spec fn announced_length(received: Seq<u8>) -> nat {
    received[0] as nat * 256 + received[1] as nat
}

/// How far the reading of a frame has come.
#[verifier::ext_equal]
pub enum Progress {
    /// So many more bytes belong to the frame, as far as can be told.
    Need(nat),
    /// The frame is there.
    Kind(KindView),
    /// The frame is refused, with this message.
    Refused(Seq<char>),
}

/// How far the reading of a frame has come with the bytes received.
pub open spec fn progress(received: Seq<u8>) -> Progress {
    if received.len() < 2 {
        Progress::Need((2 - received.len()) as nat)
    } else if announced_length(received) > MAX_FRAME_SIZE {
        Progress::Refused("frame too large: "@ + text::decimal(announced_length(received)))
    } else if received.len() < 2 + announced_length(received) {
        Progress::Need((2 + announced_length(received) - received.len()) as nat)
    } else {
        match read_payload(received.subrange(2, 2 + announced_length(received) as int)) {
            Ok(kind) => Progress::Kind(kind),
            Err(failure) => Progress::Refused(failure),
        }
    }
}

/// What the reader of a frame does next.
pub enum ReadStep {
    /// Read exactly so many more bytes and ask again.
    Need(usize),
    /// The frame has been read, or is refused.
    Done(Result<StreamKind, Error>),
}

/// The error for a payload of a length that is not permitted.
fn frame_too_large(len: usize) -> (error: Error)
    ensures
        error.is_protocol("frame too large: "@ + text::decimal(len as nat)),
{
    let shown = text::decimal_text(len as u64);
    Error::Protocol("frame too large: ".to_owned().concat(shown.as_str()))
}

/// Reads one frame out of what a stream has delivered so far.
///
/// A reader starts with nothing, reads what is asked for, appends it, and asks again.
pub fn read_frame(received: &[u8]) -> (step: ReadStep)
    ensures
        match progress(received@) {
            Progress::Need(n) => step matches ReadStep::Need(m) && m == n,
            Progress::Kind(kind) => step matches ReadStep::Done(Ok(k)) && k@ == kind,
            Progress::Refused(text) => step matches ReadStep::Done(Err(e)) && e.is_protocol(text),
        },
{
    if received.len() < 2 {
        return ReadStep::Need(2 - received.len());
    }
    let flen: usize = received[0] as usize * 256 + received[1] as usize;
    if flen > MAX_FRAME_SIZE {
        return ReadStep::Done(Err(frame_too_large(flen)));
    }
    if received.len() < 2 + flen {
        return ReadStep::Need(2 + flen - received.len());
    }
    ReadStep::Done(decode_payload(slice_subrange(received, 2, 2 + flen)))
}

/// Decodes the payload of a frame.
pub fn decode_payload(payload: &[u8]) -> (decoded: Result<StreamKind, Error>)
    ensures
        match read_payload(payload@) {
            Ok(kind) => decoded matches Ok(k) && k@ == kind,
            Err(text) => decoded matches Err(e) && e.is_protocol(text),
        },
{
    let (tag, rest) = match wire::take_tag(payload) {
        Ok(taken) => taken,
        Err(text) => return Err(Error::Protocol(text)),
    };
    if tag > 1 {
        return Err(Error::Protocol(wire::unknown_tag()));
    }
    match wire::decode_text(rest) {
        Ok(label) => if tag == 0 {
            Ok(StreamKind::Register { label })
        } else {
            Ok(StreamKind::Data { label })
        },
        Err(text) => Err(Error::Protocol(text)),
    }
}

/// Encodes the payload of a frame.
pub fn encode_payload(kind: &StreamKind) -> (encoded: Result<Vec<u8>, Error>)
    ensures
        encoded matches Ok(bytes) && bytes@ == payload_bytes(kind@),
{
    let encoded = match kind {
        StreamKind::Register { label } => wire::encode_tagged(0, label.as_str()),
        StreamKind::Data { label } => wire::encode_tagged(1, label.as_str()),
    };
    match encoded {
        Ok(bytes) => Ok(bytes),
        Err(text) => Err(Error::Protocol(text)),
    }
}

/// The bytes of a frame, as they are written to a stream.
///
/// A payload whose length the header cannot hold is refused.
pub fn write_frame(kind: &StreamKind) -> (written: Result<Vec<u8>, Error>)
    ensures
        match frame_fault(kind@) {
            None => written matches Ok(bytes) && bytes@ == frame_bytes(kind@),
            Some(text) => written matches Err(e) && e.is_protocol(text),
        },
{
    let mut payload = match encode_payload(kind) {
        Ok(payload) => payload,
        Err(e) => return Err(e),
    };
    let n: usize = payload.len();
    if n > MAX_HEADER_LENGTH {
        return Err(frame_too_large(n));
    }
    let mut frame: Vec<u8> = Vec::new();
    frame.push((n / 256) as u8);
    frame.push((n % 256) as u8);
    frame.append(&mut payload);
    proof {
        assert(frame@ =~= frame_bytes(kind@));
    }
    Ok(frame)
}

/// Why a label is refused, if it is.
pub open spec fn label_fault(label: Seq<char>) -> Option<Seq<char>> {
    if label.len() == 0 {
        Some("label cannot be empty"@)
    } else if encode_utf8(label).len() > MAX_LABEL_LENGTH {
        Some("label too long (max 4096 bytes)"@)
    } else if label.contains('\n') || label.contains('\r') {
        Some("label contains invalid characters"@)
    } else {
        None
    }
}

/// Accepts a label that is not empty, not too long and on one line.
pub fn validate_label(label: &str) -> (valid: Result<(), Error>)
    ensures
        match label_fault(label@) {
            None => valid is Ok,
            Some(text) => valid matches Err(e) && e.is_protocol(text),
        },
{
    if label.is_empty() {
        return Err(Error::Protocol("label cannot be empty".to_owned()));
    }
    if label.as_bytes().len() > MAX_LABEL_LENGTH {
        return Err(Error::Protocol("label too long (max 4096 bytes)".to_owned()));
    }
    if text::contains_char(label, '\n') || text::contains_char(label, '\r') {
        return Err(Error::Protocol("label contains invalid characters".to_owned()));
    }
    Ok(())
}

/// A payload is read back as the kind that it was made of, whatever follows it.
pub proof fn payload_reads_back(kind: KindView, rest: Seq<u8>)
    requires
        encode_utf8(kind.label()).len() <= usize::MAX,
    ensures
        read_payload(payload_bytes(kind) + rest) == Ok::<KindView, Seq<char>>(kind),
{
    let tag = wire::varint(kind.tag() as nat);
    let text = wire::text_bytes(kind.label());
    let bytes = payload_bytes(kind) + rest;
    assert(bytes =~= tag + (text + rest));
    wire::tag_reads_back(kind.tag(), text + rest);
    assert(bytes.skip(tag.len() as int) =~= text + rest);
    wire::text_reads_back(kind.label(), rest);
}

/// A frame is read back as the kind that was written, and what follows it on the stream changes
/// nothing. This holds of every frame whose payload a reader accepts.
pub proof fn frame_reads_back(kind: KindView, rest: Seq<u8>)
    requires
        payload_bytes(kind).len() <= MAX_FRAME_SIZE,
    ensures
        progress(frame_bytes(kind) + rest) == Progress::Kind(kind),
{
    let payload = payload_bytes(kind);
    let received = frame_bytes(kind) + rest;
    assert(announced_length(received) == payload.len());
    assert(received.subrange(2, 2 + payload.len() as int) =~= payload + Seq::<u8>::empty());
    payload_reads_back(kind, Seq::empty());
}

/// The reader of a frame goes on until the frame is complete and never asks for a byte behind it,
/// so that all that follows the frame is left for the connection.
pub proof fn reader_stops_at_the_end_of_the_frame(kind: KindView, n: nat)
    requires
        payload_bytes(kind).len() <= MAX_FRAME_SIZE,
        n < frame_bytes(kind).len(),
    ensures
        progress(frame_bytes(kind).take(n as int)) matches Progress::Need(more) && 0 < more && n
            + more <= frame_bytes(kind).len(),
{
    let received = frame_bytes(kind).take(n as int);
    if n >= 2 {
        assert(received[0] == frame_bytes(kind)[0]);
        assert(received[1] == frame_bytes(kind)[1]);
        assert(announced_length(received) == payload_bytes(kind).len());
    }
}

/// Whatever arrives, a reader never asks for more than the header and the largest payload, and
/// never for nothing.
pub proof fn reader_is_bounded(received: Seq<u8>)
    ensures
        progress(received) matches Progress::Need(more) ==> 0 < more && received.len() + more <= 2
            + MAX_FRAME_SIZE,
{
}

/// Once a frame is complete or refused, further bytes do not change the outcome.
pub proof fn outcome_is_final(received: Seq<u8>, rest: Seq<u8>)
    requires
        !(progress(received) is Need),
    ensures
        progress(received + rest) == progress(received),
{
    let whole = received + rest;
    assert(announced_length(whole) == announced_length(received));
    let end = 2 + announced_length(received) as int;
    if announced_length(received) <= MAX_FRAME_SIZE {
        assert(whole.subrange(2, end) =~= received.subrange(2, end));
    }
}

/// The length of a payload: one byte for the kind, the label's length, the label.
proof fn payload_length(kind: KindView)
    requires
        encode_utf8(kind.label()).len() < 16384,
    ensures
        payload_bytes(kind).len() == (if encode_utf8(kind.label()).len() < 128 {
            2
        } else {
            3nat
        }) + encode_utf8(kind.label()).len(),
{
    reveal_with_fuel(wire::varint, 2);
}

/// A label of at most 4093 bytes travels in a frame that a reader accepts, so it arrives as sent.
pub proof fn label_arrives(kind: KindView, rest: Seq<u8>)
    requires
        encode_utf8(kind.label()).len() <= 4093,
    ensures
        progress(frame_bytes(kind) + rest) == Progress::Kind(kind),
{
    payload_length(kind);
    frame_reads_back(kind, rest);
}

/// A valid label of more than 4093 bytes is refused by the reader: its payload is longer than the
/// largest that a reader accepts.
pub proof fn longest_labels_are_refused(kind: KindView, rest: Seq<u8>)
    requires
        label_fault(kind.label()) is None,
        encode_utf8(kind.label()).len() > 4093,
    ensures
        progress(frame_bytes(kind) + rest) == Progress::Refused(
            "frame too large: "@ + text::decimal(encode_utf8(kind.label()).len() + 3),
        ),
{
    payload_length(kind);
    let received = frame_bytes(kind) + rest;
    assert(announced_length(received) == payload_bytes(kind).len());
}

/// A valid label has a frame.
pub proof fn valid_labels_have_frames(kind: KindView)
    requires
        label_fault(kind.label()) is None,
    ensures
        frame_fault(kind) is None,
{
    payload_length(kind);
}

/// The header of a frame says how long its payload is.
pub proof fn headers_tell_the_length(kind: KindView)
    requires
        frame_fault(kind) is None,
    ensures
        announced_length(frame_bytes(kind)) == payload_bytes(kind).len(),
        frame_bytes(kind).len() == 2 + payload_bytes(kind).len(),
{
}

/// No frame is the beginning of another: two kinds that differ have frames that part somewhere.
pub proof fn frames_are_prefix_free(a: KindView, b: KindView)
    requires
        frame_fault(a) is None,
        frame_fault(b) is None,
        frame_bytes(a).is_prefix_of(frame_bytes(b)),
    ensures
        a == b,
{
    let longer = frame_bytes(b);
    assert(frame_bytes(a)[0] == longer[0]);
    assert(frame_bytes(a)[1] == longer[1]);
    headers_tell_the_length(a);
    headers_tell_the_length(b);
    assert(payload_bytes(a) =~= frame_bytes(a).skip(2));
    assert(payload_bytes(b) =~= longer.skip(2));
    assert(frame_bytes(a) =~= longer);
    payload_reads_back(a, Seq::empty());
    payload_reads_back(b, Seq::empty());
}

} // verus!
