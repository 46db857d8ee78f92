use agent_pair::protocol::{
    decode_payload, encode_payload, read_frame, validate_label, write_frame, ReadStep, StreamKind,
    MAX_FRAME_SIZE, MAX_LABEL_LENGTH,
};
use agent_pair::Error;

use serde::de::{Deserialize, Deserializer, EnumAccess, SeqAccess, VariantAccess, Visitor};
use serde::ser::{Serialize, SerializeStructVariant, Serializer};

fn register(label: &str) -> StreamKind {
    StreamKind::Register { label: label.to_string() }
}

fn data(label: &str) -> StreamKind {
    StreamKind::Data { label: label.to_string() }
}

fn message<T>(result: Result<T, Error>) -> String {
    match result {
        Ok(_) => panic!("expected an error"),
        Err(Error::Protocol(text)) => text,
        Err(Error::Io(e)) => panic!("unexpected I/O error {e}"),
    }
}

fn refusal(received: &[u8]) -> String {
    match read_frame(received) {
        ReadStep::Done(result) => message(result),
        ReadStep::Need(n) => panic!("{n} more bytes asked for"),
    }
}

/// Reads a frame the way a stream is read: only what is asked for, never more.
fn read_from(stream: &[u8]) -> (Result<StreamKind, Error>, usize) {
    let mut received: Vec<u8> = Vec::new();
    loop {
        match read_frame(&received) {
            ReadStep::Done(result) => return (result, received.len()),
            ReadStep::Need(n) => {
                let at = received.len();
                assert!(at + n <= stream.len(), "asked for {n} bytes behind {at}");
                received.extend_from_slice(&stream[at..at + n]);
            }
        }
    }
}

#[test]
fn frames_have_these_bytes() {
    assert_eq!(write_frame(&register("web")).unwrap(), [0, 5, 0, 3, b'w', b'e', b'b']);
    assert_eq!(write_frame(&data("web")).unwrap(), [0, 5, 1, 3, b'w', b'e', b'b']);
    assert_eq!(write_frame(&data("")).unwrap(), [0, 2, 1, 0]);
    assert_eq!(write_frame(&data("\u{e9}")).unwrap(), [0, 4, 1, 2, 0xc3, 0xa9]);
}

#[test]
fn long_labels_have_two_length_bytes() {
    let label = "a".repeat(300);
    let frame = write_frame(&data(&label)).unwrap();
    assert_eq!(frame.len(), 2 + 303);
    assert_eq!(frame[..5], [1, 47, 1, 0xac, 2]);
    assert_eq!(&frame[5..], label.as_bytes());
    assert_eq!(encode_payload(&data(&label)).unwrap(), frame[2..]);
}

#[test]
fn payloads_longer_than_a_header_can_say_are_refused() {
    let longest = write_frame(&data(&"a".repeat(65_531))).unwrap();
    assert_eq!(longest.len(), 2 + 65_535);
    assert_eq!(longest[..2], [0xff, 0xff]);
    assert_eq!(message(write_frame(&data(&"a".repeat(65_532)))), "frame too large: 65536");
    assert_eq!(message(write_frame(&register(&"a".repeat(70_000)))), "frame too large: 70004");
}

#[test]
fn headers_tell_the_length_of_the_payload() {
    for n in [0, 1, 127, 128, 255, 256, 4093, 16_383, 16_384, 65_531] {
        let kind = data(&"b".repeat(n));
        let frame = write_frame(&kind).unwrap();
        let payload = encode_payload(&kind).unwrap();
        assert_eq!(frame[0] as usize * 256 + frame[1] as usize, payload.len());
        assert_eq!(frame[2..], payload);
    }
}

#[test]
fn no_frame_is_the_beginning_of_another() {
    let frames: Vec<Vec<u8>> = ["", "a", "ab", "abc", "b"]
        .iter()
        .flat_map(|label| [register(label), data(label)])
        .map(|kind| write_frame(&kind).unwrap())
        .collect();
    for (i, a) in frames.iter().enumerate() {
        for (j, b) in frames.iter().enumerate() {
            assert_eq!(b.starts_with(a), i == j);
        }
    }
}

#[test]
fn frame_is_read_back() {
    for kind in [register("web"), data("web"), data("caf\u{e9} \u{1f600}"), register(&"x".repeat(4093))] {
        let mut stream = write_frame(&kind).unwrap();
        let end = stream.len();
        stream.extend_from_slice(b"GET / HTTP/1.1\r\n");
        let (read, taken) = read_from(&stream);
        assert_eq!(read.unwrap(), kind);
        assert_eq!(taken, end);
    }
}

#[test]
fn every_prefix_needs_more() {
    let frame = write_frame(&data("label")).unwrap();
    for n in 0..frame.len() {
        match read_frame(&frame[..n]) {
            ReadStep::Need(more) => assert_eq!(more, if n < 2 { 2 - n } else { frame.len() - n }),
            ReadStep::Done(_) => panic!("done after {n} bytes"),
        }
    }
}

#[test]
fn bytes_behind_the_frame_change_nothing() {
    let mut received = write_frame(&register("db")).unwrap();
    received.extend_from_slice(&[1, 2, 3]);
    match read_frame(&received) {
        ReadStep::Done(Ok(kind)) => assert_eq!(kind, register("db")),
        _ => panic!("no frame"),
    }
}

#[test]
fn bytes_behind_the_label_are_ignored() {
    assert_eq!(decode_payload(&[1, 1, b'a', 9, 9]).unwrap(), data("a"));
}

#[test]
fn large_frames_are_refused() {
    assert_eq!(refusal(&[0x10, 0x01]), "frame too large: 4097");
    assert_eq!(refusal(&[0xff, 0xff, 1]), "frame too large: 65535");
    assert!(matches!(read_frame(&[0x10, 0x00]), ReadStep::Need(MAX_FRAME_SIZE)));
}

#[test]
fn longest_valid_labels_are_refused_by_the_reader() {
    for (n, flen) in [(4094, 4097), (4095, 4098), (4096, 4099)] {
        let label = "x".repeat(n);
        assert!(validate_label(&label).is_ok());
        let frame = write_frame(&data(&label)).unwrap();
        assert_eq!(refusal(&frame), format!("frame too large: {flen}"));
    }
}

#[test]
fn broken_payloads_are_refused() {
    assert_eq!(refusal(&[0, 0]), "Hit the end of buffer, expected more data");
    assert_eq!(refusal(&[0, 1, 1]), "Hit the end of buffer, expected more data");
    assert_eq!(refusal(&[0, 3, 1, 2, b'a']), "Hit the end of buffer, expected more data");
    assert_eq!(refusal(&[0, 3, 1, 1, 0xff]), "Tried to parse invalid utf-8");
    assert_eq!(refusal(&[0, 1, 2]), "Serde Deserialization Error");
    assert_eq!(
        refusal(&[0, 5, 0xff, 0xff, 0xff, 0xff, 0x10]),
        "Found a varint that didn't terminate. Is the usize too big for this platform?"
    );
}

#[test]
fn overlong_numbers_are_accepted() {
    assert_eq!(decode_payload(&[0x81, 0x00, 0x81, 0x80, 0x00, b'z']).unwrap(), data("z"));
}

#[test]
fn labels_are_validated() {
    assert!(validate_label("web").is_ok());
    assert!(validate_label("a b:c/\u{e9}\t").is_ok());
    assert!(validate_label(&"x".repeat(MAX_LABEL_LENGTH)).is_ok());
    assert_eq!(message(validate_label("")), "label cannot be empty");
    assert_eq!(
        message(validate_label(&"x".repeat(MAX_LABEL_LENGTH + 1))),
        "label too long (max 4096 bytes)"
    );
    assert_eq!(message(validate_label(&"\u{e9}".repeat(2049))), "label too long (max 4096 bytes)");
    assert_eq!(message(validate_label("a\nb")), "label contains invalid characters");
    assert_eq!(message(validate_label("a\r")), "label contains invalid characters");
    assert_eq!(message(validate_label("\n")), "label contains invalid characters");
}

/// The message as a type that serde describes as an enumeration with named fields.
#[derive(Debug, PartialEq)]
struct Described(StreamKind);

impl Serialize for Described {
    fn serialize<S: Serializer>(&self, serializer: S) -> Result<S::Ok, S::Error> {
        let (index, name, label) = match &self.0 {
            StreamKind::Register { label } => (0, "Register", label),
            StreamKind::Data { label } => (1, "Data", label),
        };
        let mut variant = serializer.serialize_struct_variant("StreamKind", index, name, 1)?;
        variant.serialize_field("label", label)?;
        variant.end()
    }
}

struct Index(u64);

struct IndexVisitor;

impl<'de> Visitor<'de> for IndexVisitor {
    type Value = Index;

    fn expecting(&self, f: &mut std::fmt::Formatter<'_>) -> std::fmt::Result {
        f.write_str("variant identifier")
    }

    fn visit_u64<E: serde::de::Error>(self, value: u64) -> Result<Index, E> {
        if value < 2 {
            Ok(Index(value))
        } else {
            Err(E::invalid_value(serde::de::Unexpected::Unsigned(value), &"variant index 0 <= i < 2"))
        }
    }
}

impl<'de> Deserialize<'de> for Index {
    fn deserialize<D: Deserializer<'de>>(deserializer: D) -> Result<Index, D::Error> {
        deserializer.deserialize_identifier(IndexVisitor)
    }
}

struct LabelVisitor;

impl<'de> Visitor<'de> for LabelVisitor {
    type Value = String;

    fn expecting(&self, f: &mut std::fmt::Formatter<'_>) -> std::fmt::Result {
        f.write_str("struct variant")
    }

    fn visit_seq<A: SeqAccess<'de>>(self, mut seq: A) -> Result<String, A::Error> {
        match seq.next_element::<String>()? {
            Some(label) => Ok(label),
            None => Err(serde::de::Error::invalid_length(0, &"struct variant with 1 element")),
        }
    }
}

struct KindVisitor;

impl<'de> Visitor<'de> for KindVisitor {
    type Value = Described;

    fn expecting(&self, f: &mut std::fmt::Formatter<'_>) -> std::fmt::Result {
        f.write_str("enum StreamKind")
    }

    fn visit_enum<A: EnumAccess<'de>>(self, access: A) -> Result<Described, A::Error> {
        let (index, variant) = access.variant::<Index>()?;
        let label = variant.struct_variant(&["label"], LabelVisitor)?;
        Ok(Described(match index {
            Index(0) => StreamKind::Register { label },
            Index(_) => StreamKind::Data { label },
        }))
    }
}

impl<'de> Deserialize<'de> for Described {
    fn deserialize<D: Deserializer<'de>>(deserializer: D) -> Result<Described, D::Error> {
        deserializer.deserialize_enum("StreamKind", &["Register", "Data"], KindVisitor)
    }
}

fn same_outcome(payload: &[u8]) {
    let expected = postcard::from_bytes::<Described>(payload);
    match (decode_payload(payload), expected) {
        (Ok(kind), Ok(Described(meant))) => assert_eq!(kind, meant, "{payload:?}"),
        (Err(Error::Protocol(text)), Err(e)) => assert_eq!(text, e.to_string(), "{payload:?}"),
        (decoded, meant) => panic!("{payload:?}: {decoded:?}, meant {meant:?}"),
    }
}

#[test]
fn payloads_are_those_of_the_described_type() {
    for label in ["", "web", "a label with spaces", "\u{e9}\u{1f600}"] {
        for kind in [register(label), data(label)] {
            let meant = postcard::to_stdvec(&Described(kind.clone())).unwrap();
            assert_eq!(encode_payload(&kind).unwrap(), meant);
        }
    }
    let long = data(&"y".repeat(20_000));
    assert_eq!(
        encode_payload(&long).unwrap(),
        postcard::to_stdvec(&Described(long.clone())).unwrap()
    );
}

#[test]
fn outcomes_are_those_of_the_described_type() {
    same_outcome(&[]);
    for a in 0..=255u8 {
        same_outcome(&[a]);
        for b in 0..=255u8 {
            same_outcome(&[a, b]);
            same_outcome(&[0, a, b]);
            same_outcome(&[1, a, b, b'x', b'y']);
            same_outcome(&[0x81, a, b, 0x80, 0x80]);
            same_outcome(&[1, 2, a, b]);
            same_outcome(&[0x80, 0x80, 0x80, a, b, 0]);
            same_outcome(&[0, 0x83, 0x80, 0x80, 0x80, 0x80, 0x80, 0x80, 0x80, a, b, 1, 2, 3]);
        }
    }
}
