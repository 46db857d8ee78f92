//! How a tag and a text travel: the part of the postcard format that frames use.
//!
//! A number is a varint: groups of seven bits, least significant first, one group per byte, with
//! the high bit set on every byte but the last. A text is the varint of its length in bytes,
//! followed by its UTF-8 bytes.

use vstd::prelude::*;
use vstd::string::*;
use vstd::utf8::*;

verus! {

/// The varint of `n`.
pub open spec fn varint(n: nat) -> Seq<u8>
    decreases n,
{
    if n < 128 {
        seq![n as u8]
    } else {
        seq![(n % 128 + 128) as u8] + varint(n / 128)
    }
}

/// How many bytes at the front have the high bit set.
pub open spec fn continuation_run(bytes: Seq<u8>) -> nat
    decreases bytes.len(),
{
    if bytes.len() == 0 || bytes[0] < 128 {
        0
    } else {
        1 + continuation_run(bytes.drop_first())
    }
}

/// The number that the first `width` bytes hold, seven bits each, least significant first.
pub open spec fn groups_value(bytes: Seq<u8>, width: nat) -> nat
    decreases width,
{
    if width == 0 {
        0
    } else {
        (bytes[0] % 128) as nat + 128 * groups_value(bytes.drop_first(), (width - 1) as nat)
    }
}

/// What stands at the front of a byte sequence where a varint is expected.
pub enum Varint {
    /// A number, and how many bytes it takes.
    Value { value: nat, width: nat },
    /// The bytes end inside the varint.
    Ended,
    /// More than the permitted number of bytes, or a number over the maximum.
    Malformed,
}

/// Reads a varint of at most `max_width` bytes and at most the value `max`.
pub open spec fn read_varint(bytes: Seq<u8>, max_width: nat, max: nat) -> Varint {
    let run = continuation_run(bytes);
    if run >= max_width {
        Varint::Malformed
    } else if run == bytes.len() {
        Varint::Ended
    } else if groups_value(bytes, run + 1) > max {
        Varint::Malformed
    } else {
        Varint::Value { value: groups_value(bytes, run + 1), width: run + 1 }
    }
}

/// Reads the varint of a `u32`.
pub open spec fn read_tag(bytes: Seq<u8>) -> Varint {
    read_varint(bytes, 5, u32::MAX as nat)
}

/// Reads the varint of a `usize`.
pub open spec fn read_length(bytes: Seq<u8>) -> Varint {
    read_varint(bytes, ((usize::BITS + 6) / 7) as nat, usize::MAX as nat)
}

/// The message for bytes that end too early.
pub open spec fn ended_text() -> Seq<char> {
    "Hit the end of buffer, expected more data"@
}

/// The message for a varint that is too long or too large.
pub open spec fn malformed_text() -> Seq<char> {
    "Found a varint that didn't terminate. Is the usize too big for this platform?"@
}

/// The message for a text that is not UTF-8.
pub open spec fn not_utf8_text() -> Seq<char> {
    "Tried to parse invalid utf-8"@
}

/// The message for a tag that names no message.
pub open spec fn unknown_tag_text() -> Seq<char> {
    "Serde Deserialization Error"@
}

/// A text on the wire.
pub open spec fn text_bytes(text: Seq<char>) -> Seq<u8> {
    varint(encode_utf8(text).len()) + encode_utf8(text)
}

/// Reads a text: its characters, or the message of the failure. What follows it is not looked at.
pub open spec fn read_text(bytes: Seq<u8>) -> Result<Seq<char>, Seq<char>> {
    match read_length(bytes) {
        Varint::Ended => Err(ended_text()),
        Varint::Malformed => Err(malformed_text()),
        Varint::Value { value, width } => if bytes.len() < width + value {
            Err(ended_text())
        } else if !valid_utf8(bytes.subrange(width as int, (width + value) as int)) {
            Err(not_utf8_text())
        } else {
            Ok(decode_utf8(bytes.subrange(width as int, (width + value) as int)))
        },
    }
}

/// `postcard::to_stdvec` on a pair of a number and a text.
///
/// Claimed of it: it succeeds, and gives the varint of the number, the varint of the text's length
/// in bytes and the text's UTF-8 bytes, one after the other.
#[verifier::external_body]
pub(crate) fn encode_tagged(tag: u32, text: &str) -> (encoded: Result<Vec<u8>, String>)
    ensures
        encoded is Ok,
        encoded->Ok_0@ == varint(tag as nat) + text_bytes(text@),
{
    postcard::to_stdvec(&(tag, text)).map_err(|e| e.to_string())
}

/// `postcard::take_from_bytes` for a `u32`.
///
/// Claimed of it: it gives the number that a varint at the front holds and the bytes behind that
/// varint; it fails where the bytes end inside the varint, and where the varint is longer than five
/// bytes or over `u32::MAX`. The failure is what the error displays.
#[verifier::external_body]
pub(crate) fn take_tag(bytes: &[u8]) -> (taken: Result<(u32, &[u8]), String>)
    ensures
        match read_tag(bytes@) {
            Varint::Value { value, width } => taken matches Ok((tag, rest)) && tag == value && rest@
                == bytes@.skip(width as int),
            Varint::Ended => taken matches Err(text) && text@ == ended_text(),
            Varint::Malformed => taken matches Err(text) && text@ == malformed_text(),
        },
{
    postcard::take_from_bytes::<u32>(bytes).map_err(|e| e.to_string())
}

/// `postcard::from_bytes` for a `String`.
///
/// Claimed of it: it reads the varint of a length and that many bytes as UTF-8, and ignores what
/// follows; it fails where the bytes end too early, where the varint is longer than a `usize` needs
/// or over `usize::MAX`, and where the bytes are not UTF-8. The failure is what the error displays.
#[verifier::external_body]
pub(crate) fn decode_text(bytes: &[u8]) -> (decoded: Result<String, String>)
    ensures
        match read_text(bytes@) {
            Ok(text) => decoded matches Ok(s) && s@ == text,
            Err(failure) => decoded matches Err(s) && s@ == failure,
        },
{
    postcard::from_bytes::<String>(bytes).map_err(|e| e.to_string())
}

/// What `postcard::Error::SerdeDeCustom` displays, postcard's error for a tag outside its range.
///
/// Claimed of it: the text.
#[verifier::external_body]
pub(crate) fn unknown_tag() -> (text: String)
    ensures
        text@ == unknown_tag_text(),
{
    postcard::Error::SerdeDeCustom.to_string()
}

/// A varint is never empty, its last byte ends it, and all before continue it.
pub proof fn varint_reads_back(n: nat, rest: Seq<u8>)
    ensures
        varint(n).len() >= 1,
        continuation_run(varint(n) + rest) == varint(n).len() - 1,
        groups_value(varint(n) + rest, varint(n).len()) == n,
    decreases n,
{
    let bytes = varint(n) + rest;
    if n < 128 {
        assert(bytes[0] == n as u8);
        assert(groups_value(bytes.drop_first(), 0) == 0);
    } else {
        varint_reads_back(n / 128, rest);
        assert(bytes.drop_first() =~= varint(n / 128) + rest);
        assert(bytes[0] == (n % 128 + 128) as u8);
        assert(bytes[0] % 128 == n % 128);
    }
}

/// How many numbers fit in `width` groups of seven bits.
spec fn group_capacity(width: nat) -> nat
    decreases width,
{
    if width == 0 {
        1
    } else {
        128 * group_capacity((width - 1) as nat)
    }
}

/// A number that fits in `width` groups takes at most `width` bytes.
proof fn varint_width(n: nat, width: nat)
    requires
        width >= 1,
        n < group_capacity(width),
    ensures
        varint(n).len() <= width,
    decreases width,
{
    if n >= 128 {
        assert(width >= 2) by {
            reveal_with_fuel(group_capacity, 2);
        }
        varint_width(n / 128, (width - 1) as nat);
    }
}

/// The varint of a `u32` is read as that number, whatever follows it.
pub proof fn tag_reads_back(tag: u32, rest: Seq<u8>)
    ensures
        read_tag(varint(tag as nat) + rest) == (Varint::Value {
            value: tag as nat,
            width: varint(tag as nat).len(),
        }),
{
    varint_reads_back(tag as nat, rest);
    assert(group_capacity(5) == 34359738368) by {
        reveal_with_fuel(group_capacity, 6);
    }
    varint_width(tag as nat, 5);
}

/// The varint of a `usize` is read as that number, whatever follows it.
pub proof fn length_reads_back(n: usize, rest: Seq<u8>)
    ensures
        read_length(varint(n as nat) + rest) == (Varint::Value {
            value: n as nat,
            width: varint(n as nat).len(),
        }),
{
    varint_reads_back(n as nat, rest);
    if usize::BITS == 32 {
        assert(group_capacity(5) == 34359738368) by {
            reveal_with_fuel(group_capacity, 6);
        }
        varint_width(n as nat, 5);
    } else {
        assert(group_capacity(10) == 0x40_0000_0000_0000_0000) by {
            reveal_with_fuel(group_capacity, 11);
        }
        varint_width(n as nat, 10);
    }
}

/// A text that a machine can hold is read back as it was written, whatever follows it.
pub proof fn text_reads_back(text: Seq<char>, rest: Seq<u8>)
    requires
        encode_utf8(text).len() <= usize::MAX,
    ensures
        read_text(text_bytes(text) + rest) == Ok::<Seq<char>, Seq<char>>(text),
{
    let utf8 = encode_utf8(text);
    let head = varint(utf8.len());
    let bytes = text_bytes(text) + rest;
    assert(bytes =~= head + (utf8 + rest));
    length_reads_back(utf8.len() as usize, utf8 + rest);
    assert(bytes.subrange(head.len() as int, (head.len() + utf8.len()) as int) =~= utf8);
    encode_utf8_valid_utf8(text);
    encode_utf8_decode_utf8(text);
}

} // verus!
