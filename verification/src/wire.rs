//! Protocol-buffer field encodings, as the `protobuf` crate produces them.
//!
//! The four functions that call the crate are not proved: each states what
//! the crate's source shows of the call it makes, and the rest of the
//! library is verified against those statements.

use vstd::prelude::*;
use vstd::string::StringSliceAdditionalSpecFns;
use vstd::utf8::encode_utf8;

verus! {

/// The failure of a `protobuf` operation; nothing is known of its contents.
#[verifier::external_type_specification]
#[verifier::external_body]
pub struct ExProtobufError(protobuf::Error);

/// The largest field number that a tag can carry.
pub const FIELD_NUMBER_MAX: u32 = 0x1fff_ffff;

/// The longest payload, in bytes, whose length prefix is written in full.
pub const PAYLOAD_MAX: u64 = 0xffff_ffff;

/// The wire type of a field that holds a varint.
pub const WIRE_VARINT: u32 = 0;

/// The wire type of a field that holds a length and that many bytes.
pub const WIRE_LENGTH_DELIMITED: u32 = 2;

/// A number as a varint: seven bits to the byte, the lowest first, and the
/// high bit set on every byte but the last.
pub open spec fn varint(n: nat) -> Seq<u8>
    decreases n,
{
    if n < 128 {
        seq![n as u8]
    } else {
        seq![(n % 128 + 128) as u8] + varint(n / 128)
    }
}

/// The tag of a field: its number, shifted past the three bits of its wire
/// type.
pub open spec fn tag(field: u32, wire_type: u32) -> nat {
    (field * 8 + wire_type) as nat
}

/// The bytes of one length-delimited string field: its tag, the length of
/// the UTF-8 text, and the text.
pub open spec fn string_field_bytes(field: u32, text: Seq<char>) -> Seq<u8> {
    varint(tag(field, WIRE_LENGTH_DELIMITED)) + varint(encode_utf8(text).len()) + encode_utf8(
        text,
    )
}

/// The bytes of one unsigned 32-bit varint field: its tag and the value.
pub open spec fn uint32_field_bytes(field: u32, value: u32) -> Seq<u8> {
    varint(tag(field, WIRE_VARINT)) + varint(value as nat)
}

/// Whether a field number may be written.
pub open spec fn valid_field(field: u32) -> bool {
    1 <= field <= FIELD_NUMBER_MAX
}

/// A number of 32 bits takes one to five bytes as a varint.
pub proof fn varint_of_u32_is_short(n: nat)
    requires
        n <= u32::MAX,
    ensures
        1 <= varint(n).len() <= 5,
{
    reveal_with_fuel(varint, 6);
}

/// A string field is longer than its text by a tag and a length prefix of
/// at most five bytes each.
pub proof fn string_field_is_short(field: u32, text: Seq<char>)
    requires
        valid_field(field),
        encode_utf8(text).len() <= PAYLOAD_MAX,
    ensures
        encode_utf8(text).len() + 2 <= string_field_bytes(field, text).len() <= encode_utf8(
            text,
        ).len() + 10,
{
    varint_of_u32_is_short(tag(field, WIRE_LENGTH_DELIMITED));
    varint_of_u32_is_short(encode_utf8(text).len());
}

/// A varint field of 32 bits takes two to ten bytes.
pub proof fn uint32_field_is_short(field: u32, value: u32)
    requires
        valid_field(field),
    ensures
        2 <= uint32_field_bytes(field, value).len() <= 10,
{
    varint_of_u32_is_short(tag(field, WIRE_VARINT));
    varint_of_u32_is_short(value as nat);
}

/// Calls `CodedOutputStream::write_string` on a stream over a fresh vector,
/// then `flush`. On a vector neither can fail, and the vector then holds the
/// one field: the tag, the length of the text in bytes, and the text, each
/// number as a varint. The field number must be in range, or the crate
/// panics; the text must be short enough for its length to be written
/// untruncated.
#[verifier::external_body]
pub(crate) fn string_field(field: u32, text: &str) -> (bytes: Result<Vec<u8>, protobuf::Error>)
    requires
        valid_field(field),
        text.spec_bytes().len() <= PAYLOAD_MAX,
    ensures
        bytes is Ok,
        bytes matches Ok(b) ==> b@ == string_field_bytes(field, text@),
{
    let mut buffer: Vec<u8> = Vec::new();
    let mut stream = protobuf::CodedOutputStream::vec(&mut buffer);
    stream.write_string(field, text)?;
    stream.flush()?;
    drop(stream);
    Ok(buffer)
}

/// Calls `CodedOutputStream::write_uint32` on a stream over a fresh vector,
/// then `flush`. On a vector neither can fail, and the vector then holds the
/// one field: the tag and the value, each as a varint. The field number must
/// be in range, or the crate panics.
#[verifier::external_body]
pub(crate) fn uint32_field(field: u32, value: u32) -> (bytes: Result<Vec<u8>, protobuf::Error>)
    requires
        valid_field(field),
    ensures
        bytes is Ok,
        bytes matches Ok(b) ==> b@ == uint32_field_bytes(field, value),
{
    let mut buffer: Vec<u8> = Vec::new();
    let mut stream = protobuf::CodedOutputStream::vec(&mut buffer);
    stream.write_uint32(field, value)?;
    stream.flush()?;
    drop(stream);
    Ok(buffer)
}

/// Calls `protobuf::rt::string_size`, documented as the size of the encoded
/// string field: the lengths of the tag and of the length prefix as varints,
/// and the length of the UTF-8 text.
#[verifier::external_body]
pub(crate) fn string_field_size(field: u32, text: &str) -> (size: u64)
    requires
        valid_field(field),
        text.spec_bytes().len() <= PAYLOAD_MAX,
    ensures
        size == string_field_bytes(field, text@).len(),
{
    protobuf::rt::string_size(field, text)
}

/// Calls `protobuf::rt::uint32_size`, documented as the size of the encoded
/// field: the lengths of the tag and of the value as varints.
#[verifier::external_body]
pub(crate) fn uint32_field_size(field: u32, value: u32) -> (size: u64)
    requires
        valid_field(field),
    ensures
        size == uint32_field_bytes(field, value).len(),
{
    protobuf::rt::uint32_size(field, value)
}

} // verus!
