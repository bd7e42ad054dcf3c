//! The RCON packet codec.
//!
//! Wire layout, little-endian: `int32 length` (remaining bytes after this
//! field) | `int32 request_id` | `int32 type` | payload bytes (ASCII, no
//! length prefix) | two zero padding bytes. The length field equals the
//! payload length plus 10; a whole packet is the payload length plus 14
//! bytes. Payloads must be pure ASCII and at most 1460 bytes.

use vstd::prelude::*;

verus! {

use vstd::bytes::spec_u32_from_le_bytes;
use vstd::bytes::spec_u32_to_le_bytes;
use vstd::bytes::u32_from_le_bytes;
use vstd::bytes::u32_to_le_bytes;
use vstd::slice::slice_index_get;
use vstd::slice::slice_subrange;
use vstd::string::StrSliceExecFns;
use vstd::utf8::is_ascii_chars;

/// Longest payload, in bytes, that a packet may carry.
pub const MAXIMUM_PAYLOAD_LENGTH: usize = 1460;

/// The two request kinds a client sends.
#[derive(Clone, Copy, Debug, PartialEq, Eq, Structural)]
pub enum RconPacketType {
    Login,
    Command,
}

/// The numeric id of a packet type on the wire.
pub open spec fn spec_packet_type_id(packet_type: RconPacketType) -> u32 {
    match packet_type {
        RconPacketType::Login => 3,
        RconPacketType::Command => 2,
    }
}

/// Maps a packet type to its numeric id on the wire.
pub fn packet_type_id(packet_type: RconPacketType) -> (id: u32)
    ensures
        id == spec_packet_type_id(packet_type),
{
    match packet_type {
        RconPacketType::Login => 3,
        RconPacketType::Command => 2,
    }
}

/// Details of a payload that was rejected for its size.
#[derive(Debug, Clone)]
pub struct PayloadTooLongError {
    pub actual_payload_length: usize,
    pub max_payload_length: usize,
}

/// Why a payload cannot be put into a packet.
#[derive(Debug, Clone)]
pub enum RCONPacketError {
    Ascii,
    TooLong(PayloadTooLongError),
}

/// A single RCON request or reply.
pub struct RconPacket {
    pub request_id: i32,
    pub packet_type: RconPacketType,
    pub payload: String,
}

impl RconPacket {
    /// A packet is well formed when its payload is ASCII and short enough to
    /// serialise.
    pub open spec fn wf(self) -> bool {
        &&& is_ascii_chars(self.payload@)
        &&& self.payload@.len() <= MAXIMUM_PAYLOAD_LENGTH
    }

    /// When building a packet from `payload` would fail with `e`: a payload
    /// that is not ASCII is refused as such, and an ASCII payload longer
    /// than the wire format allows is refused for its size.
    pub open spec fn new_would_fail(payload: Seq<char>, e: RCONPacketError) -> bool {
        match e {
            RCONPacketError::Ascii => !is_ascii_chars(payload),
            RCONPacketError::TooLong(d) => {
                &&& is_ascii_chars(payload)
                &&& payload.len() > MAXIMUM_PAYLOAD_LENGTH
                &&& d.actual_payload_length == payload.len()
                &&& d.max_payload_length == MAXIMUM_PAYLOAD_LENGTH
            },
        }
    }

    /// Builds a packet, rejecting payloads that are not ASCII or that are
    /// longer than the wire format allows.
    pub fn new(request_id: i32, packet_type: RconPacketType, payload: &str) -> (r: Result<
        RconPacket,
        RCONPacketError,
    >)
        ensures
            match r {
                Ok(p) => {
                    &&& p.wf()
                    &&& is_ascii_chars(payload@)
                    &&& payload@.len() <= MAXIMUM_PAYLOAD_LENGTH
                    &&& p.request_id == request_id
                    &&& p.packet_type == packet_type
                    &&& p.payload@ == payload@
                },
                Err(e) => RconPacket::new_would_fail(payload@, e),
            },
    {
        if !payload.is_ascii() {
            return Err(RCONPacketError::Ascii);
        }
        let payload_length = payload.unicode_len();
        if payload_length > MAXIMUM_PAYLOAD_LENGTH {
            return Err(RCONPacketError::TooLong(PayloadTooLongError {
                max_payload_length: MAXIMUM_PAYLOAD_LENGTH,
                actual_payload_length: payload_length,
            }));
        }
        Ok(RconPacket {
            request_id,
            packet_type,
            payload: payload.to_owned(),
        })
    }

    /// Writes the wire image of this packet into the front of `data` and
    /// returns how many bytes were written; the rest of `data` is untouched.
    pub fn serialise(&self, data: &mut Vec<u8>) -> (n: usize)
        requires
            self.wf(),
            old(data).len() >= self.payload@.len() + 14,
        ensures
            n == self.payload@.len() + 14,
            final(data)@.len() == old(data)@.len(),
            final(data)@.subrange(0, n as int) == spec_serialise(
                self.request_id,
                self.packet_type,
                self.payload@,
            ),
            final(data)@.subrange(n as int, final(data)@.len() as int) == old(data)@.subrange(
                n as int,
                old(data)@.len() as int,
            ),
    {
        let payload_str = self.payload.as_str();
        proof {
            vstd::string::is_ascii_spec_bytes(payload_str);
        }
        let payload_bytes = payload_str.as_bytes_vec();
        let payload_length = payload_bytes.len();
        let total_packet_length = payload_length + 14;
        // For the length written at the start, the first length field itself
        // does not count.
        let remainder_of_packet_length = payload_length + 10;

        write_u32_le(data, 0, remainder_of_packet_length as u32);
        let request_id_bits = i32_bits(self.request_id);
        write_u32_le(data, 4, request_id_bits);
        write_u32_le(data, 8, packet_type_id(self.packet_type));

        let mut i: usize = 0;
        while i < payload_length
            invariant
                payload_length == payload_bytes@.len(),
                i <= payload_length,
                payload_length + 14 <= data@.len(),
                data@.len() <= usize::MAX,
                data@.len() == old(data)@.len(),
                data@.subrange(0, 4) == spec_u32_to_le_bytes((payload_length + 10) as u32),
                data@.subrange(4, 8) == spec_u32_to_le_bytes(i32_to_u32_bits(self.request_id)),
                data@.subrange(8, 12) == spec_u32_to_le_bytes(spec_packet_type_id(self.packet_type)),
                forall|j: int| 0 <= j < i ==> data@[12 + j] == payload_bytes@[j],
                forall|j: int|
                    12 + payload_length <= j < data@.len() ==> data@[j] == old(data)@[j],
            decreases payload_length - i,
        {
            let ghost pre = data@;
            data[12 + i] = payload_bytes[i];
            proof {
                assert(data@.subrange(0, 4) =~= pre.subrange(0, 4));
                assert(data@.subrange(4, 8) =~= pre.subrange(4, 8));
                assert(data@.subrange(8, 12) =~= pre.subrange(8, 12));
            }
            i = i + 1;
        }

        let ghost pre = data@;
        data[12 + payload_length] = 0u8;
        data[13 + payload_length] = 0u8;
        proof {
            assert(data@.subrange(0, 4) =~= pre.subrange(0, 4));
            assert(data@.subrange(4, 8) =~= pre.subrange(4, 8));
            assert(data@.subrange(8, 12) =~= pre.subrange(8, 12));
            assert(payload_bytes@ =~= payload_bytes_of(self.payload@));
            assert(data@.subrange(0, total_packet_length as int) =~= spec_serialise(
                self.request_id,
                self.packet_type,
                self.payload@,
            ));
            assert(data@.subrange(total_packet_length as int, data@.len() as int)
                =~= old(data)@.subrange(total_packet_length as int, old(data)@.len() as int));
        }
        total_packet_length
    }
}

/// Builds a packet from its parts and writes its wire image into the front
/// of `packet`, returning how many bytes were written.
pub fn write_rcon_packet(
    request_id: i32,
    packet_type: RconPacketType,
    payload: &str,
    packet: &mut Vec<u8>,
) -> (r: Result<usize, RCONPacketError>)
    requires
        is_ascii_chars(payload@) && payload@.len() <= MAXIMUM_PAYLOAD_LENGTH ==> old(
            packet,
        ).len() >= payload@.len() + 14,
    ensures
        match r {
            Ok(n) => {
                &&& is_ascii_chars(payload@)
                &&& payload@.len() <= MAXIMUM_PAYLOAD_LENGTH
                &&& n == payload@.len() + 14
                &&& final(packet)@.len() == old(packet)@.len()
                &&& final(packet)@.subrange(0, n as int) == spec_serialise(
                    request_id,
                    packet_type,
                    payload@,
                )
                &&& final(packet)@.subrange(n as int, final(packet)@.len() as int) == old(
                    packet,
                )@.subrange(n as int, old(packet)@.len() as int)
            },
            Err(RCONPacketError::Ascii) => {
                &&& !is_ascii_chars(payload@)
                &&& final(packet)@ == old(packet)@
            },
            Err(RCONPacketError::TooLong(e)) => {
                &&& is_ascii_chars(payload@)
                &&& payload@.len() > MAXIMUM_PAYLOAD_LENGTH
                &&& e.actual_payload_length == payload@.len()
                &&& e.max_payload_length == MAXIMUM_PAYLOAD_LENGTH
                &&& final(packet)@ == old(packet)@
            },
        },
{
    match RconPacket::new(request_id, packet_type, payload) {
        Ok(p) => Ok(p.serialise(packet)),
        Err(e) => Err(e),
    }
}

/// The character of a single decimal digit.
pub open spec fn digit_char(d: nat) -> char
    recommends
        d < 10,
{
    ((48 + d) as u8) as char
}

/// The decimal notation of a number, most significant digit first.
pub open spec fn spec_decimal(n: nat) -> Seq<char>
    decreases n,
{
    if n < 10 {
        seq![digit_char(n)]
    } else {
        spec_decimal(n / 10).push(digit_char(n % 10))
    }
}

/// Renders a number in decimal notation.
pub fn usize_to_string(n: usize) -> (r: String)
    ensures
        r@ == spec_decimal(n as nat),
    decreases n,
{
    if n < 10 {
        let mut b: Vec<u8> = Vec::new();
        b.push(48 + (n as u8));
        let s = string_from_ascii_bytes(b);
        proof {
            assert(s@ =~= spec_decimal(n as nat));
        }
        s
    } else {
        let mut s = usize_to_string(n / 10);
        let mut b: Vec<u8> = Vec::new();
        b.push(48 + ((n % 10) as u8));
        let d = string_from_ascii_bytes(b);
        s.append(d.as_str());
        proof {
            assert(s@ =~= spec_decimal(n as nat));
        }
        s
    }
}

impl RCONPacketError {
    /// The human-readable description of the error.
    pub open spec fn spec_message(self) -> Seq<char> {
        match self {
            RCONPacketError::Ascii => "Payload was not ASCII"@,
            RCONPacketError::TooLong(e) => "Payload too long. Maximum size is "@ + spec_decimal(
                e.max_payload_length as nat,
            ) + " bytes (ASCII), message was "@ + spec_decimal(e.actual_payload_length as nat)
                + " bytes."@,
        }
    }

    /// Describes the error in one line.
    pub fn message(&self) -> (r: String)
        ensures
            r@ == self.spec_message(),
    {
        match self {
            RCONPacketError::Ascii => String::from_str("Payload was not ASCII"),
            RCONPacketError::TooLong(e) => {
                let mut s = String::from_str("Payload too long. Maximum size is ");
                let max_digits = usize_to_string(e.max_payload_length);
                s.append(max_digits.as_str());
                s.append(" bytes (ASCII), message was ");
                let actual_digits = usize_to_string(e.actual_payload_length);
                s.append(actual_digits.as_str());
                s.append(" bytes.");
                s
            },
        }
    }
}

/// Why a byte buffer cannot be read back as a packet.
#[derive(Debug, Clone, Copy, PartialEq, Eq, Structural)]
pub enum RCONPacketDeserialiseError {
    /// The buffer is shorter than the smallest possible packet.
    Truncated,
    /// The length field does not match the size of the buffer.
    LengthMismatch,
    /// The type field is neither the login nor the command id.
    InvalidType,
    /// The payload holds a byte outside the ASCII range.
    NonAscii,
}

/// The characters of an ASCII byte sequence, one character per byte.
pub open spec fn ascii_chars_of(bytes: Seq<u8>) -> Seq<char> {
    Seq::new(bytes.len(), |i: int| bytes[i] as char)
}

/// What reading a byte buffer back as a packet yields: the request id, the
/// packet type and the payload, or the reason the buffer is rejected.
pub open spec fn spec_deserialise(data: Seq<u8>) -> Result<
    (i32, RconPacketType, Seq<char>),
    RCONPacketDeserialiseError,
> {
    if data.len() < 14 {
        Err(RCONPacketDeserialiseError::Truncated)
    } else if spec_u32_from_le_bytes(data.subrange(0, 4)) != data.len() - 4 {
        Err(RCONPacketDeserialiseError::LengthMismatch)
    } else if spec_u32_from_le_bytes(data.subrange(8, 12)) != 2 && spec_u32_from_le_bytes(
        data.subrange(8, 12),
    ) != 3 {
        Err(RCONPacketDeserialiseError::InvalidType)
    } else if exists|i: int| 12 <= i < data.len() - 2 && data[i] >= 128 {
        Err(RCONPacketDeserialiseError::NonAscii)
    } else {
        let request_id = u32_to_i32_bits(spec_u32_from_le_bytes(data.subrange(4, 8)));
        let packet_type = if spec_u32_from_le_bytes(data.subrange(8, 12)) == 3 {
            RconPacketType::Login
        } else {
            RconPacketType::Command
        };
        Ok((request_id, packet_type, ascii_chars_of(data.subrange(12, data.len() - 2))))
    }
}

impl RconPacket {
    /// Reads a packet back from a whole received buffer, refusing buffers
    /// whose length field disagrees with their size rather than reading out
    /// of bounds.
    pub fn deserialise(data: &[u8]) -> (r: Result<RconPacket, RCONPacketDeserialiseError>)
        ensures
            match r {
                Ok(p) => {
                    &&& is_ascii_chars(p.payload@)
                    &&& spec_deserialise(data@) == Ok::<_, RCONPacketDeserialiseError>(
                        (p.request_id, p.packet_type, p.payload@),
                    )
                },
                Err(e) => spec_deserialise(data@) == Err::<
                    (i32, RconPacketType, Seq<char>),
                    _,
                >(e),
            },
    {
        let actual_packet_length = data.len();
        if actual_packet_length < 14 {
            return Err(RCONPacketDeserialiseError::Truncated);
        }
        // The declared length does not count the four bytes of the length
        // field itself.
        let remainder_of_packet_length = u32_from_le_bytes(slice_subrange(data, 0, 4));
        if remainder_of_packet_length as u64 != (actual_packet_length - 4) as u64 {
            return Err(RCONPacketDeserialiseError::LengthMismatch);
        }
        let request_id_bits = u32_from_le_bytes(slice_subrange(data, 4, 8));
        let type_bits = u32_from_le_bytes(slice_subrange(data, 8, 12));
        let packet_type = if type_bits == 3 {
            RconPacketType::Login
        } else if type_bits == 2 {
            RconPacketType::Command
        } else {
            return Err(RCONPacketDeserialiseError::InvalidType);
        };
        let payload_end = actual_packet_length - 2;
        let mut payload_bytes: Vec<u8> = Vec::new();
        let mut i: usize = 12;
        while i < payload_end
            invariant
                12 <= i <= payload_end,
                payload_end == data@.len() - 2,
                14 <= data@.len() <= usize::MAX,
                spec_u32_from_le_bytes(data@.subrange(0, 4)) == data@.len() - 4,
                spec_u32_from_le_bytes(data@.subrange(8, 12)) == 2 || spec_u32_from_le_bytes(
                    data@.subrange(8, 12),
                ) == 3,
                payload_bytes@.len() == i - 12,
                forall|j: int| 0 <= j < i - 12 ==> payload_bytes@[j] == data@[12 + j],
                forall|j: int| 12 <= j < i ==> data@[j] < 128,
            decreases payload_end - i,
        {
            let b = *slice_index_get(data, i);
            if b >= 128 {
                return Err(RCONPacketDeserialiseError::NonAscii);
            }
            payload_bytes.push(b);
            i = i + 1;
        }
        let ghost pb = payload_bytes@;
        proof {
            assert(pb =~= data@.subrange(12, data@.len() - 2));
        }
        let payload = string_from_ascii_bytes(payload_bytes);
        let request_id = i32_from_bits(request_id_bits);
        proof {
            assert forall|k: int| 0 <= k < payload@.len() implies '\0' <= #[trigger] payload@[k]
                <= '\u{7f}' by {
                lemma_ascii_byte_char(pb[k]);
            }
            assert(payload@ =~= ascii_chars_of(data@.subrange(12, data@.len() - 2)));
        }
        Ok(RconPacket { request_id, packet_type, payload })
    }
}

/// Round trip: reading back the wire image of any ASCII payload of length at
/// most [`MAXIMUM_PAYLOAD_LENGTH`] yields the request id, the type and the
/// payload it was written from.
pub proof fn lemma_round_trip(request_id: i32, packet_type: RconPacketType, payload: Seq<char>)
    requires
        is_ascii_chars(payload),
        payload.len() <= MAXIMUM_PAYLOAD_LENGTH,
    ensures
        spec_deserialise(spec_serialise(request_id, packet_type, payload)) == Ok::<
            _,
            RCONPacketDeserialiseError,
        >((request_id, packet_type, payload)),
{
    vstd::bytes::lemma_auto_spec_u32_to_from_le_bytes();
    let data = spec_serialise(request_id, packet_type, payload);
    let n = payload.len();
    assert(data.len() == n + 14);
    assert(data.subrange(0, 4) =~= spec_u32_to_le_bytes((n + 10) as u32));
    assert(data.subrange(4, 8) =~= spec_u32_to_le_bytes(i32_to_u32_bits(request_id)));
    assert(data.subrange(8, 12) =~= spec_u32_to_le_bytes(spec_packet_type_id(packet_type)));
    assert(data.subrange(12, data.len() - 2) =~= payload_bytes_of(payload));
    assert forall|i: int| 12 <= i < data.len() - 2 implies data[i] < 128 by {
        lemma_ascii_char_byte(payload[i - 12]);
    }
    assert forall|i: int| 0 <= i < n implies ascii_chars_of(payload_bytes_of(payload))[i]
        == payload[i] by {
        lemma_ascii_char_byte(payload[i]);
    }
    assert(ascii_chars_of(data.subrange(12, data.len() - 2)) =~= payload);
    lemma_i32_u32_bits_inverse(request_id);
}

/// An ASCII character and its byte stand for one another.
proof fn lemma_ascii_char_byte(c: char)
    requires
        '\0' <= c <= '\u{7f}',
    ensures
        (c as u8) < 128,
        ((c as u8) as char) == c,
{
    vstd::utf8::char_u32_cast(c, c as u32);
}

/// An ASCII byte and its character stand for one another.
proof fn lemma_ascii_byte_char(b: u8)
    requires
        b < 128,
    ensures
        '\0' <= (b as char) <= '\u{7f}',
        ((b as char) as u8) == b,
{
    vstd::utf8::char_u32_cast(b as char, b as u32);
}

/// Relies on `String::from_utf8`: bytes in the ASCII range are valid UTF-8
/// and decode to the characters with the same values, one per byte.
#[verifier::external_body]
fn string_from_ascii_bytes(bytes: Vec<u8>) -> (r: String)
    requires
        forall|i: int| 0 <= i < bytes@.len() ==> bytes@[i] < 128,
    ensures
        r@ == ascii_chars_of(bytes@),
{
    String::from_utf8(bytes).unwrap()
}

/// Reads the signed 32-bit integer a bit pattern stands for.
fn i32_from_bits(x: u32) -> (r: i32)
    ensures
        r == u32_to_i32_bits(x),
{
    if x <= 0x7fff_ffff {
        x as i32
    } else {
        let wide: i64 = x as i64;
        (wide - 0x1_0000_0000) as i32
    }
}

/// The unsigned bit pattern of a signed 32-bit integer.
pub open spec fn i32_to_u32_bits(x: i32) -> u32 {
    if x >= 0 {
        x as u32
    } else {
        (x + 0x1_0000_0000) as u32
    }
}

/// The signed reading of an unsigned 32-bit bit pattern.
pub open spec fn u32_to_i32_bits(x: u32) -> i32 {
    if x <= i32::MAX {
        x as i32
    } else {
        (x - 0x1_0000_0000) as i32
    }
}

/// The two signed/unsigned readings of one 32-bit pattern name each other.
pub proof fn lemma_i32_u32_bits_inverse(x: i32)
    ensures
        u32_to_i32_bits(i32_to_u32_bits(x)) == x,
{
}

/// The bytes of an ASCII payload, one byte per character.
pub open spec fn payload_bytes_of(payload: Seq<char>) -> Seq<u8> {
    Seq::new(payload.len(), |i: int| payload[i] as u8)
}

/// The exact wire image of a packet: little-endian remainder length,
/// request id and type id, then the payload bytes and two zero bytes.
pub open spec fn spec_serialise(
    request_id: i32,
    packet_type: RconPacketType,
    payload: Seq<char>,
) -> Seq<u8> {
    spec_u32_to_le_bytes((payload.len() + 10) as u32) + spec_u32_to_le_bytes(
        i32_to_u32_bits(request_id),
    ) + spec_u32_to_le_bytes(spec_packet_type_id(packet_type)) + payload_bytes_of(payload)
        + seq![0u8, 0u8]
}

/// Reads the bit pattern of a signed 32-bit integer.
fn i32_bits(x: i32) -> (r: u32)
    ensures
        r == i32_to_u32_bits(x),
{
    if x >= 0 {
        x as u32
    } else {
        let wide: i64 = x as i64;
        (wide + 0x1_0000_0000) as u32
    }
}

/// Writes the four little-endian bytes of `x` at `pos`, leaving every other
/// byte of `data` as it was.
fn write_u32_le(data: &mut Vec<u8>, pos: usize, x: u32)
    requires
        pos + 4 <= old(data).len(),
    ensures
        final(data)@.len() == old(data)@.len(),
        final(data)@.subrange(pos as int, pos + 4) == spec_u32_to_le_bytes(x),
        forall|i: int|
            0 <= i < final(data)@.len() && !(pos <= i < pos + 4) ==> final(data)@[i] == old(
                data,
            )@[i],
{
    let bytes = u32_to_le_bytes(x);
    data[pos] = bytes[0];
    data[pos + 1] = bytes[1];
    data[pos + 2] = bytes[2];
    data[pos + 3] = bytes[3];
    proof {
        assert(data@.subrange(pos as int, pos + 4) =~= spec_u32_to_le_bytes(x));
    }
}

} // verus!

