//! The fixed eight-byte chunk header: a declared length and a flag bitmask,
//! both little-endian 32-bit unsigned integers.

use crate::error::ProtocolError;
use vstd::prelude::*;

verus! {

/// Bytes in a chunk header.
pub const PDU_HEADER_LENGTH: usize = 8;

/// The largest payload that the host transport puts into one chunk.
pub const CHUNK_LENGTH: usize = 1600;

/// The largest fragment that one read can return: a header and a full chunk.
pub const PACKET_MAX_LENGTH: usize = CHUNK_LENGTH + PDU_HEADER_LENGTH;

/// Flags of a fragment that continues a message and does not end it.
pub const FLAG_MIDDLE: u32 = 0x0;

/// Flags of a fragment that opens a message of several fragments.
pub const FLAG_FIRST: u32 = 0x1;

/// Flags of the fragment that ends a message of several fragments.
pub const FLAG_LAST: u32 = 0x2;

/// Flags of a fragment that is a whole message: first and last at once.
pub const FLAG_ONLY: u32 = 0x3;

/// The decoded header of one fragment.
#[derive(Clone, Copy, Debug, PartialEq, Eq, Structural)]
pub struct ChunkHeader {
    /// Total payload length of the message; meaningful on a terminal fragment only.
    pub declared_length: u32,
    /// The flag bitmask as it stood on the wire.
    pub flags: u32,
}

/// The place of a fragment in its message.
#[derive(Clone, Copy, Debug, PartialEq, Eq, Structural)]
pub enum FragmentKind {
    Only,
    First,
    Middle,
    Last,
}

/// The number that four bytes stand for, least significant byte first.
pub open spec fn le_value(b: Seq<u8>) -> int
    recommends
        b.len() == 4,
{
    b[0] as int + 256 * (b[1] as int) + 65536 * (b[2] as int) + 16777216 * (b[3] as int)
}

/// The four bytes that stand for `x`, least significant byte first.
pub open spec fn le_bytes(x: u32) -> Seq<u8> {
    seq![
        (x as int % 256) as u8,
        (x as int / 256 % 256) as u8,
        (x as int / 65536 % 256) as u8,
        (x as int / 16777216) as u8,
    ]
}

/// The header that the first eight bytes of `bytes` hold.
pub open spec fn header_of(bytes: Seq<u8>) -> ChunkHeader
    recommends
        bytes.len() >= 8,
{
    ChunkHeader {
        declared_length: le_value(bytes.subrange(0, 4)) as u32,
        flags: le_value(bytes.subrange(4, 8)) as u32,
    }
}

/// The eight bytes of a header with these two fields.
pub open spec fn header_bytes(declared_length: u32, flags: u32) -> Seq<u8> {
    le_bytes(declared_length) + le_bytes(flags)
}

/// The place in a message that a flag bitmask stands for, if it is defined.
pub open spec fn kind_of(flags: u32) -> Option<FragmentKind> {
    if flags == FLAG_ONLY {
        Some(FragmentKind::Only)
    } else if flags == FLAG_LAST {
        Some(FragmentKind::Last)
    } else if flags == FLAG_FIRST {
        Some(FragmentKind::First)
    } else if flags == FLAG_MIDDLE {
        Some(FragmentKind::Middle)
    } else {
        None
    }
}

impl FragmentKind {
    /// Whether a fragment of this kind ends its message.
    pub open spec fn terminal(self) -> bool {
        self == FragmentKind::Only || self == FragmentKind::Last
    }

    /// The flag bitmask of this kind.
    pub open spec fn flag_bits(self) -> u32 {
        match self {
            FragmentKind::Only => FLAG_ONLY,
            FragmentKind::First => FLAG_FIRST,
            FragmentKind::Middle => FLAG_MIDDLE,
            FragmentKind::Last => FLAG_LAST,
        }
    }

    /// Whether a fragment of this kind ends its message.
    pub fn is_terminal(self) -> (r: bool)
        ensures
            r == self.terminal(),
    {
        match self {
            FragmentKind::Only | FragmentKind::Last => true,
            FragmentKind::First | FragmentKind::Middle => false,
        }
    }

    /// The flag bitmask of this kind.
    pub fn flags(self) -> (r: u32)
        ensures
            r == self.flag_bits(),
            kind_of(r) == Some(self),
    {
        match self {
            FragmentKind::Only => FLAG_ONLY,
            FragmentKind::First => FLAG_FIRST,
            FragmentKind::Middle => FLAG_MIDDLE,
            FragmentKind::Last => FLAG_LAST,
        }
    }
}

impl ChunkHeader {
    /// The eight bytes that stand for this header on the wire.
    pub open spec fn wire(self) -> Seq<u8> {
        header_bytes(self.declared_length, self.flags)
    }

    /// The place of the fragment in its message, unless the flags are undefined.
    pub fn kind(&self) -> (r: Result<FragmentKind, ProtocolError>)
        ensures
            match kind_of(self.flags) {
                Some(kind) => r == Ok::<FragmentKind, ProtocolError>(kind),
                None => r == Err::<FragmentKind, ProtocolError>(
                    ProtocolError::UnsupportedFlags { flags: self.flags },
                ),
            },
    {
        classify(self.flags)
    }

    /// The eight bytes that stand for this header on the wire.
    pub fn to_bytes(&self) -> (r: [u8; 8])
        ensures
            r@ == self.wire(),
    {
        encode(self.declared_length, self.flags)
    }
}

/// Four bytes stand for a number below 2^32, and writing that number gives
/// the same four bytes again.
pub proof fn le_bytes_of_le_value(b: Seq<u8>)
    requires
        b.len() == 4,
    ensures
        0 <= le_value(b) <= u32::MAX,
        le_bytes(le_value(b) as u32) == b,
{
    let v = le_value(b);
    assert(v % 256 == b[0]);
    assert(v / 256 % 256 == b[1]);
    assert(v / 65536 % 256 == b[2]);
    assert(v / 16777216 == b[3]);
    assert(le_bytes(v as u32) =~= b);
}

/// Reading the four bytes written for a number gives that number.
pub proof fn le_value_of_le_bytes(x: u32)
    ensures
        le_bytes(x).len() == 4,
        le_value(le_bytes(x)) == x,
{
}

/// Encoding what was decoded from eight bytes gives the same eight bytes.
pub proof fn encode_after_decode(bytes: Seq<u8>)
    requires
        bytes.len() == 8,
    ensures
        header_of(bytes).wire() == bytes,
{
    le_bytes_of_le_value(bytes.subrange(0, 4));
    le_bytes_of_le_value(bytes.subrange(4, 8));
    assert(header_of(bytes).wire() =~= bytes);
}

/// Decoding the bytes of an encoded header gives its two fields, whatever
/// follows the eight bytes.
pub proof fn decode_after_encode(declared_length: u32, flags: u32, rest: Seq<u8>)
    ensures
        header_bytes(declared_length, flags).len() == 8,
        header_of(header_bytes(declared_length, flags) + rest) == (ChunkHeader {
            declared_length,
            flags,
        }),
{
    let bytes = header_bytes(declared_length, flags) + rest;
    le_value_of_le_bytes(declared_length);
    le_value_of_le_bytes(flags);
    assert(bytes.subrange(0, 4) =~= le_bytes(declared_length));
    assert(bytes.subrange(4, 8) =~= le_bytes(flags));
}

/// Reads the little-endian integer in the four bytes from `offset` on.
fn read_le(bytes: &[u8], offset: usize) -> (r: u32)
    requires
        offset + 4 <= bytes@.len(),
    ensures
        r == le_value(bytes@.subrange(offset as int, offset + 4)),
{
    let b0: u32 = bytes[offset] as u32;
    let b1: u32 = bytes[offset + 1] as u32;
    let b2: u32 = bytes[offset + 2] as u32;
    let b3: u32 = bytes[offset + 3] as u32;
    b0 + 256 * b1 + 65536 * b2 + 16777216 * b3
}

/// Decodes the header at the start of a fragment.
///
/// Fewer than eight bytes, an empty read included, are a malformed fragment.
pub fn decode(bytes: &[u8]) -> (r: Result<ChunkHeader, ProtocolError>)
    ensures
        bytes@.len() < 8 ==> r == Err::<ChunkHeader, ProtocolError>(
            ProtocolError::MalformedFragment { length: bytes@.len() as usize },
        ),
        bytes@.len() >= 8 ==> r == Ok::<ChunkHeader, ProtocolError>(header_of(bytes@)),
{
    if bytes.len() < PDU_HEADER_LENGTH {
        return Err(ProtocolError::MalformedFragment { length: bytes.len() });
    }
    let declared_length = read_le(bytes, 0);
    let flags = read_le(bytes, 4);
    Ok(ChunkHeader { declared_length, flags })
}

/// Encodes a header. Both fields are written as they are: any value is
/// representable, and none is rejected.
pub fn encode(declared_length: u32, flags: u32) -> (r: [u8; 8])
    ensures
        r@ == header_bytes(declared_length, flags),
{
    let r: [u8; 8] = [
        (declared_length % 256) as u8,
        (declared_length / 256 % 256) as u8,
        (declared_length / 65536 % 256) as u8,
        (declared_length / 16777216) as u8,
        (flags % 256) as u8,
        (flags / 256 % 256) as u8,
        (flags / 65536 % 256) as u8,
        (flags / 16777216) as u8,
    ];
    assert(r@ =~= header_bytes(declared_length, flags));
    r
}

/// Tells the place of a fragment from its flags, and rejects every bitmask
/// but the four defined ones.
pub fn classify(flags: u32) -> (r: Result<FragmentKind, ProtocolError>)
    ensures
        match kind_of(flags) {
            Some(kind) => r == Ok::<FragmentKind, ProtocolError>(kind),
            None => r == Err::<FragmentKind, ProtocolError>(
                ProtocolError::UnsupportedFlags { flags },
            ),
        },
        r is Err <==> flags > 3,
{
    if flags == FLAG_ONLY {
        Ok(FragmentKind::Only)
    } else if flags == FLAG_LAST {
        Ok(FragmentKind::Last)
    } else if flags == FLAG_FIRST {
        Ok(FragmentKind::First)
    } else if flags == FLAG_MIDDLE {
        Ok(FragmentKind::Middle)
    } else {
        Err(ProtocolError::UnsupportedFlags { flags })
    }
}

} // verus!
