use vstd::prelude::*;
use vstd::utf8::{decode_utf8, valid_utf8};
use byteorder::{BigEndian, ByteOrder};
use crate::cursor::ByteCursor;
use crate::error::ProtocolError;
use crate::varint::{varint_parse, VarInt};

verus! {

/// A type that can be read from a byte cursor.
///
/// `parse` says, for the bytes still before the cursor, what `read` returns
/// and how many bytes it uses. `read` moves the cursor by exactly that many
/// bytes when it succeeds and leaves it where it was when it fails.
pub trait Readable: Sized + View {
    /// The value at the head of `bytes` and the number of bytes it takes, or
    /// the reason why there is none.
    spec fn parse(bytes: Seq<u8>) -> Result<(Self::V, nat), ProtocolError>;

    /// Reads this type from the given buffer.
    fn read(buffer: &mut ByteCursor) -> (r: Result<Self, ProtocolError>)
        requires
            old(buffer).wf(),
        ensures
            final(buffer).wf(),
            final(buffer).bytes() == old(buffer).bytes(),
            match Self::parse(old(buffer).remaining()) {
                Ok((value, used)) => r matches Ok(got) && got@ == value && final(buffer).offset()
                    == old(buffer).offset() + used,
                Err(e) => r matches Err(got) && got == e && final(buffer).offset() == old(
                    buffer,
                ).offset(),
            },
    ;
}

/// Longest string, in bytes, that the protocol lets a peer declare.
pub const MAX_STRING_LENGTH: i32 = 32767;

/// The number that `bytes` spell in base 256, first byte highest.
pub open spec fn be_value(bytes: Seq<u8>) -> nat
    decreases bytes.len(),
{
    if bytes.len() == 0 {
        0
    } else {
        be_value(bytes.drop_last()) * 256 + bytes.last() as nat
    }
}

/// The signed reading of `n` among `modulus` two's-complement bit patterns.
pub open spec fn twos_complement(n: nat, modulus: nat) -> int {
    if 2 * n >= modulus {
        n - modulus
    } else {
        n as int
    }
}

/// The unsigned big-endian number in the first `width` bytes, with `width` as
/// the bytes used; `UnexpectedEof` where fewer are there.
pub open spec fn unsigned_parse(bytes: Seq<u8>, width: nat) -> Result<(nat, nat), ProtocolError> {
    if bytes.len() < width {
        Err(ProtocolError::UnexpectedEof)
    } else {
        Ok((be_value(bytes.take(width as int)), width))
    }
}

/// The signed big-endian number in the first `width` bytes.
pub open spec fn signed_parse(bytes: Seq<u8>, width: nat, modulus: nat) -> Result<
    (int, nat),
    ProtocolError,
> {
    if bytes.len() < width {
        Err(ProtocolError::UnexpectedEof)
    } else {
        Ok((twos_complement(be_value(bytes.take(width as int)), modulus), width))
    }
}

/// What a length-prefixed string at the head of `bytes` decodes to.
///
/// The length is a `VarInt` counting bytes. A length that is negative or above
/// `MAX_STRING_LENGTH` is rejected outright, before any byte of the text is
/// looked at; a text shorter than declared is `UnexpectedEof`; a text that is
/// not UTF-8 is `InvalidEncoding`.
pub open spec fn string_parse(bytes: Seq<u8>) -> Result<(Seq<char>, nat), ProtocolError> {
    match varint_parse(bytes) {
        Err(e) => Err(e),
        Ok((declared, used)) => {
            if declared < 0 || declared > MAX_STRING_LENGTH {
                Err(ProtocolError::InvalidLength { declared })
            } else if bytes.len() - used < declared {
                Err(ProtocolError::UnexpectedEof)
            } else {
                let text = bytes.subrange(used as int, used + declared);
                if valid_utf8(text) {
                    Ok((decode_utf8(text), (used + declared) as nat))
                } else {
                    Err(ProtocolError::InvalidEncoding)
                }
            }
        },
    }
}

/// `byteorder::BigEndian::read_u16`: the first two bytes of `bytes` as a
/// number, the first byte the high one. It panics on a shorter slice, which
/// the `requires` rules out.
#[verifier::external_body]
fn be_u16(bytes: &[u8]) -> (v: u16)
    requires
        bytes@.len() >= 2,
    ensures
        v == be_value(bytes@.take(2)),
{
    BigEndian::read_u16(bytes)
}

/// `byteorder::BigEndian::read_u32`: the first four bytes of `bytes` as a
/// number, highest byte first. It panics on a shorter slice.
#[verifier::external_body]
fn be_u32(bytes: &[u8]) -> (v: u32)
    requires
        bytes@.len() >= 4,
    ensures
        v == be_value(bytes@.take(4)),
{
    BigEndian::read_u32(bytes)
}

/// `byteorder::BigEndian::read_u64`: the first eight bytes of `bytes` as a
/// number, highest byte first. It panics on a shorter slice.
#[verifier::external_body]
fn be_u64(bytes: &[u8]) -> (v: u64)
    requires
        bytes@.len() >= 8,
    ensures
        v == be_value(bytes@.take(8)),
{
    BigEndian::read_u64(bytes)
}

/// `byteorder::BigEndian::read_i16`: the first two bytes of `bytes`, highest
/// first, read as a two's-complement number. It panics on a shorter slice.
#[verifier::external_body]
fn be_i16(bytes: &[u8]) -> (v: i16)
    requires
        bytes@.len() >= 2,
    ensures
        v == twos_complement(be_value(bytes@.take(2)), 0x1_0000),
{
    BigEndian::read_i16(bytes)
}

/// `byteorder::BigEndian::read_i32`: the first four bytes of `bytes`, highest
/// first, read as a two's-complement number. It panics on a shorter slice.
#[verifier::external_body]
fn be_i32(bytes: &[u8]) -> (v: i32)
    requires
        bytes@.len() >= 4,
    ensures
        v == twos_complement(be_value(bytes@.take(4)), 0x1_0000_0000),
{
    BigEndian::read_i32(bytes)
}

/// `byteorder::BigEndian::read_i64`: the first eight bytes of `bytes`, highest
/// first, read as a two's-complement number. It panics on a shorter slice.
#[verifier::external_body]
fn be_i64(bytes: &[u8]) -> (v: i64)
    requires
        bytes@.len() >= 8,
    ensures
        v == twos_complement(be_value(bytes@.take(8)), 0x1_0000_0000_0000_0000),
{
    BigEndian::read_i64(bytes)
}

/// `std::str::from_utf8`: the text that `bytes` encode, where they are valid
/// UTF-8, and nothing where they are not.
#[verifier::external_body]
fn text_of(bytes: &[u8]) -> (text: Option<&str>)
    ensures
        text is Some <==> valid_utf8(bytes@),
        text matches Some(s) ==> s@ == decode_utf8(bytes@),
{
    std::str::from_utf8(bytes).ok()
}

impl View for VarInt {
    type V = i32;

    open spec fn view(&self) -> i32 {
        self.0
    }
}

impl Readable for VarInt {
    open spec fn parse(bytes: Seq<u8>) -> Result<(i32, nat), ProtocolError> {
        varint_parse(bytes)
    }

    fn read(buffer: &mut ByteCursor) -> (r: Result<Self, ProtocolError>) {
        VarInt::read_from(buffer)
    }
}

impl Readable for u16 {
    open spec fn parse(bytes: Seq<u8>) -> Result<(u16, nat), ProtocolError> {
        match unsigned_parse(bytes, 2) {
            Ok((value, used)) => Ok((value as u16, used)),
            Err(e) => Err(e),
        }
    }

    fn read(buffer: &mut ByteCursor) -> (r: Result<Self, ProtocolError>) {
        match buffer.read_exact(2) {
            Ok(taken) => {
                assert(taken@.take(2) =~= taken@);
                Ok(be_u16(taken))
            },
            Err(e) => Err(e),
        }
    }
}

impl Readable for u32 {
    open spec fn parse(bytes: Seq<u8>) -> Result<(u32, nat), ProtocolError> {
        match unsigned_parse(bytes, 4) {
            Ok((value, used)) => Ok((value as u32, used)),
            Err(e) => Err(e),
        }
    }

    fn read(buffer: &mut ByteCursor) -> (r: Result<Self, ProtocolError>) {
        match buffer.read_exact(4) {
            Ok(taken) => {
                assert(taken@.take(4) =~= taken@);
                Ok(be_u32(taken))
            },
            Err(e) => Err(e),
        }
    }
}

impl Readable for u64 {
    open spec fn parse(bytes: Seq<u8>) -> Result<(u64, nat), ProtocolError> {
        match unsigned_parse(bytes, 8) {
            Ok((value, used)) => Ok((value as u64, used)),
            Err(e) => Err(e),
        }
    }

    fn read(buffer: &mut ByteCursor) -> (r: Result<Self, ProtocolError>) {
        match buffer.read_exact(8) {
            Ok(taken) => {
                assert(taken@.take(8) =~= taken@);
                Ok(be_u64(taken))
            },
            Err(e) => Err(e),
        }
    }
}

impl Readable for i16 {
    open spec fn parse(bytes: Seq<u8>) -> Result<(i16, nat), ProtocolError> {
        match signed_parse(bytes, 2, 0x1_0000) {
            Ok((value, used)) => Ok((value as i16, used)),
            Err(e) => Err(e),
        }
    }

    fn read(buffer: &mut ByteCursor) -> (r: Result<Self, ProtocolError>) {
        match buffer.read_exact(2) {
            Ok(taken) => {
                assert(taken@.take(2) =~= taken@);
                Ok(be_i16(taken))
            },
            Err(e) => Err(e),
        }
    }
}

impl Readable for i32 {
    open spec fn parse(bytes: Seq<u8>) -> Result<(i32, nat), ProtocolError> {
        match signed_parse(bytes, 4, 0x1_0000_0000) {
            Ok((value, used)) => Ok((value as i32, used)),
            Err(e) => Err(e),
        }
    }

    fn read(buffer: &mut ByteCursor) -> (r: Result<Self, ProtocolError>) {
        match buffer.read_exact(4) {
            Ok(taken) => {
                assert(taken@.take(4) =~= taken@);
                Ok(be_i32(taken))
            },
            Err(e) => Err(e),
        }
    }
}

impl Readable for i64 {
    open spec fn parse(bytes: Seq<u8>) -> Result<(i64, nat), ProtocolError> {
        match signed_parse(bytes, 8, 0x1_0000_0000_0000_0000) {
            Ok((value, used)) => Ok((value as i64, used)),
            Err(e) => Err(e),
        }
    }

    fn read(buffer: &mut ByteCursor) -> (r: Result<Self, ProtocolError>) {
        match buffer.read_exact(8) {
            Ok(taken) => {
                assert(taken@.take(8) =~= taken@);
                Ok(be_i64(taken))
            },
            Err(e) => Err(e),
        }
    }
}

impl Readable for String {
    open spec fn parse(bytes: Seq<u8>) -> Result<(Seq<char>, nat), ProtocolError> {
        string_parse(bytes)
    }

    fn read(buffer: &mut ByteCursor) -> (r: Result<Self, ProtocolError>) {
        let ghost input = buffer.remaining();
        let mut probe = *buffer;
        let length: i32 = match VarInt::read_from(&mut probe) {
            Ok(v) => v.0,
            Err(e) => {
                return Err(e);
            },
        };
        if length < 0 || length > MAX_STRING_LENGTH {
            return Err(ProtocolError::InvalidLength { declared: length });
        }
        let ghost used = (probe.offset() - buffer.offset()) as nat;
        assert(probe.remaining() =~= input.skip(used as int));
        let taken = match probe.read_exact(length as usize) {
            Ok(taken) => taken,
            Err(e) => {
                return Err(e);
            },
        };
        assert(taken@ =~= input.subrange(used as int, used + length));
        match text_of(taken) {
            Some(text) => {
                *buffer = probe;
                Ok(text.to_owned())
            },
            None => Err(ProtocolError::InvalidEncoding),
        }
    }
}

} // verus!
