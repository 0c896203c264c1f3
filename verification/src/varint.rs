use vstd::prelude::*;
use vstd::std_specs::convert::FromSpecImpl;
use crate::cursor::ByteCursor;
use crate::error::ProtocolError;

verus! {

/// A variable-length integer: a signed 32-bit value carried in one to five
/// bytes, seven data bits per byte, lowest group first; the high bit of a byte
/// says that another byte follows.
#[derive(Copy, Clone, Debug, PartialEq, Eq, Structural)]
pub struct VarInt(pub i32);

impl From<VarInt> for i32 {
    fn from(x: VarInt) -> (value: i32) {
        x.0
    }
}

impl FromSpecImpl<VarInt> for i32 {
    open spec fn obeys_from_spec() -> bool {
        true
    }

    open spec fn from_spec(x: VarInt) -> i32 {
        x.0
    }
}

impl From<i32> for VarInt {
    fn from(x: i32) -> (value: VarInt) {
        VarInt(x)
    }
}

impl FromSpecImpl<i32> for VarInt {
    open spec fn obeys_from_spec() -> bool {
        true
    }

    open spec fn from_spec(x: i32) -> VarInt {
        VarInt(x)
    }
}

/// Largest number of bytes a `VarInt` may take on the wire.
pub const MAX_VARINT_LEN: usize = 5;

/// Weight of the group at index `i`, that is 2^(7i).
pub open spec fn group_weight(i: nat) -> nat
    decreases i,
{
    if i == 0 {
        1
    } else {
        128 * group_weight((i - 1) as nat)
    }
}

/// The low seven bits of each of the first `n` bytes, each taken at the
/// weight of its index, summed.
pub open spec fn groups_value(bytes: Seq<u8>, n: nat) -> nat
    decreases n,
{
    if n == 0 {
        0
    } else {
        groups_value(bytes, (n - 1) as nat) + (bytes[n - 1] as nat % 128) * group_weight(
            (n - 1) as nat,
        )
    }
}

/// How many bytes the integer at the head of `bytes` takes, scanning on from
/// index `i`: the scan ends behind the first byte whose high bit is clear. It
/// fails with `UnexpectedEof` where the bytes run out first, and with
/// `MalformedVarInt` where a sixth byte would have to be read.
pub open spec fn groups_from(bytes: Seq<u8>, i: nat) -> Result<nat, ProtocolError>
    decreases bytes.len() - i,
{
    if i >= bytes.len() {
        Err(ProtocolError::UnexpectedEof)
    } else if i >= MAX_VARINT_LEN {
        Err(ProtocolError::MalformedVarInt)
    } else if bytes[i as int] < 128 {
        Ok(i + 1)
    } else {
        groups_from(bytes, i + 1)
    }
}

/// The signed 32-bit value whose two's-complement bits are the low 32 bits of `n`.
pub open spec fn wrap_i32(n: nat) -> i32 {
    let low = n % 0x1_0000_0000;
    if low >= 0x8000_0000 {
        (low - 0x1_0000_0000) as i32
    } else {
        low as i32
    }
}

/// The two's-complement bits of `v`, read as an unsigned number.
pub open spec fn unsigned_of(v: i32) -> nat {
    if v < 0 {
        (v + 0x1_0000_0000) as nat
    } else {
        v as nat
    }
}

/// What the bytes at the head of `bytes` decode to: the value and the number
/// of bytes it took. Bits above the 32nd are dropped.
pub open spec fn varint_parse(bytes: Seq<u8>) -> Result<(i32, nat), ProtocolError> {
    match groups_from(bytes, 0) {
        Ok(n) => Ok((wrap_i32(groups_value(bytes, n)), n)),
        Err(e) => Err(e),
    }
}

/// The seven-bit groups of `u`, lowest first, each but the last with its high
/// bit set.
pub open spec fn groups_of(u: nat) -> Seq<u8>
    decreases u,
{
    if u < 128 {
        seq![u as u8]
    } else {
        seq![((u % 128) + 128) as u8] + groups_of(u / 128)
    }
}

/// The wire form of `v`.
pub open spec fn varint_encoding(v: i32) -> Seq<u8> {
    groups_of(unsigned_of(v))
}

proof fn lemma_group_weights()
    ensures
        group_weight(0) == 1,
        group_weight(1) == 0x80,
        group_weight(2) == 0x4000,
        group_weight(3) == 0x20_0000,
        group_weight(4) == 0x1000_0000,
        group_weight(5) == 0x8_0000_0000,
{
    reveal_with_fuel(group_weight, 6);
}

/// The signed value with the same 32 bits as `bits`.
fn signed_of(bits: u32) -> (v: i32)
    ensures
        v == wrap_i32(bits as nat),
{
    if bits >= 0x8000_0000 {
        let low: u32 = bits - 0x8000_0000;
        (low as i32) + i32::MIN
    } else {
        bits as i32
    }
}

/// The 32 bits of `v`, unsigned.
fn bits_of(v: i32) -> (bits: u32)
    ensures
        bits == unsigned_of(v),
{
    if v < 0 {
        let low: i32 = v - i32::MIN;
        (low as u32) + 0x8000_0000
    } else {
        v as u32
    }
}

/// `result` with a seven-bit group put in at index `n`.
fn merge_group(result: u32, low: u8, n: usize) -> (merged: u32)
    requires
        n < MAX_VARINT_LEN,
        low < 128,
        result < group_weight(n as nat),
    ensures
        merged == (result + low * group_weight(n as nat)) % 0x1_0000_0000,
{
    proof {
        lemma_group_weights();
    }
    let wide: u32 = low as u32;
    let merged: u32 = result | (wide << (7 * n));
    proof {
        if n == 0 {
            assert(result == 0 && wide < 0x80 ==> (result | (wide << 0u32)) == wide)
                by (bit_vector);
        } else if n == 1 {
            assert(result < 0x80 && wide < 0x80 ==> (result | (wide << 7u32)) == result + wide
                * 0x80) by (bit_vector);
        } else if n == 2 {
            assert(result < 0x4000 && wide < 0x80 ==> (result | (wide << 14u32)) == result + wide
                * 0x4000) by (bit_vector);
        } else if n == 3 {
            assert(result < 0x20_0000 && wide < 0x80 ==> (result | (wide << 21u32)) == result
                + wide * 0x20_0000) by (bit_vector);
        } else {
            assert(result < 0x1000_0000 && wide < 0x80 ==> (result | (wide << 28u32)) == (result
                + wide * 0x1000_0000) % 0x1_0000_0000) by (bit_vector);
        }
    }
    merged
}

impl VarInt {
    /// Reads one variable-length integer.
    ///
    /// On success the cursor has moved past the bytes of the integer. On
    /// failure it stays where it was: `UnexpectedEof` where the bytes end
    /// before a byte with a clear high bit, `MalformedVarInt` where the first
    /// five bytes all ask for more and a sixth is there.
    pub fn read_from(reader: &mut ByteCursor) -> (r: Result<VarInt, ProtocolError>)
        requires
            old(reader).wf(),
        ensures
            final(reader).wf(),
            final(reader).bytes() == old(reader).bytes(),
            match varint_parse(old(reader).remaining()) {
                Ok((value, used)) => r == Ok::<VarInt, ProtocolError>(VarInt(value))
                    && final(reader).offset() == old(reader).offset() + used,
                Err(e) => r == Err::<VarInt, ProtocolError>(e) && final(reader).offset() == old(
                    reader,
                ).offset(),
            },
    {
        let ghost input = reader.remaining();
        let mut probe = *reader;
        let mut result: u32 = 0;
        let mut num_read: usize = 0;
        loop
            invariant
                *reader == *old(reader),
                input == reader.remaining(),
                reader.wf(),
                probe.wf(),
                probe.bytes() == reader.bytes(),
                probe.offset() == reader.offset() + num_read,
                num_read <= MAX_VARINT_LEN,
                groups_from(input, 0) == groups_from(input, num_read as nat),
                groups_value(input, num_read as nat) < group_weight(num_read as nat),
                result == groups_value(input, num_read as nat) % 0x1_0000_0000,
            decreases 6 - num_read,
        {
            let read = match probe.read_u8() {
                Ok(b) => b,
                Err(e) => {
                    return Err(e);
                },
            };
            if num_read >= MAX_VARINT_LEN {
                return Err(ProtocolError::MalformedVarInt);
            }
            let low: u8 = read & 0x7f;
            proof {
                lemma_group_weights();
                assert(read & 0x7f == read % 128) by (bit_vector);
                assert(read & 0x80 == 0 <==> read < 128) by (bit_vector);
                assert(input[num_read as int] == read);
                assert(group_weight((num_read + 1) as nat) == 128 * group_weight(num_read as nat));
                assert(low * group_weight(num_read as nat) <= 127 * group_weight(num_read as nat))
                    by (nonlinear_arith)
                    requires
                        low <= 127,
                ;
            }
            result = merge_group(result, low, num_read);
            num_read = num_read + 1;
            if read & 0x80 == 0 {
                *reader = probe;
                return Ok(VarInt(signed_of(result)));
            }
        }
    }

    /// The 32 bits of the value, read as an unsigned number.
    pub fn bits(&self) -> (bits: u32)
        ensures
            bits == unsigned_of(self.0),
    {
        bits_of(self.0)
    }

    /// Appends the wire form of the value to `out`.
    pub fn write_to(&self, out: &mut Vec<u8>)
        ensures
            final(out)@ == old(out)@ + varint_encoding(self.0),
    {
        let mut rest: u32 = bits_of(self.0);
        while rest >= 128
            invariant
                out@ + groups_of(rest as nat) == old(out)@ + varint_encoding(self.0),
            decreases rest,
        {
            let group: u32 = (rest & 0x7f) | 0x80;
            proof {
                assert(rest >= 128 ==> ((rest & 0x7f) | 0x80) == (rest % 128) + 128) by (bit_vector);
                assert(rest >> 7u32 == rest / 128) by (bit_vector);
                assert((out@.push(group as u8)) + groups_of((rest / 128) as nat) =~= out@
                    + groups_of(rest as nat));
            }
            out.push(group as u8);
            rest = rest >> 7;
        }
        proof {
            assert(out@.push(rest as u8) =~= out@ + groups_of(rest as nat));
        }
        out.push(rest as u8);
    }

    /// The wire form of the value.
    pub fn encode(&self) -> (bytes: Vec<u8>)
        ensures
            bytes@ == varint_encoding(self.0),
    {
        let mut bytes: Vec<u8> = Vec::new();
        self.write_to(&mut bytes);
        bytes
    }
}

/// The groups of `u`, set behind any `prefix` and before any `rest`, are
/// scanned as one integer that ends with them, and add `u` at the weight of
/// their first index.
proof fn lemma_groups_embedded(prefix: Seq<u8>, u: nat, rest: Seq<u8>, k: nat)
    requires
        1 <= k,
        prefix.len() + k <= 5,
        u < group_weight(k),
    ensures
        groups_of(u).len() <= k,
        groups_from(prefix + groups_of(u) + rest, prefix.len()) == Ok::<nat, ProtocolError>(
            prefix.len() + groups_of(u).len(),
        ),
        groups_value(prefix + groups_of(u) + rest, prefix.len() + groups_of(u).len())
            == groups_value(prefix + groups_of(u) + rest, prefix.len()) + u * group_weight(
            prefix.len(),
        ),
    decreases u,
{
    let s = prefix + groups_of(u) + rest;
    let at = prefix.len();
    let w = group_weight(at);
    assert(group_weight(at + 1) == 128 * w);
    if u < 128 {
        assert(s[at as int] == u as u8);
        assert(groups_value(s, at + 1) == groups_value(s, at) + (s[at as int] as nat % 128) * w);
    } else {
        lemma_group_weights();
        assert(k >= 2);
        let first = ((u % 128) + 128) as u8;
        let longer = prefix.push(first);
        let high = u / 128;
        assert(group_weight(k) == 128 * group_weight((k - 1) as nat));
        assert(high < group_weight((k - 1) as nat));
        lemma_groups_embedded(longer, high, rest, (k - 1) as nat);
        assert(longer + groups_of(high) + rest =~= s);
        assert(s[at as int] == first);
        assert(groups_from(s, at) == groups_from(s, at + 1));
        assert(groups_value(s, at + 1) == groups_value(s, at) + (s[at as int] as nat % 128) * w);
        assert(first as nat % 128 == u % 128);
        assert((u % 128) * w + high * (128 * w) == u * w) by (nonlinear_arith)
            requires
                high == u / 128,
        ;
    }
}

/// Decoding undoes encoding: the wire form of any value, whatever follows it,
/// decodes to that value and takes exactly the bytes of the wire form, which
/// are one to five.
pub proof fn lemma_varint_round_trip(v: i32, rest: Seq<u8>)
    ensures
        1 <= varint_encoding(v).len() <= 5,
        varint_parse(varint_encoding(v) + rest) == Ok::<(i32, nat), ProtocolError>(
            (v, varint_encoding(v).len()),
        ),
{
    let u = unsigned_of(v);
    lemma_group_weights();
    lemma_groups_embedded(Seq::<u8>::empty(), u, rest, 5);
    let s = varint_encoding(v) + rest;
    let n = groups_of(u).len();
    assert(Seq::<u8>::empty() + groups_of(u) + rest =~= s);
    assert(groups_from(s, 0) == Ok::<nat, ProtocolError>(n));
    assert(groups_value(s, 0) == 0);
    assert(group_weight(0) == 1);
    assert(u * group_weight(0) == u);
    assert(groups_value(s, n) == groups_value(s, 0) + u * group_weight(0));
    assert(groups_value(s, n) == u);
    assert(wrap_i32(u) == v);
}

/// The wire form is as short as the value allows: one byte for each started
/// group of seven bits of its unsigned reading.
pub proof fn lemma_varint_encoding_len(v: i32)
    ensures
        varint_encoding(v).len() == if unsigned_of(v) < 0x80 {
            1nat
        } else if unsigned_of(v) < 0x4000 {
            2nat
        } else if unsigned_of(v) < 0x20_0000 {
            3nat
        } else if unsigned_of(v) < 0x1000_0000 {
            4nat
        } else {
            5nat
        },
{
    reveal_with_fuel(groups_of, 5);
}

/// Five bytes that all ask for more, with a sixth behind them, are no integer.
pub proof fn lemma_varint_overlong(bytes: Seq<u8>)
    requires
        bytes.len() >= 6,
        forall|i: int| 0 <= i < 5 ==> bytes[i] >= 128,
    ensures
        varint_parse(bytes) == Err::<(i32, nat), ProtocolError>(ProtocolError::MalformedVarInt),
{
    reveal_with_fuel(groups_from, 6);
}

/// An integer that decodes takes at least one byte, at most five, and no more
/// than there are.
pub proof fn lemma_varint_parse_bounds(bytes: Seq<u8>)
    ensures
        varint_parse(bytes) matches Ok((value, used)) ==> 1 <= used <= 5 && used <= bytes.len(),
{
    reveal_with_fuel(groups_from, 6);
}

} // verus!
