use byteorder::ByteOrder;
use vstd::prelude::*;

verus! {

/// The 2 bytes that store X, least significant first.
pub closed spec fn spec_u16_to_le_bytes(x: u16) -> Seq<u8> {
    seq![(x & 0xff) as u8, ((x >> 8) & 0xff) as u8]
}

/// The number that the 2 bytes S store, least significant first.
pub closed spec fn spec_u16_from_le_bytes(s: Seq<u8>) -> u16
    recommends
        s.len() == 2,
{
    (s[0] as u16) | ((s[1] as u16) << 8)
}

/// The bytes of X, one by one.
pub proof fn lemma_u16_le_bytes(x: u16)
    ensures
        spec_u16_to_le_bytes(x) == seq![(x & 0xff) as u8, ((x >> 8) & 0xff) as u8],
{
}

/// Encoding and decoding undo each other.
pub proof fn lemma_auto_spec_u16_to_from_le_bytes()
    ensures
        forall|x: u16|
            {
                &&& #[trigger] spec_u16_to_le_bytes(x).len() == 2
                &&& spec_u16_from_le_bytes(spec_u16_to_le_bytes(x)) == x
            },
        forall|s: Seq<u8>| s.len() == 2 ==> #[trigger] spec_u16_to_le_bytes(spec_u16_from_le_bytes(s)) == s,
{
    assert forall|x: u16|
        {
            &&& #[trigger] spec_u16_to_le_bytes(x).len() == 2
            &&& spec_u16_from_le_bytes(spec_u16_to_le_bytes(x)) == x
        } by {
        assert((x & 0xff) < 256 && ((x >> 8) & 0xff) < 256) by (bit_vector);
        assert(x == (x & 0xff) | (((x >> 8) & 0xff) << 8)) by (bit_vector);
    };
    assert forall|s: Seq<u8>| s.len() == 2 implies #[trigger] spec_u16_to_le_bytes(spec_u16_from_le_bytes(s)) == s by {
        let x = spec_u16_from_le_bytes(s);
        let s0 = s[0] as u16;
        let s1 = s[1] as u16;
        assert((s0 < 256 && s1 < 256 && x == s0 | (s1 << 8)) ==> (s0 == (x & 0xff) && s1 == ((x >> 8) & 0xff))) by (bit_vector);
        assert(spec_u16_to_le_bytes(x) =~= s);
    }
}

/// Decodes the 2 bytes of S, least significant first.
pub fn u16_from_le_bytes(s: &[u8]) -> (x: u16)
    requires
        s@.len() == 2,
    ensures
        x == spec_u16_from_le_bytes(s@),
{
    (s[0] as u16) | ((s[1] as u16) << 8)
}

/// The 4 bytes that store X, least significant first.
pub closed spec fn spec_u32_to_le_bytes(x: u32) -> Seq<u8> {
    seq![(x & 0xff) as u8, ((x >> 8) & 0xff) as u8, ((x >> 16) & 0xff) as u8, ((x >> 24) & 0xff) as u8]
}

/// The number that the 4 bytes S store, least significant first.
pub closed spec fn spec_u32_from_le_bytes(s: Seq<u8>) -> u32
    recommends
        s.len() == 4,
{
    (s[0] as u32) | ((s[1] as u32) << 8) | ((s[2] as u32) << 16) | ((s[3] as u32) << 24)
}

/// The bytes of X, one by one.
pub proof fn lemma_u32_le_bytes(x: u32)
    ensures
        spec_u32_to_le_bytes(x) == seq![(x & 0xff) as u8, ((x >> 8) & 0xff) as u8, ((x >> 16) & 0xff) as u8, ((x >> 24) & 0xff) as u8],
{
}

/// Encoding and decoding undo each other.
pub proof fn lemma_auto_spec_u32_to_from_le_bytes()
    ensures
        forall|x: u32|
            {
                &&& #[trigger] spec_u32_to_le_bytes(x).len() == 4
                &&& spec_u32_from_le_bytes(spec_u32_to_le_bytes(x)) == x
            },
        forall|s: Seq<u8>| s.len() == 4 ==> #[trigger] spec_u32_to_le_bytes(spec_u32_from_le_bytes(s)) == s,
{
    assert forall|x: u32|
        {
            &&& #[trigger] spec_u32_to_le_bytes(x).len() == 4
            &&& spec_u32_from_le_bytes(spec_u32_to_le_bytes(x)) == x
        } by {
        assert((x & 0xff) < 256 && ((x >> 8) & 0xff) < 256 && ((x >> 16) & 0xff) < 256 && ((x >> 24) & 0xff) < 256) by (bit_vector);
        assert(x == (x & 0xff) | (((x >> 8) & 0xff) << 8) | (((x >> 16) & 0xff) << 16) | (((x >> 24) & 0xff) << 24)) by (bit_vector);
    };
    assert forall|s: Seq<u8>| s.len() == 4 implies #[trigger] spec_u32_to_le_bytes(spec_u32_from_le_bytes(s)) == s by {
        let x = spec_u32_from_le_bytes(s);
        let s0 = s[0] as u32;
        let s1 = s[1] as u32;
        let s2 = s[2] as u32;
        let s3 = s[3] as u32;
        assert((s0 < 256 && s1 < 256 && s2 < 256 && s3 < 256 && x == s0 | (s1 << 8) | (s2 << 16) | (s3 << 24)) ==> (s0 == (x & 0xff) && s1 == ((x >> 8) & 0xff) && s2 == ((x >> 16) & 0xff) && s3 == ((x >> 24) & 0xff))) by (bit_vector);
        assert(spec_u32_to_le_bytes(x) =~= s);
    }
}

/// Decodes the 4 bytes of S, least significant first.
pub fn u32_from_le_bytes(s: &[u8]) -> (x: u32)
    requires
        s@.len() == 4,
    ensures
        x == spec_u32_from_le_bytes(s@),
{
    (s[0] as u32) | ((s[1] as u32) << 8) | ((s[2] as u32) << 16) | ((s[3] as u32) << 24)
}

/// The 8 bytes that store X, least significant first.
pub closed spec fn spec_u64_to_le_bytes(x: u64) -> Seq<u8> {
    seq![(x & 0xff) as u8, ((x >> 8) & 0xff) as u8, ((x >> 16) & 0xff) as u8, ((x >> 24) & 0xff) as u8, ((x >> 32) & 0xff) as u8, ((x >> 40) & 0xff) as u8, ((x >> 48) & 0xff) as u8, ((x >> 56) & 0xff) as u8]
}

/// The number that the 8 bytes S store, least significant first.
pub closed spec fn spec_u64_from_le_bytes(s: Seq<u8>) -> u64
    recommends
        s.len() == 8,
{
    (s[0] as u64) | ((s[1] as u64) << 8) | ((s[2] as u64) << 16) | ((s[3] as u64) << 24) | ((s[4] as u64) << 32) | ((s[5] as u64) << 40) | ((s[6] as u64) << 48) | ((s[7] as u64) << 56)
}

/// The bytes of X, one by one.
pub proof fn lemma_u64_le_bytes(x: u64)
    ensures
        spec_u64_to_le_bytes(x) == seq![(x & 0xff) as u8, ((x >> 8) & 0xff) as u8, ((x >> 16) & 0xff) as u8, ((x >> 24) & 0xff) as u8, ((x >> 32) & 0xff) as u8, ((x >> 40) & 0xff) as u8, ((x >> 48) & 0xff) as u8, ((x >> 56) & 0xff) as u8],
{
}

/// Encoding and decoding undo each other.
pub proof fn lemma_auto_spec_u64_to_from_le_bytes()
    ensures
        forall|x: u64|
            #![trigger spec_u64_to_le_bytes(x)]
            {
                &&& spec_u64_to_le_bytes(x).len() == 8
                &&& spec_u64_from_le_bytes(spec_u64_to_le_bytes(x)) == x
            },
        forall|s: Seq<u8>|
            #![trigger spec_u64_to_le_bytes(spec_u64_from_le_bytes(s))]
            s.len() == 8 ==> spec_u64_to_le_bytes(spec_u64_from_le_bytes(s)) == s,
{
    assert forall|x: u64|
        {
            &&& #[trigger] spec_u64_to_le_bytes(x).len() == 8
            &&& spec_u64_from_le_bytes(spec_u64_to_le_bytes(x)) == x
        } by {
        assert((x & 0xff) < 256 && ((x >> 8) & 0xff) < 256 && ((x >> 16) & 0xff) < 256 && ((x >> 24) & 0xff) < 256 && ((x >> 32) & 0xff) < 256 && ((x >> 40) & 0xff) < 256 && ((x >> 48) & 0xff) < 256 && ((x >> 56) & 0xff) < 256) by (bit_vector);
        assert(x == (x & 0xff) | (((x >> 8) & 0xff) << 8) | (((x >> 16) & 0xff) << 16) | (((x >> 24) & 0xff) << 24) | (((x >> 32) & 0xff) << 32) | (((x >> 40) & 0xff) << 40) | (((x >> 48) & 0xff) << 48) | (((x >> 56) & 0xff) << 56)) by (bit_vector);
    };
    assert forall|s: Seq<u8>| s.len() == 8 implies #[trigger] spec_u64_to_le_bytes(spec_u64_from_le_bytes(s)) == s by {
        let x = spec_u64_from_le_bytes(s);
        let s0 = s[0] as u64;
        let s1 = s[1] as u64;
        let s2 = s[2] as u64;
        let s3 = s[3] as u64;
        let s4 = s[4] as u64;
        let s5 = s[5] as u64;
        let s6 = s[6] as u64;
        let s7 = s[7] as u64;
        assert((s0 < 256 && s1 < 256 && s2 < 256 && s3 < 256 && s4 < 256 && s5 < 256 && s6 < 256 && s7 < 256 && x == s0 | (s1 << 8) | (s2 << 16) | (s3 << 24) | (s4 << 32) | (s5 << 40) | (s6 << 48) | (s7 << 56)) ==> (s0 == (x & 0xff) && s1 == ((x >> 8) & 0xff) && s2 == ((x >> 16) & 0xff) && s3 == ((x >> 24) & 0xff) && s4 == ((x >> 32) & 0xff) && s5 == ((x >> 40) & 0xff) && s6 == ((x >> 48) & 0xff) && s7 == ((x >> 56) & 0xff))) by (bit_vector);
        assert(spec_u64_to_le_bytes(x) =~= s);
    }
}

/// Decodes the 8 bytes of S, least significant first.
pub fn u64_from_le_bytes(s: &[u8]) -> (x: u64)
    requires
        s@.len() == 8,
    ensures
        x == spec_u64_from_le_bytes(s@),
{
    (s[0] as u64) | ((s[1] as u64) << 8) | ((s[2] as u64) << 16) | ((s[3] as u64) << 24) | ((s[4] as u64) << 32) | ((s[5] as u64) << 40) | ((s[6] as u64) << 48) | ((s[7] as u64) << 56)
}

/// Calls `byteorder::LittleEndian::write_u16` on a fresh two-byte buffer. The contract
/// claims that the buffer then holds the little-endian encoding of N, as the crate's
/// `ByteOrder` implementation for `LittleEndian` writes `n.to_le_bytes()`.
#[verifier::external_body]
pub(crate) fn le_bytes_u16(n: u16) -> (r: [u8; 2])
    ensures
        r@ == spec_u16_to_le_bytes(n),
{
    let mut buf = [0u8; 2];
    byteorder::LittleEndian::write_u16(&mut buf, n);
    buf
}

/// Calls `byteorder::LittleEndian::write_u32` on a fresh four-byte buffer. The contract
/// claims that the buffer then holds the little-endian encoding of N.
#[verifier::external_body]
pub(crate) fn le_bytes_u32(n: u32) -> (r: [u8; 4])
    ensures
        r@ == spec_u32_to_le_bytes(n),
{
    let mut buf = [0u8; 4];
    byteorder::LittleEndian::write_u32(&mut buf, n);
    buf
}

/// Calls `byteorder::LittleEndian::write_u64` on a fresh eight-byte buffer. The contract
/// claims that the buffer then holds the little-endian encoding of N.
#[verifier::external_body]
pub(crate) fn le_bytes_u64(n: u64) -> (r: [u8; 8])
    ensures
        r@ == spec_u64_to_le_bytes(n),
{
    let mut buf = [0u8; 8];
    byteorder::LittleEndian::write_u64(&mut buf, n);
    buf
}

/// Appends all of BYTES to OUT.
pub(crate) fn append_bytes(out: &mut Vec<u8>, bytes: &[u8])
    ensures
        final(out)@ == old(out)@ + bytes@,
{
    let mut i: usize = 0;
    while i < bytes.len()
        invariant
            i <= bytes@.len(),
            out@ == old(out)@ + bytes@.subrange(0, i as int),
        decreases bytes@.len() - i,
    {
        out.push(bytes[i]);
        i = i + 1;
        proof {
            assert(bytes@.subrange(0, i as int) == bytes@.subrange(0, i - 1 as int).push(bytes@[i - 1]));
        }
    }
    proof {
        assert(bytes@.subrange(0, bytes@.len() as int) == bytes@);
    }
}

} // verus!
