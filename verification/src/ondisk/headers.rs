use crate::bits::lemma_masked_bound_u64;
use crate::le::{append_bytes, le_bytes_u16, le_bytes_u32, le_bytes_u64, lemma_auto_spec_u16_to_from_le_bytes, lemma_auto_spec_u32_to_from_le_bytes, lemma_auto_spec_u64_to_from_le_bytes, spec_u16_from_le_bytes, spec_u16_to_le_bytes, spec_u32_from_le_bytes, spec_u32_to_le_bytes, u16_from_le_bytes, u32_from_le_bytes};
use crate::ondisk::collection::ByteLayout;
use crate::ondisk::flags::PriorityLevels;
use crate::struct_accessors::{spec_bool_result_of_raw, spec_raw_of_bool};
use crate::types::{Error, Result};
use vstd::prelude::*;
use vstd::slice::slice_subrange;

verus! {

/// Entries inside a group are aligned to this many bytes.
pub const ENTRY_ALIGNMENT: usize = 4;

/// The header at the start of every blob.
#[allow(non_camel_case_types)]
#[derive(Debug, Clone, Copy)]
pub struct V2_HEADER {
    pub signature: [u8; 4],
    pub header_size: u16,
    pub version: u16,
    pub apcb_size: u32,
    pub unique_apcb_instance: u32,
    pub checksum_byte: u8,
    pub(crate) _reserved_1: [u8; 3],
    pub(crate) _reserved_2: [u32; 3],
}

impl V2_HEADER {
    pub closed spec fn spec_signature(self) -> [u8; 4] {
        self.signature
    }

    pub closed spec fn spec_header_size(self) -> u16 {
        self.header_size
    }

    pub closed spec fn spec_version(self) -> u16 {
        self.version
    }

    pub closed spec fn spec_apcb_size(self) -> u32 {
        self.apcb_size
    }

    pub closed spec fn spec_unique_apcb_instance(self) -> u32 {
        self.unique_apcb_instance
    }

    pub closed spec fn spec_checksum_byte(self) -> u8 {
        self.checksum_byte
    }

    pub closed spec fn spec__reserved_1(self) -> [u8; 3] {
        self._reserved_1
    }

    pub closed spec fn spec__reserved_2(self) -> [u32; 3] {
        self._reserved_2
    }

    pub fn apcb_size(&self) -> (r: Result<u32>)
        ensures
            r == Ok::<u32, Error>(self.spec_apcb_size()),
    {
        Ok(self.apcb_size)
    }

    pub fn set_apcb_size(&mut self, value: u32)
        ensures
            final(self).spec_apcb_size() == value,
            final(self).spec_signature() == old(self).spec_signature(),
            final(self).spec_header_size() == old(self).spec_header_size(),
            final(self).spec_version() == old(self).spec_version(),
            final(self).spec_unique_apcb_instance() == old(self).spec_unique_apcb_instance(),
            final(self).spec_checksum_byte() == old(self).spec_checksum_byte(),
            final(self).spec__reserved_1() == old(self).spec__reserved_1(),
            final(self).spec__reserved_2() == old(self).spec__reserved_2(),
    {
        self.apcb_size = value;
    }

    pub fn unique_apcb_instance(&self) -> (r: Result<u32>)
        ensures
            r == Ok::<u32, Error>(self.spec_unique_apcb_instance()),
    {
        Ok(self.unique_apcb_instance)
    }

    pub fn set_unique_apcb_instance(&mut self, value: u32)
        ensures
            final(self).spec_unique_apcb_instance() == value,
            final(self).spec_signature() == old(self).spec_signature(),
            final(self).spec_header_size() == old(self).spec_header_size(),
            final(self).spec_version() == old(self).spec_version(),
            final(self).spec_apcb_size() == old(self).spec_apcb_size(),
            final(self).spec_checksum_byte() == old(self).spec_checksum_byte(),
            final(self).spec__reserved_1() == old(self).spec__reserved_1(),
            final(self).spec__reserved_2() == old(self).spec__reserved_2(),
    {
        self.unique_apcb_instance = value;
    }

}

impl V2_HEADER {
    /// The bytes that store this value on disk.
    pub closed spec fn spec_bytes(self) -> Seq<u8> {
        self.signature@
            + spec_u16_to_le_bytes(self.header_size)
            + spec_u16_to_le_bytes(self.version)
            + spec_u32_to_le_bytes(self.apcb_size)
            + spec_u32_to_le_bytes(self.unique_apcb_instance)
            + seq![self.checksum_byte]
            + self._reserved_1@
            + spec_u32_to_le_bytes(self._reserved_2[0]) + spec_u32_to_le_bytes(self._reserved_2[1]) + spec_u32_to_le_bytes(self._reserved_2[2])
    }
}

impl ByteLayout for V2_HEADER {
    open spec fn spec_size() -> nat {
        32
    }

    open spec fn spec_to_bytes(self) -> Seq<u8> {
        self.spec_bytes()
    }

    fn size() -> (r: usize) {
        32
    }

    #[verifier::spinoff_prover]
    fn from_bytes(bytes: &[u8]) -> (r: Self) {
        let signature: [u8; 4] = [bytes[0], bytes[1], bytes[2], bytes[3]];
        let header_size: u16 = u16_from_le_bytes(slice_subrange(bytes, 4, 6));
        let version: u16 = u16_from_le_bytes(slice_subrange(bytes, 6, 8));
        let apcb_size: u32 = u32_from_le_bytes(slice_subrange(bytes, 8, 12));
        let unique_apcb_instance: u32 = u32_from_le_bytes(slice_subrange(bytes, 12, 16));
        let checksum_byte: u8 = bytes[16];
        let _reserved_1: [u8; 3] = [bytes[17], bytes[18], bytes[19]];
        let _reserved_2: [u32; 3] = [u32_from_le_bytes(slice_subrange(bytes, 20, 24)), u32_from_le_bytes(slice_subrange(bytes, 24, 28)), u32_from_le_bytes(slice_subrange(bytes, 28, 32))];
        let r = V2_HEADER { signature, header_size, version, apcb_size, unique_apcb_instance, checksum_byte, _reserved_1, _reserved_2 };
        proof {
            lemma_auto_spec_u16_to_from_le_bytes();
            lemma_auto_spec_u32_to_from_le_bytes();
            lemma_auto_spec_u64_to_from_le_bytes();
            lemma_v2_header_bytes_pieces(r);
            assert(bytes@.subrange(0, 4) =~= signature@);
            assert(bytes@.subrange(4, 6) == spec_u16_to_le_bytes(header_size));
            assert(bytes@.subrange(6, 8) == spec_u16_to_le_bytes(version));
            assert(bytes@.subrange(8, 12) == spec_u32_to_le_bytes(apcb_size));
            assert(bytes@.subrange(12, 16) == spec_u32_to_le_bytes(unique_apcb_instance));
            assert(bytes@.subrange(17, 20) =~= _reserved_1@);
            assert(bytes@.subrange(20, 24) == spec_u32_to_le_bytes(_reserved_2[0]));
            assert(bytes@.subrange(24, 28) == spec_u32_to_le_bytes(_reserved_2[1]));
            assert(bytes@.subrange(28, 32) == spec_u32_to_le_bytes(_reserved_2[2]));
            assert(bytes@.subrange(0, 6) =~= bytes@.subrange(0, 4) + bytes@.subrange(4, 6));
            assert(bytes@.subrange(0, 8) =~= bytes@.subrange(0, 6) + bytes@.subrange(6, 8));
            assert(bytes@.subrange(0, 12) =~= bytes@.subrange(0, 8) + bytes@.subrange(8, 12));
            assert(bytes@.subrange(0, 16) =~= bytes@.subrange(0, 12) + bytes@.subrange(12, 16));
            assert(bytes@.subrange(0, 17) =~= bytes@.subrange(0, 16) + bytes@.subrange(16, 17));
            assert(bytes@.subrange(0, 20) =~= bytes@.subrange(0, 17) + bytes@.subrange(17, 20));
            assert(bytes@.subrange(0, 32) =~= bytes@.subrange(0, 20) + bytes@.subrange(20, 32));
            assert(bytes@.subrange(0, 32) =~= bytes@);
            assert(bytes@ == r.spec_bytes());
        }
        r
    }

    #[verifier::spinoff_prover]
    fn to_bytes(&self) -> (r: Vec<u8>) {
        let mut out: Vec<u8> = Vec::new();
        append_bytes(&mut out, &self.signature);
        append_bytes(&mut out, &le_bytes_u16(self.header_size));
        append_bytes(&mut out, &le_bytes_u16(self.version));
        append_bytes(&mut out, &le_bytes_u32(self.apcb_size));
        append_bytes(&mut out, &le_bytes_u32(self.unique_apcb_instance));
        out.push(self.checksum_byte);
        append_bytes(&mut out, &self._reserved_1);
        append_bytes(&mut out, &le_bytes_u32(self._reserved_2[0]));
        append_bytes(&mut out, &le_bytes_u32(self._reserved_2[1]));
        append_bytes(&mut out, &le_bytes_u32(self._reserved_2[2]));
        proof {
            lemma_v2_header_bytes_pieces(*self);
        }
        out
    }
}

/// How the bytes of a V2_HEADER split up into its fields.
pub proof fn lemma_v2_header_bytes_pieces(x: V2_HEADER)
    ensures
        x.spec_bytes().len() == 32,
        x.spec_bytes().subrange(0, 4) == x.spec_signature()@,
        x.spec_bytes().subrange(4, 6) == spec_u16_to_le_bytes(x.spec_header_size()),
        x.spec_bytes().subrange(6, 8) == spec_u16_to_le_bytes(x.spec_version()),
        x.spec_bytes().subrange(8, 12) == spec_u32_to_le_bytes(x.spec_apcb_size()),
        x.spec_bytes().subrange(12, 16) == spec_u32_to_le_bytes(x.spec_unique_apcb_instance()),
        x.spec_bytes()[16] == x.spec_checksum_byte(),
        x.spec_bytes().subrange(17, 20) == x.spec__reserved_1()@,
        x.spec_bytes().subrange(20, 32) == spec_u32_to_le_bytes(x.spec__reserved_2()[0]) + spec_u32_to_le_bytes(x.spec__reserved_2()[1]) + spec_u32_to_le_bytes(x.spec__reserved_2()[2]),
{
    lemma_auto_spec_u16_to_from_le_bytes();
    lemma_auto_spec_u32_to_from_le_bytes();
    lemma_auto_spec_u64_to_from_le_bytes();
    assert(x.spec_bytes().subrange(0, 4) == x.signature@);
    assert(x.spec_bytes().subrange(4, 6) == spec_u16_to_le_bytes(x.header_size));
    assert(x.spec_bytes().subrange(6, 8) == spec_u16_to_le_bytes(x.version));
    assert(x.spec_bytes().subrange(8, 12) == spec_u32_to_le_bytes(x.apcb_size));
    assert(x.spec_bytes().subrange(12, 16) == spec_u32_to_le_bytes(x.unique_apcb_instance));
    assert(x.spec_bytes().subrange(17, 20) == x._reserved_1@);
    assert(x.spec_bytes().subrange(20, 32) == spec_u32_to_le_bytes(x._reserved_2[0]) + spec_u32_to_le_bytes(x._reserved_2[1]) + spec_u32_to_le_bytes(x._reserved_2[2]));
}

/// Two values of V2_HEADER with the same bytes are the same value.
#[verifier::spinoff_prover]
pub proof fn lemma_v2_header_bytes_injective(x: V2_HEADER, y: V2_HEADER)
    requires
        x.spec_bytes() == y.spec_bytes(),
    ensures
        x == y,
{
    lemma_v2_header_bytes_pieces(x);
    lemma_v2_header_bytes_pieces(y);
    lemma_auto_spec_u16_to_from_le_bytes();
    lemma_auto_spec_u32_to_from_le_bytes();
    lemma_auto_spec_u64_to_from_le_bytes();
    assert(x.signature@ == x.spec_bytes().subrange(0, 4));
    assert(x.signature =~= y.signature);
    assert(spec_u16_from_le_bytes(spec_u16_to_le_bytes(x.header_size)) == spec_u16_from_le_bytes(spec_u16_to_le_bytes(y.header_size)));
    assert(spec_u16_from_le_bytes(spec_u16_to_le_bytes(x.version)) == spec_u16_from_le_bytes(spec_u16_to_le_bytes(y.version)));
    assert(spec_u32_from_le_bytes(spec_u32_to_le_bytes(x.apcb_size)) == spec_u32_from_le_bytes(spec_u32_to_le_bytes(y.apcb_size)));
    assert(spec_u32_from_le_bytes(spec_u32_to_le_bytes(x.unique_apcb_instance)) == spec_u32_from_le_bytes(spec_u32_to_le_bytes(y.unique_apcb_instance)));
    assert(x.checksum_byte == y.checksum_byte);
    assert(x._reserved_1@ == x.spec_bytes().subrange(17, 20));
    assert(x._reserved_1 =~= y._reserved_1);
    assert(x.spec_bytes().subrange(20, 24) == spec_u32_to_le_bytes(x._reserved_2[0]));
    assert(y.spec_bytes().subrange(20, 24) == spec_u32_to_le_bytes(y._reserved_2[0]));
    assert(x._reserved_2[0] == y._reserved_2[0]);
    assert(x.spec_bytes().subrange(24, 28) == spec_u32_to_le_bytes(x._reserved_2[1]));
    assert(y.spec_bytes().subrange(24, 28) == spec_u32_to_le_bytes(y._reserved_2[1]));
    assert(x._reserved_2[1] == y._reserved_2[1]);
    assert(x.spec_bytes().subrange(28, 32) == spec_u32_to_le_bytes(x._reserved_2[2]));
    assert(y.spec_bytes().subrange(28, 32) == spec_u32_to_le_bytes(y._reserved_2[2]));
    assert(x._reserved_2[2] == y._reserved_2[2]);
    assert(x._reserved_2 =~= y._reserved_2);
}

impl Default for V2_HEADER {
    fn default() -> (r: Self)
        ensures
            r.spec_signature() == [0x41u8, 0x50u8, 0x43u8, 0x42u8],
            r.spec_header_size() == 32,
            r.spec_version() == 0x30,
            r.spec_apcb_size() == 32,
            r.spec_unique_apcb_instance() == 0,
            r.spec_checksum_byte() == 0,
            r.spec__reserved_1() == [0u8, 0u8, 0u8],
            r.spec__reserved_2() == [0u32, 0u32, 0u32],
    {
        V2_HEADER { signature: [0x41, 0x50, 0x43, 0x42], header_size: 32, version: 0x30, apcb_size: 32, unique_apcb_instance: 0, checksum_byte: 0, _reserved_1: [0, 0, 0], _reserved_2: [0, 0, 0] }
    }
}

/// The extended header that follows the first header in newer blobs.
///
/// The funny reserved values here were such that older firmware (which
/// expects a V2_HEADER and does not honor its header_size) can skip this
/// unknown struct.
#[allow(non_camel_case_types)]
#[derive(Debug, Clone, Copy)]
pub struct V3_HEADER_EXT {
    pub signature: [u8; 4],
    pub(crate) _reserved_1: u16,
    pub(crate) _reserved_2: u16,
    pub struct_version: u16,
    pub data_version: u16,
    pub ext_header_size: u32,
    pub(crate) _reserved_3: u16,
    pub(crate) _reserved_4: u16,
    pub(crate) _reserved_5: u16,
    pub(crate) _reserved_6: u16,
    pub(crate) _reserved_7: [u32; 2],
    pub data_offset: u16,
    pub header_checksum: u8,
    pub(crate) _reserved_8: u8,
    pub(crate) _reserved_9: [u32; 3],
    pub integrity_sign: [u8; 32],
    pub(crate) _reserved_10: [u32; 3],
    pub signature_ending: [u8; 4],
}

impl V3_HEADER_EXT {
    pub closed spec fn spec_signature(self) -> [u8; 4] {
        self.signature
    }

    pub closed spec fn spec__reserved_1(self) -> u16 {
        self._reserved_1
    }

    pub closed spec fn spec__reserved_2(self) -> u16 {
        self._reserved_2
    }

    pub closed spec fn spec_struct_version(self) -> u16 {
        self.struct_version
    }

    pub closed spec fn spec_data_version(self) -> u16 {
        self.data_version
    }

    pub closed spec fn spec_ext_header_size(self) -> u32 {
        self.ext_header_size
    }

    pub closed spec fn spec__reserved_3(self) -> u16 {
        self._reserved_3
    }

    pub closed spec fn spec__reserved_4(self) -> u16 {
        self._reserved_4
    }

    pub closed spec fn spec__reserved_5(self) -> u16 {
        self._reserved_5
    }

    pub closed spec fn spec__reserved_6(self) -> u16 {
        self._reserved_6
    }

    pub closed spec fn spec__reserved_7(self) -> [u32; 2] {
        self._reserved_7
    }

    pub closed spec fn spec_data_offset(self) -> u16 {
        self.data_offset
    }

    pub closed spec fn spec_header_checksum(self) -> u8 {
        self.header_checksum
    }

    pub closed spec fn spec__reserved_8(self) -> u8 {
        self._reserved_8
    }

    pub closed spec fn spec__reserved_9(self) -> [u32; 3] {
        self._reserved_9
    }

    pub closed spec fn spec_integrity_sign(self) -> [u8; 32] {
        self.integrity_sign
    }

    pub closed spec fn spec__reserved_10(self) -> [u32; 3] {
        self._reserved_10
    }

    pub closed spec fn spec_signature_ending(self) -> [u8; 4] {
        self.signature_ending
    }

    pub fn ext_header_size(&self) -> (r: Result<u32>)
        ensures
            r == Ok::<u32, Error>(self.spec_ext_header_size()),
    {
        Ok(self.ext_header_size)
    }

    pub fn set_ext_header_size(&mut self, value: u32)
        ensures
            final(self).spec_ext_header_size() == value,
            final(self).spec_signature() == old(self).spec_signature(),
            final(self).spec__reserved_1() == old(self).spec__reserved_1(),
            final(self).spec__reserved_2() == old(self).spec__reserved_2(),
            final(self).spec_struct_version() == old(self).spec_struct_version(),
            final(self).spec_data_version() == old(self).spec_data_version(),
            final(self).spec__reserved_3() == old(self).spec__reserved_3(),
            final(self).spec__reserved_4() == old(self).spec__reserved_4(),
            final(self).spec__reserved_5() == old(self).spec__reserved_5(),
            final(self).spec__reserved_6() == old(self).spec__reserved_6(),
            final(self).spec__reserved_7() == old(self).spec__reserved_7(),
            final(self).spec_data_offset() == old(self).spec_data_offset(),
            final(self).spec_header_checksum() == old(self).spec_header_checksum(),
            final(self).spec__reserved_8() == old(self).spec__reserved_8(),
            final(self).spec__reserved_9() == old(self).spec__reserved_9(),
            final(self).spec_integrity_sign() == old(self).spec_integrity_sign(),
            final(self).spec__reserved_10() == old(self).spec__reserved_10(),
            final(self).spec_signature_ending() == old(self).spec_signature_ending(),
    {
        self.ext_header_size = value;
    }

}

impl V3_HEADER_EXT {
    /// The bytes that store this value on disk.
    pub closed spec fn spec_bytes(self) -> Seq<u8> {
        self.signature@
            + spec_u16_to_le_bytes(self._reserved_1)
            + spec_u16_to_le_bytes(self._reserved_2)
            + spec_u16_to_le_bytes(self.struct_version)
            + spec_u16_to_le_bytes(self.data_version)
            + spec_u32_to_le_bytes(self.ext_header_size)
            + spec_u16_to_le_bytes(self._reserved_3)
            + spec_u16_to_le_bytes(self._reserved_4)
            + spec_u16_to_le_bytes(self._reserved_5)
            + spec_u16_to_le_bytes(self._reserved_6)
            + spec_u32_to_le_bytes(self._reserved_7[0]) + spec_u32_to_le_bytes(self._reserved_7[1])
            + spec_u16_to_le_bytes(self.data_offset)
            + seq![self.header_checksum]
            + seq![self._reserved_8]
            + spec_u32_to_le_bytes(self._reserved_9[0]) + spec_u32_to_le_bytes(self._reserved_9[1]) + spec_u32_to_le_bytes(self._reserved_9[2])
            + self.integrity_sign@
            + spec_u32_to_le_bytes(self._reserved_10[0]) + spec_u32_to_le_bytes(self._reserved_10[1]) + spec_u32_to_le_bytes(self._reserved_10[2])
            + self.signature_ending@
    }
}

impl ByteLayout for V3_HEADER_EXT {
    open spec fn spec_size() -> nat {
        96
    }

    open spec fn spec_to_bytes(self) -> Seq<u8> {
        self.spec_bytes()
    }

    fn size() -> (r: usize) {
        96
    }

    #[verifier::spinoff_prover]
    #[verifier::rlimit(60)]
    fn from_bytes(bytes: &[u8]) -> (r: Self) {
        let signature: [u8; 4] = [bytes[0], bytes[1], bytes[2], bytes[3]];
        let _reserved_1: u16 = u16_from_le_bytes(slice_subrange(bytes, 4, 6));
        let _reserved_2: u16 = u16_from_le_bytes(slice_subrange(bytes, 6, 8));
        let struct_version: u16 = u16_from_le_bytes(slice_subrange(bytes, 8, 10));
        let data_version: u16 = u16_from_le_bytes(slice_subrange(bytes, 10, 12));
        let ext_header_size: u32 = u32_from_le_bytes(slice_subrange(bytes, 12, 16));
        let _reserved_3: u16 = u16_from_le_bytes(slice_subrange(bytes, 16, 18));
        let _reserved_4: u16 = u16_from_le_bytes(slice_subrange(bytes, 18, 20));
        let _reserved_5: u16 = u16_from_le_bytes(slice_subrange(bytes, 20, 22));
        let _reserved_6: u16 = u16_from_le_bytes(slice_subrange(bytes, 22, 24));
        let _reserved_7: [u32; 2] = [u32_from_le_bytes(slice_subrange(bytes, 24, 28)), u32_from_le_bytes(slice_subrange(bytes, 28, 32))];
        let data_offset: u16 = u16_from_le_bytes(slice_subrange(bytes, 32, 34));
        let header_checksum: u8 = bytes[34];
        let _reserved_8: u8 = bytes[35];
        let _reserved_9: [u32; 3] = [u32_from_le_bytes(slice_subrange(bytes, 36, 40)), u32_from_le_bytes(slice_subrange(bytes, 40, 44)), u32_from_le_bytes(slice_subrange(bytes, 44, 48))];
        let integrity_sign: [u8; 32] = [bytes[48], bytes[49], bytes[50], bytes[51], bytes[52], bytes[53], bytes[54], bytes[55], bytes[56], bytes[57], bytes[58], bytes[59], bytes[60], bytes[61], bytes[62], bytes[63], bytes[64], bytes[65], bytes[66], bytes[67], bytes[68], bytes[69], bytes[70], bytes[71], bytes[72], bytes[73], bytes[74], bytes[75], bytes[76], bytes[77], bytes[78], bytes[79]];
        let _reserved_10: [u32; 3] = [u32_from_le_bytes(slice_subrange(bytes, 80, 84)), u32_from_le_bytes(slice_subrange(bytes, 84, 88)), u32_from_le_bytes(slice_subrange(bytes, 88, 92))];
        let signature_ending: [u8; 4] = [bytes[92], bytes[93], bytes[94], bytes[95]];
        let r = V3_HEADER_EXT { signature, _reserved_1, _reserved_2, struct_version, data_version, ext_header_size, _reserved_3, _reserved_4, _reserved_5, _reserved_6, _reserved_7, data_offset, header_checksum, _reserved_8, _reserved_9, integrity_sign, _reserved_10, signature_ending };
        proof {
            lemma_auto_spec_u16_to_from_le_bytes();
            lemma_auto_spec_u32_to_from_le_bytes();
            lemma_auto_spec_u64_to_from_le_bytes();
            lemma_v3_header_ext_bytes_pieces(r);
            assert(bytes@.subrange(0, 4) =~= signature@);
            assert(bytes@.subrange(4, 6) == spec_u16_to_le_bytes(_reserved_1));
            assert(bytes@.subrange(6, 8) == spec_u16_to_le_bytes(_reserved_2));
            assert(bytes@.subrange(8, 10) == spec_u16_to_le_bytes(struct_version));
            assert(bytes@.subrange(10, 12) == spec_u16_to_le_bytes(data_version));
            assert(bytes@.subrange(12, 16) == spec_u32_to_le_bytes(ext_header_size));
            assert(bytes@.subrange(16, 18) == spec_u16_to_le_bytes(_reserved_3));
            assert(bytes@.subrange(18, 20) == spec_u16_to_le_bytes(_reserved_4));
            assert(bytes@.subrange(20, 22) == spec_u16_to_le_bytes(_reserved_5));
            assert(bytes@.subrange(22, 24) == spec_u16_to_le_bytes(_reserved_6));
            assert(bytes@.subrange(24, 28) == spec_u32_to_le_bytes(_reserved_7[0]));
            assert(bytes@.subrange(28, 32) == spec_u32_to_le_bytes(_reserved_7[1]));
            assert(bytes@.subrange(32, 34) == spec_u16_to_le_bytes(data_offset));
            assert(bytes@.subrange(36, 40) == spec_u32_to_le_bytes(_reserved_9[0]));
            assert(bytes@.subrange(40, 44) == spec_u32_to_le_bytes(_reserved_9[1]));
            assert(bytes@.subrange(44, 48) == spec_u32_to_le_bytes(_reserved_9[2]));
            assert(bytes@.subrange(48, 80) =~= integrity_sign@);
            assert(bytes@.subrange(80, 84) == spec_u32_to_le_bytes(_reserved_10[0]));
            assert(bytes@.subrange(84, 88) == spec_u32_to_le_bytes(_reserved_10[1]));
            assert(bytes@.subrange(88, 92) == spec_u32_to_le_bytes(_reserved_10[2]));
            assert(bytes@.subrange(92, 96) =~= signature_ending@);
            assert(bytes@.subrange(0, 6) =~= bytes@.subrange(0, 4) + bytes@.subrange(4, 6));
            assert(bytes@.subrange(0, 8) =~= bytes@.subrange(0, 6) + bytes@.subrange(6, 8));
            assert(bytes@.subrange(0, 10) =~= bytes@.subrange(0, 8) + bytes@.subrange(8, 10));
            assert(bytes@.subrange(0, 12) =~= bytes@.subrange(0, 10) + bytes@.subrange(10, 12));
            assert(bytes@.subrange(0, 16) =~= bytes@.subrange(0, 12) + bytes@.subrange(12, 16));
            assert(bytes@.subrange(0, 18) =~= bytes@.subrange(0, 16) + bytes@.subrange(16, 18));
            assert(bytes@.subrange(0, 20) =~= bytes@.subrange(0, 18) + bytes@.subrange(18, 20));
            assert(bytes@.subrange(0, 22) =~= bytes@.subrange(0, 20) + bytes@.subrange(20, 22));
            assert(bytes@.subrange(0, 24) =~= bytes@.subrange(0, 22) + bytes@.subrange(22, 24));
            assert(bytes@.subrange(0, 32) =~= bytes@.subrange(0, 24) + bytes@.subrange(24, 32));
            assert(bytes@.subrange(0, 34) =~= bytes@.subrange(0, 32) + bytes@.subrange(32, 34));
            assert(bytes@.subrange(0, 35) =~= bytes@.subrange(0, 34) + bytes@.subrange(34, 35));
            assert(bytes@.subrange(0, 36) =~= bytes@.subrange(0, 35) + bytes@.subrange(35, 36));
            assert(bytes@.subrange(0, 48) =~= bytes@.subrange(0, 36) + bytes@.subrange(36, 48));
            assert(bytes@.subrange(0, 80) =~= bytes@.subrange(0, 48) + bytes@.subrange(48, 80));
            assert(bytes@.subrange(0, 92) =~= bytes@.subrange(0, 80) + bytes@.subrange(80, 92));
            assert(bytes@.subrange(0, 96) =~= bytes@.subrange(0, 92) + bytes@.subrange(92, 96));
            assert(bytes@.subrange(0, 96) =~= bytes@);
            assert(bytes@ == r.spec_bytes());
        }
        r
    }

    #[verifier::spinoff_prover]
    #[verifier::rlimit(60)]
    fn to_bytes(&self) -> (r: Vec<u8>) {
        let mut out: Vec<u8> = Vec::new();
        append_bytes(&mut out, &self.signature);
        append_bytes(&mut out, &le_bytes_u16(self._reserved_1));
        append_bytes(&mut out, &le_bytes_u16(self._reserved_2));
        append_bytes(&mut out, &le_bytes_u16(self.struct_version));
        append_bytes(&mut out, &le_bytes_u16(self.data_version));
        append_bytes(&mut out, &le_bytes_u32(self.ext_header_size));
        append_bytes(&mut out, &le_bytes_u16(self._reserved_3));
        append_bytes(&mut out, &le_bytes_u16(self._reserved_4));
        append_bytes(&mut out, &le_bytes_u16(self._reserved_5));
        append_bytes(&mut out, &le_bytes_u16(self._reserved_6));
        append_bytes(&mut out, &le_bytes_u32(self._reserved_7[0]));
        append_bytes(&mut out, &le_bytes_u32(self._reserved_7[1]));
        append_bytes(&mut out, &le_bytes_u16(self.data_offset));
        out.push(self.header_checksum);
        out.push(self._reserved_8);
        append_bytes(&mut out, &le_bytes_u32(self._reserved_9[0]));
        append_bytes(&mut out, &le_bytes_u32(self._reserved_9[1]));
        append_bytes(&mut out, &le_bytes_u32(self._reserved_9[2]));
        append_bytes(&mut out, &self.integrity_sign);
        append_bytes(&mut out, &le_bytes_u32(self._reserved_10[0]));
        append_bytes(&mut out, &le_bytes_u32(self._reserved_10[1]));
        append_bytes(&mut out, &le_bytes_u32(self._reserved_10[2]));
        append_bytes(&mut out, &self.signature_ending);
        proof {
            lemma_v3_header_ext_bytes_pieces(*self);
        }
        out
    }
}

/// How the bytes of a V3_HEADER_EXT split up into its fields.
pub proof fn lemma_v3_header_ext_bytes_pieces(x: V3_HEADER_EXT)
    ensures
        x.spec_bytes().len() == 96,
        x.spec_bytes().subrange(0, 4) == x.spec_signature()@,
        x.spec_bytes().subrange(4, 6) == spec_u16_to_le_bytes(x.spec__reserved_1()),
        x.spec_bytes().subrange(6, 8) == spec_u16_to_le_bytes(x.spec__reserved_2()),
        x.spec_bytes().subrange(8, 10) == spec_u16_to_le_bytes(x.spec_struct_version()),
        x.spec_bytes().subrange(10, 12) == spec_u16_to_le_bytes(x.spec_data_version()),
        x.spec_bytes().subrange(12, 16) == spec_u32_to_le_bytes(x.spec_ext_header_size()),
        x.spec_bytes().subrange(16, 18) == spec_u16_to_le_bytes(x.spec__reserved_3()),
        x.spec_bytes().subrange(18, 20) == spec_u16_to_le_bytes(x.spec__reserved_4()),
        x.spec_bytes().subrange(20, 22) == spec_u16_to_le_bytes(x.spec__reserved_5()),
        x.spec_bytes().subrange(22, 24) == spec_u16_to_le_bytes(x.spec__reserved_6()),
        x.spec_bytes().subrange(24, 32) == spec_u32_to_le_bytes(x.spec__reserved_7()[0]) + spec_u32_to_le_bytes(x.spec__reserved_7()[1]),
        x.spec_bytes().subrange(32, 34) == spec_u16_to_le_bytes(x.spec_data_offset()),
        x.spec_bytes()[34] == x.spec_header_checksum(),
        x.spec_bytes()[35] == x.spec__reserved_8(),
        x.spec_bytes().subrange(36, 48) == spec_u32_to_le_bytes(x.spec__reserved_9()[0]) + spec_u32_to_le_bytes(x.spec__reserved_9()[1]) + spec_u32_to_le_bytes(x.spec__reserved_9()[2]),
        x.spec_bytes().subrange(48, 80) == x.spec_integrity_sign()@,
        x.spec_bytes().subrange(80, 92) == spec_u32_to_le_bytes(x.spec__reserved_10()[0]) + spec_u32_to_le_bytes(x.spec__reserved_10()[1]) + spec_u32_to_le_bytes(x.spec__reserved_10()[2]),
        x.spec_bytes().subrange(92, 96) == x.spec_signature_ending()@,
{
    lemma_auto_spec_u16_to_from_le_bytes();
    lemma_auto_spec_u32_to_from_le_bytes();
    lemma_auto_spec_u64_to_from_le_bytes();
    assert(x.spec_bytes().subrange(0, 4) == x.signature@);
    assert(x.spec_bytes().subrange(4, 6) == spec_u16_to_le_bytes(x._reserved_1));
    assert(x.spec_bytes().subrange(6, 8) == spec_u16_to_le_bytes(x._reserved_2));
    assert(x.spec_bytes().subrange(8, 10) == spec_u16_to_le_bytes(x.struct_version));
    assert(x.spec_bytes().subrange(10, 12) == spec_u16_to_le_bytes(x.data_version));
    assert(x.spec_bytes().subrange(12, 16) == spec_u32_to_le_bytes(x.ext_header_size));
    assert(x.spec_bytes().subrange(16, 18) == spec_u16_to_le_bytes(x._reserved_3));
    assert(x.spec_bytes().subrange(18, 20) == spec_u16_to_le_bytes(x._reserved_4));
    assert(x.spec_bytes().subrange(20, 22) == spec_u16_to_le_bytes(x._reserved_5));
    assert(x.spec_bytes().subrange(22, 24) == spec_u16_to_le_bytes(x._reserved_6));
    assert(x.spec_bytes().subrange(24, 32) == spec_u32_to_le_bytes(x._reserved_7[0]) + spec_u32_to_le_bytes(x._reserved_7[1]));
    assert(x.spec_bytes().subrange(32, 34) == spec_u16_to_le_bytes(x.data_offset));
    assert(x.spec_bytes().subrange(36, 48) == spec_u32_to_le_bytes(x._reserved_9[0]) + spec_u32_to_le_bytes(x._reserved_9[1]) + spec_u32_to_le_bytes(x._reserved_9[2]));
    assert(x.spec_bytes().subrange(48, 80) == x.integrity_sign@);
    assert(x.spec_bytes().subrange(80, 92) == spec_u32_to_le_bytes(x._reserved_10[0]) + spec_u32_to_le_bytes(x._reserved_10[1]) + spec_u32_to_le_bytes(x._reserved_10[2]));
    assert(x.spec_bytes().subrange(92, 96) == x.signature_ending@);
}

/// Two values of V3_HEADER_EXT with the same bytes are the same value.
#[verifier::spinoff_prover]
#[verifier::rlimit(60)]
pub proof fn lemma_v3_header_ext_bytes_injective(x: V3_HEADER_EXT, y: V3_HEADER_EXT)
    requires
        x.spec_bytes() == y.spec_bytes(),
    ensures
        x == y,
{
    lemma_v3_header_ext_bytes_pieces(x);
    lemma_v3_header_ext_bytes_pieces(y);
    lemma_auto_spec_u16_to_from_le_bytes();
    lemma_auto_spec_u32_to_from_le_bytes();
    lemma_auto_spec_u64_to_from_le_bytes();
    assert(x.signature@ == x.spec_bytes().subrange(0, 4));
    assert(x.signature =~= y.signature);
    assert(spec_u16_from_le_bytes(spec_u16_to_le_bytes(x._reserved_1)) == spec_u16_from_le_bytes(spec_u16_to_le_bytes(y._reserved_1)));
    assert(spec_u16_from_le_bytes(spec_u16_to_le_bytes(x._reserved_2)) == spec_u16_from_le_bytes(spec_u16_to_le_bytes(y._reserved_2)));
    assert(spec_u16_from_le_bytes(spec_u16_to_le_bytes(x.struct_version)) == spec_u16_from_le_bytes(spec_u16_to_le_bytes(y.struct_version)));
    assert(spec_u16_from_le_bytes(spec_u16_to_le_bytes(x.data_version)) == spec_u16_from_le_bytes(spec_u16_to_le_bytes(y.data_version)));
    assert(spec_u32_from_le_bytes(spec_u32_to_le_bytes(x.ext_header_size)) == spec_u32_from_le_bytes(spec_u32_to_le_bytes(y.ext_header_size)));
    assert(spec_u16_from_le_bytes(spec_u16_to_le_bytes(x._reserved_3)) == spec_u16_from_le_bytes(spec_u16_to_le_bytes(y._reserved_3)));
    assert(spec_u16_from_le_bytes(spec_u16_to_le_bytes(x._reserved_4)) == spec_u16_from_le_bytes(spec_u16_to_le_bytes(y._reserved_4)));
    assert(spec_u16_from_le_bytes(spec_u16_to_le_bytes(x._reserved_5)) == spec_u16_from_le_bytes(spec_u16_to_le_bytes(y._reserved_5)));
    assert(spec_u16_from_le_bytes(spec_u16_to_le_bytes(x._reserved_6)) == spec_u16_from_le_bytes(spec_u16_to_le_bytes(y._reserved_6)));
    assert(x.spec_bytes().subrange(24, 28) == spec_u32_to_le_bytes(x._reserved_7[0]));
    assert(y.spec_bytes().subrange(24, 28) == spec_u32_to_le_bytes(y._reserved_7[0]));
    assert(x._reserved_7[0] == y._reserved_7[0]);
    assert(x.spec_bytes().subrange(28, 32) == spec_u32_to_le_bytes(x._reserved_7[1]));
    assert(y.spec_bytes().subrange(28, 32) == spec_u32_to_le_bytes(y._reserved_7[1]));
    assert(x._reserved_7[1] == y._reserved_7[1]);
    assert(x._reserved_7 =~= y._reserved_7);
    assert(spec_u16_from_le_bytes(spec_u16_to_le_bytes(x.data_offset)) == spec_u16_from_le_bytes(spec_u16_to_le_bytes(y.data_offset)));
    assert(x.header_checksum == y.header_checksum);
    assert(x._reserved_8 == y._reserved_8);
    assert(x.spec_bytes().subrange(36, 40) == spec_u32_to_le_bytes(x._reserved_9[0]));
    assert(y.spec_bytes().subrange(36, 40) == spec_u32_to_le_bytes(y._reserved_9[0]));
    assert(x._reserved_9[0] == y._reserved_9[0]);
    assert(x.spec_bytes().subrange(40, 44) == spec_u32_to_le_bytes(x._reserved_9[1]));
    assert(y.spec_bytes().subrange(40, 44) == spec_u32_to_le_bytes(y._reserved_9[1]));
    assert(x._reserved_9[1] == y._reserved_9[1]);
    assert(x.spec_bytes().subrange(44, 48) == spec_u32_to_le_bytes(x._reserved_9[2]));
    assert(y.spec_bytes().subrange(44, 48) == spec_u32_to_le_bytes(y._reserved_9[2]));
    assert(x._reserved_9[2] == y._reserved_9[2]);
    assert(x._reserved_9 =~= y._reserved_9);
    assert(x.integrity_sign@ == x.spec_bytes().subrange(48, 80));
    assert(x.integrity_sign =~= y.integrity_sign);
    assert(x.spec_bytes().subrange(80, 84) == spec_u32_to_le_bytes(x._reserved_10[0]));
    assert(y.spec_bytes().subrange(80, 84) == spec_u32_to_le_bytes(y._reserved_10[0]));
    assert(x._reserved_10[0] == y._reserved_10[0]);
    assert(x.spec_bytes().subrange(84, 88) == spec_u32_to_le_bytes(x._reserved_10[1]));
    assert(y.spec_bytes().subrange(84, 88) == spec_u32_to_le_bytes(y._reserved_10[1]));
    assert(x._reserved_10[1] == y._reserved_10[1]);
    assert(x.spec_bytes().subrange(88, 92) == spec_u32_to_le_bytes(x._reserved_10[2]));
    assert(y.spec_bytes().subrange(88, 92) == spec_u32_to_le_bytes(y._reserved_10[2]));
    assert(x._reserved_10[2] == y._reserved_10[2]);
    assert(x._reserved_10 =~= y._reserved_10);
    assert(x.signature_ending@ == x.spec_bytes().subrange(92, 96));
    assert(x.signature_ending =~= y.signature_ending);
}

impl Default for V3_HEADER_EXT {
    fn default() -> (r: Self)
        ensures
            r.spec_signature() == [0x45u8, 0x43u8, 0x42u8, 0x32u8],
            r.spec__reserved_1() == 0,
            r.spec__reserved_2() == 0x10,
            r.spec_struct_version() == 0x12,
            r.spec_data_version() == 0x100,
            r.spec_ext_header_size() == 96,
            r.spec__reserved_3() == 0,
            r.spec__reserved_4() == 0xFFFF,
            r.spec__reserved_5() == 0x40,
            r.spec__reserved_6() == 0,
            r.spec__reserved_7() == [0u32, 0u32],
            r.spec_data_offset() == 0x58,
            r.spec_header_checksum() == 0,
            r.spec__reserved_8() == 0,
            r.spec__reserved_9() == [0u32, 0u32, 0u32],
            r.spec_integrity_sign() == [0u8, 0u8, 0u8, 0u8, 0u8, 0u8, 0u8, 0u8, 0u8, 0u8, 0u8, 0u8, 0u8, 0u8, 0u8, 0u8, 0u8, 0u8, 0u8, 0u8, 0u8, 0u8, 0u8, 0u8, 0u8, 0u8, 0u8, 0u8, 0u8, 0u8, 0u8, 0u8],
            r.spec__reserved_10() == [0u32, 0u32, 0u32],
            r.spec_signature_ending() == [0x42u8, 0x43u8, 0x50u8, 0x41u8],
    {
        V3_HEADER_EXT { signature: [0x45, 0x43, 0x42, 0x32], _reserved_1: 0, _reserved_2: 0x10, struct_version: 0x12, data_version: 0x100, ext_header_size: 96, _reserved_3: 0, _reserved_4: 0xFFFF, _reserved_5: 0x40, _reserved_6: 0, _reserved_7: [0, 0], data_offset: 0x58, header_checksum: 0, _reserved_8: 0, _reserved_9: [0, 0, 0], integrity_sign: [0; 32], _reserved_10: [0, 0, 0], signature_ending: [0x42, 0x43, 0x50, 0x41] }
    }
}

/// The header of a group of entries.
#[allow(non_camel_case_types)]
#[derive(Debug, Clone, Copy)]
pub struct GROUP_HEADER {
    pub(crate) signature: [u8; 4],
    pub(crate) group_id: u16,
    pub(crate) header_size: u16,
    pub(crate) version: u16,
    pub(crate) _reserved_: u16,
    pub(crate) group_size: u32,
}

impl GROUP_HEADER {
    pub closed spec fn spec_signature(self) -> [u8; 4] {
        self.signature
    }

    pub closed spec fn spec_group_id(self) -> u16 {
        self.group_id
    }

    pub closed spec fn spec_header_size(self) -> u16 {
        self.header_size
    }

    pub closed spec fn spec_version(self) -> u16 {
        self.version
    }

    pub closed spec fn spec__reserved_(self) -> u16 {
        self._reserved_
    }

    pub closed spec fn spec_group_size(self) -> u32 {
        self.group_size
    }

}

impl GROUP_HEADER {
    /// The bytes that store this value on disk.
    pub closed spec fn spec_bytes(self) -> Seq<u8> {
        self.signature@
            + spec_u16_to_le_bytes(self.group_id)
            + spec_u16_to_le_bytes(self.header_size)
            + spec_u16_to_le_bytes(self.version)
            + spec_u16_to_le_bytes(self._reserved_)
            + spec_u32_to_le_bytes(self.group_size)
    }
}

impl ByteLayout for GROUP_HEADER {
    open spec fn spec_size() -> nat {
        16
    }

    open spec fn spec_to_bytes(self) -> Seq<u8> {
        self.spec_bytes()
    }

    fn size() -> (r: usize) {
        16
    }

    #[verifier::spinoff_prover]
    fn from_bytes(bytes: &[u8]) -> (r: Self) {
        let signature: [u8; 4] = [bytes[0], bytes[1], bytes[2], bytes[3]];
        let group_id: u16 = u16_from_le_bytes(slice_subrange(bytes, 4, 6));
        let header_size: u16 = u16_from_le_bytes(slice_subrange(bytes, 6, 8));
        let version: u16 = u16_from_le_bytes(slice_subrange(bytes, 8, 10));
        let _reserved_: u16 = u16_from_le_bytes(slice_subrange(bytes, 10, 12));
        let group_size: u32 = u32_from_le_bytes(slice_subrange(bytes, 12, 16));
        let r = GROUP_HEADER { signature, group_id, header_size, version, _reserved_, group_size };
        proof {
            lemma_auto_spec_u16_to_from_le_bytes();
            lemma_auto_spec_u32_to_from_le_bytes();
            lemma_auto_spec_u64_to_from_le_bytes();
            lemma_group_header_bytes_pieces(r);
            assert(bytes@.subrange(0, 4) =~= signature@);
            assert(bytes@.subrange(4, 6) == spec_u16_to_le_bytes(group_id));
            assert(bytes@.subrange(6, 8) == spec_u16_to_le_bytes(header_size));
            assert(bytes@.subrange(8, 10) == spec_u16_to_le_bytes(version));
            assert(bytes@.subrange(10, 12) == spec_u16_to_le_bytes(_reserved_));
            assert(bytes@.subrange(12, 16) == spec_u32_to_le_bytes(group_size));
            assert(bytes@.subrange(0, 6) =~= bytes@.subrange(0, 4) + bytes@.subrange(4, 6));
            assert(bytes@.subrange(0, 8) =~= bytes@.subrange(0, 6) + bytes@.subrange(6, 8));
            assert(bytes@.subrange(0, 10) =~= bytes@.subrange(0, 8) + bytes@.subrange(8, 10));
            assert(bytes@.subrange(0, 12) =~= bytes@.subrange(0, 10) + bytes@.subrange(10, 12));
            assert(bytes@.subrange(0, 16) =~= bytes@.subrange(0, 12) + bytes@.subrange(12, 16));
            assert(bytes@.subrange(0, 16) =~= bytes@);
            assert(bytes@ == r.spec_bytes());
        }
        r
    }

    #[verifier::spinoff_prover]
    fn to_bytes(&self) -> (r: Vec<u8>) {
        let mut out: Vec<u8> = Vec::new();
        append_bytes(&mut out, &self.signature);
        append_bytes(&mut out, &le_bytes_u16(self.group_id));
        append_bytes(&mut out, &le_bytes_u16(self.header_size));
        append_bytes(&mut out, &le_bytes_u16(self.version));
        append_bytes(&mut out, &le_bytes_u16(self._reserved_));
        append_bytes(&mut out, &le_bytes_u32(self.group_size));
        proof {
            lemma_group_header_bytes_pieces(*self);
        }
        out
    }
}

/// How the bytes of a GROUP_HEADER split up into its fields.
pub proof fn lemma_group_header_bytes_pieces(x: GROUP_HEADER)
    ensures
        x.spec_bytes().len() == 16,
        x.spec_bytes().subrange(0, 4) == x.spec_signature()@,
        x.spec_bytes().subrange(4, 6) == spec_u16_to_le_bytes(x.spec_group_id()),
        x.spec_bytes().subrange(6, 8) == spec_u16_to_le_bytes(x.spec_header_size()),
        x.spec_bytes().subrange(8, 10) == spec_u16_to_le_bytes(x.spec_version()),
        x.spec_bytes().subrange(10, 12) == spec_u16_to_le_bytes(x.spec__reserved_()),
        x.spec_bytes().subrange(12, 16) == spec_u32_to_le_bytes(x.spec_group_size()),
{
    lemma_auto_spec_u16_to_from_le_bytes();
    lemma_auto_spec_u32_to_from_le_bytes();
    lemma_auto_spec_u64_to_from_le_bytes();
    assert(x.spec_bytes().subrange(0, 4) == x.signature@);
    assert(x.spec_bytes().subrange(4, 6) == spec_u16_to_le_bytes(x.group_id));
    assert(x.spec_bytes().subrange(6, 8) == spec_u16_to_le_bytes(x.header_size));
    assert(x.spec_bytes().subrange(8, 10) == spec_u16_to_le_bytes(x.version));
    assert(x.spec_bytes().subrange(10, 12) == spec_u16_to_le_bytes(x._reserved_));
    assert(x.spec_bytes().subrange(12, 16) == spec_u32_to_le_bytes(x.group_size));
}

/// Two values of GROUP_HEADER with the same bytes are the same value.
#[verifier::spinoff_prover]
pub proof fn lemma_group_header_bytes_injective(x: GROUP_HEADER, y: GROUP_HEADER)
    requires
        x.spec_bytes() == y.spec_bytes(),
    ensures
        x == y,
{
    lemma_group_header_bytes_pieces(x);
    lemma_group_header_bytes_pieces(y);
    lemma_auto_spec_u16_to_from_le_bytes();
    lemma_auto_spec_u32_to_from_le_bytes();
    lemma_auto_spec_u64_to_from_le_bytes();
    assert(x.signature@ == x.spec_bytes().subrange(0, 4));
    assert(x.signature =~= y.signature);
    assert(spec_u16_from_le_bytes(spec_u16_to_le_bytes(x.group_id)) == spec_u16_from_le_bytes(spec_u16_to_le_bytes(y.group_id)));
    assert(spec_u16_from_le_bytes(spec_u16_to_le_bytes(x.header_size)) == spec_u16_from_le_bytes(spec_u16_to_le_bytes(y.header_size)));
    assert(spec_u16_from_le_bytes(spec_u16_to_le_bytes(x.version)) == spec_u16_from_le_bytes(spec_u16_to_le_bytes(y.version)));
    assert(spec_u16_from_le_bytes(spec_u16_to_le_bytes(x._reserved_)) == spec_u16_from_le_bytes(spec_u16_to_le_bytes(y._reserved_)));
    assert(spec_u32_from_le_bytes(spec_u32_to_le_bytes(x.group_size)) == spec_u32_from_le_bytes(spec_u32_to_le_bytes(y.group_size)));
}

impl Default for GROUP_HEADER {
    fn default() -> (r: Self)
        ensures
            r.spec_signature() == [0x20u8, 0x20u8, 0x20u8, 0x20u8],
            r.spec_group_id() == 0,
            r.spec_header_size() == 16,
            r.spec_version() == 1,
            r.spec__reserved_() == 0,
            r.spec_group_size() == 16,
    {
        GROUP_HEADER { signature: [0x20, 0x20, 0x20, 0x20], group_id: 0, header_size: 16, version: 1, _reserved_: 0, group_size: 16 }
    }
}

/// How the records of an entry are ordered.
#[derive(Debug, PartialEq, Eq, Clone, Copy, Structural)]
pub enum ContextFormat {
    Raw,
    SortAscending,
}

impl ContextFormat {
    /// The number that stands for this value.
    pub open spec fn spec_to_u64(self) -> u64 {
        match self {
            ContextFormat::Raw => 0x0,
            ContextFormat::SortAscending => 0x1,
        }
    }

    /// The value that VALUE stands for, if any.
    pub open spec fn spec_from_u64(value: u64) -> Option<ContextFormat> {
        match value {
            0x0 => Some(ContextFormat::Raw),
            0x1 => Some(ContextFormat::SortAscending),
            _ => None,
        }
    }

    pub fn from_u64(value: u64) -> (r: Option<ContextFormat>)
        ensures
            r == ContextFormat::spec_from_u64(value),
    {
        match value {
            0x0 => Some(ContextFormat::Raw),
            0x1 => Some(ContextFormat::SortAscending),
            _ => None,
        }
    }

    pub fn to_u64(&self) -> (r: Option<u64>)
        ensures
            r == Some(self.spec_to_u64()),
    {
        Some(
            match self {
                ContextFormat::Raw => 0x0,
                ContextFormat::SortAscending => 0x1,
            },
        )
    }
}

/// Every value of ContextFormat is read back from its own number, and every number that is
/// read as a value is that value's number.
pub proof fn lemma_context_format_roundtrip(x: ContextFormat, value: u64)
    ensures
        ContextFormat::spec_from_u64(x.spec_to_u64()) == Some(x),
        ContextFormat::spec_from_u64(value) matches Some(y) ==> y.spec_to_u64() == value,
{
}

/// What the context format byte of an entry header means: 0 is raw (unsorted) content, 1
/// content sorted by key (ascending), and no other number is a context format; the sorted
/// format is the one with the flag bit set.
pub proof fn lemma_context_format_numbers(x: ContextFormat, v: u64)
    ensures
        ContextFormat::spec_from_u64(v) == Some(ContextFormat::Raw) <==> v == 0,
        ContextFormat::spec_from_u64(v) == Some(ContextFormat::SortAscending) <==> v == 1,
        ContextFormat::spec_from_u64(v) is None <==> v > 1,
        x == ContextFormat::SortAscending <==> x.spec_to_u64() == 1,
        x == ContextFormat::Raw <==> x.spec_to_u64() == 0,
{
}

/// What the body of an entry holds.
#[derive(Debug, PartialEq, Eq, Clone, Copy, Structural)]
pub enum ContextType {
    Struct,
    Parameters,
    Tokens,
}

impl ContextType {
    /// The number that stands for this value.
    pub open spec fn spec_to_u64(self) -> u64 {
        match self {
            ContextType::Struct => 0x0,
            ContextType::Parameters => 0x1,
            ContextType::Tokens => 0x2,
        }
    }

    /// The value that VALUE stands for, if any.
    pub open spec fn spec_from_u64(value: u64) -> Option<ContextType> {
        match value {
            0x0 => Some(ContextType::Struct),
            0x1 => Some(ContextType::Parameters),
            0x2 => Some(ContextType::Tokens),
            _ => None,
        }
    }

    pub fn from_u64(value: u64) -> (r: Option<ContextType>)
        ensures
            r == ContextType::spec_from_u64(value),
    {
        match value {
            0x0 => Some(ContextType::Struct),
            0x1 => Some(ContextType::Parameters),
            0x2 => Some(ContextType::Tokens),
            _ => None,
        }
    }

    pub fn to_u64(&self) -> (r: Option<u64>)
        ensures
            r == Some(self.spec_to_u64()),
    {
        Some(
            match self {
                ContextType::Struct => 0x0,
                ContextType::Parameters => 0x1,
                ContextType::Tokens => 0x2,
            },
        )
    }
}

/// Every value of ContextType is read back from its own number, and every number that is
/// read as a value is that value's number.
pub proof fn lemma_context_type_roundtrip(x: ContextType, value: u64)
    ensures
        ContextType::spec_from_u64(x.spec_to_u64()) == Some(x),
        ContextType::spec_from_u64(value) matches Some(y) ==> y.spec_to_u64() == value,
{
}

/// What the context type byte of an entry header means: 0 is a plain structure, 1 a
/// parameter list, 2 a token list, and no other number is a context type; each context type
/// is written as that number.
pub proof fn lemma_context_type_numbers(x: ContextType, v: u64)
    ensures
        ContextType::spec_from_u64(v) == Some(ContextType::Struct) <==> v == 0,
        ContextType::spec_from_u64(v) == Some(ContextType::Parameters) <==> v == 1,
        ContextType::spec_from_u64(v) == Some(ContextType::Tokens) <==> v == 2,
        ContextType::spec_from_u64(v) is None <==> v > 2,
        x == ContextType::Struct <==> x.spec_to_u64() == 0,
        x == ContextType::Parameters <==> x.spec_to_u64() == 1,
        x == ContextType::Tokens <==> x.spec_to_u64() == 2,
{
}

/// The header of an entry.
#[allow(non_camel_case_types)]
#[derive(Debug, Clone, Copy, PartialEq, Eq, Structural)]
pub struct ENTRY_HEADER {
    pub(crate) group_id: u16,
    pub(crate) entry_id: u16,
    pub(crate) entry_size: u16,
    pub(crate) instance_id: u16,
    pub(crate) context_type: u8,
    pub(crate) context_format: u8,
    pub(crate) unit_size: u8,
    pub(crate) priority_mask: u8,
    pub(crate) key_size: u8,
    pub(crate) key_pos: u8,
    pub(crate) board_instance_mask: u16,
}

impl ENTRY_HEADER {
    pub closed spec fn spec_group_id(self) -> u16 {
        self.group_id
    }

    pub closed spec fn spec_entry_id(self) -> u16 {
        self.entry_id
    }

    pub closed spec fn spec_entry_size(self) -> u16 {
        self.entry_size
    }

    pub closed spec fn spec_instance_id(self) -> u16 {
        self.instance_id
    }

    pub closed spec fn spec_context_type(self) -> u8 {
        self.context_type
    }

    pub closed spec fn spec_context_format(self) -> u8 {
        self.context_format
    }

    pub closed spec fn spec_unit_size(self) -> u8 {
        self.unit_size
    }

    pub closed spec fn spec_priority_mask(self) -> u8 {
        self.priority_mask
    }

    pub closed spec fn spec_key_size(self) -> u8 {
        self.key_size
    }

    pub closed spec fn spec_key_pos(self) -> u8 {
        self.key_pos
    }

    pub closed spec fn spec_board_instance_mask(self) -> u16 {
        self.board_instance_mask
    }

    pub fn instance_id(&self) -> (r: Result<u16>)
        ensures
            r == Ok::<u16, Error>(self.spec_instance_id()),
    {
        Ok(self.instance_id)
    }

    pub fn set_instance_id(&mut self, value: u16)
        ensures
            final(self).spec_instance_id() == value,
            final(self).spec_group_id() == old(self).spec_group_id(),
            final(self).spec_entry_id() == old(self).spec_entry_id(),
            final(self).spec_entry_size() == old(self).spec_entry_size(),
            final(self).spec_context_type() == old(self).spec_context_type(),
            final(self).spec_context_format() == old(self).spec_context_format(),
            final(self).spec_unit_size() == old(self).spec_unit_size(),
            final(self).spec_priority_mask() == old(self).spec_priority_mask(),
            final(self).spec_key_size() == old(self).spec_key_size(),
            final(self).spec_key_pos() == old(self).spec_key_pos(),
            final(self).spec_board_instance_mask() == old(self).spec_board_instance_mask(),
    {
        self.instance_id = value;
    }

    pub fn context_type(&self) -> (r: Result<ContextType>)
        ensures
            r == match ContextType::spec_from_u64(self.spec_context_type() as u64) {
                Some(e) => Ok::<ContextType, Error>(e),
                None => Err(Error::EntryTypeMismatch),
            },
    {
        match ContextType::from_u64(self.context_type as u64) {
            Some(e) => Ok(e),
            None => Err(Error::EntryTypeMismatch),
        }
    }

    pub fn set_context_type(&mut self, value: ContextType)
        ensures
            final(self).spec_context_type() == value.spec_to_u64() as u8,
            final(self).spec_group_id() == old(self).spec_group_id(),
            final(self).spec_entry_id() == old(self).spec_entry_id(),
            final(self).spec_entry_size() == old(self).spec_entry_size(),
            final(self).spec_instance_id() == old(self).spec_instance_id(),
            final(self).spec_context_format() == old(self).spec_context_format(),
            final(self).spec_unit_size() == old(self).spec_unit_size(),
            final(self).spec_priority_mask() == old(self).spec_priority_mask(),
            final(self).spec_key_size() == old(self).spec_key_size(),
            final(self).spec_key_pos() == old(self).spec_key_pos(),
            final(self).spec_board_instance_mask() == old(self).spec_board_instance_mask(),
    {
        self.context_type = value.to_u64().unwrap() as u8;
    }

    pub fn context_format(&self) -> (r: Result<ContextFormat>)
        ensures
            r == match ContextFormat::spec_from_u64(self.spec_context_format() as u64) {
                Some(e) => Ok::<ContextFormat, Error>(e),
                None => Err(Error::EntryTypeMismatch),
            },
    {
        match ContextFormat::from_u64(self.context_format as u64) {
            Some(e) => Ok(e),
            None => Err(Error::EntryTypeMismatch),
        }
    }

    pub fn set_context_format(&mut self, value: ContextFormat)
        ensures
            final(self).spec_context_format() == value.spec_to_u64() as u8,
            final(self).spec_group_id() == old(self).spec_group_id(),
            final(self).spec_entry_id() == old(self).spec_entry_id(),
            final(self).spec_entry_size() == old(self).spec_entry_size(),
            final(self).spec_instance_id() == old(self).spec_instance_id(),
            final(self).spec_context_type() == old(self).spec_context_type(),
            final(self).spec_unit_size() == old(self).spec_unit_size(),
            final(self).spec_priority_mask() == old(self).spec_priority_mask(),
            final(self).spec_key_size() == old(self).spec_key_size(),
            final(self).spec_key_pos() == old(self).spec_key_pos(),
            final(self).spec_board_instance_mask() == old(self).spec_board_instance_mask(),
    {
        self.context_format = value.to_u64().unwrap() as u8;
    }

    pub fn unit_size(&self) -> (r: Result<u8>)
        ensures
            r == Ok::<u8, Error>(self.spec_unit_size()),
    {
        Ok(self.unit_size)
    }

    pub fn set_unit_size(&mut self, value: u8)
        ensures
            final(self).spec_unit_size() == value,
            final(self).spec_group_id() == old(self).spec_group_id(),
            final(self).spec_entry_id() == old(self).spec_entry_id(),
            final(self).spec_entry_size() == old(self).spec_entry_size(),
            final(self).spec_instance_id() == old(self).spec_instance_id(),
            final(self).spec_context_type() == old(self).spec_context_type(),
            final(self).spec_context_format() == old(self).spec_context_format(),
            final(self).spec_priority_mask() == old(self).spec_priority_mask(),
            final(self).spec_key_size() == old(self).spec_key_size(),
            final(self).spec_key_pos() == old(self).spec_key_pos(),
            final(self).spec_board_instance_mask() == old(self).spec_board_instance_mask(),
    {
        self.unit_size = value;
    }

    pub fn priority_mask(&self) -> (r: Result<PriorityLevels>)
        ensures
            r is Ok <==> (self.spec_priority_mask() as u64) & !0x3fu64 == 0,
            r matches Ok(b) ==> b.spec_raw() == self.spec_priority_mask(),
    {
        proof {
            if (self.priority_mask as u64) & !0x3fu64 == 0 {
                lemma_masked_bound_u64(self.priority_mask as u64, 0x3fu64);
            }
        }
        match PriorityLevels::from_u64(self.priority_mask as u64) {
            Some(b) => Ok(b),
            None => Err(Error::EntryTypeMismatch),
        }
    }

    pub fn set_priority_mask(&mut self, value: PriorityLevels)
        ensures
            final(self).spec_priority_mask() == value.spec_raw() as u8,
            final(self).spec_group_id() == old(self).spec_group_id(),
            final(self).spec_entry_id() == old(self).spec_entry_id(),
            final(self).spec_entry_size() == old(self).spec_entry_size(),
            final(self).spec_instance_id() == old(self).spec_instance_id(),
            final(self).spec_context_type() == old(self).spec_context_type(),
            final(self).spec_context_format() == old(self).spec_context_format(),
            final(self).spec_unit_size() == old(self).spec_unit_size(),
            final(self).spec_key_size() == old(self).spec_key_size(),
            final(self).spec_key_pos() == old(self).spec_key_pos(),
            final(self).spec_board_instance_mask() == old(self).spec_board_instance_mask(),
    {
        self.priority_mask = value.into_raw() as u8;
    }

    pub fn key_size(&self) -> (r: Result<u8>)
        ensures
            r == Ok::<u8, Error>(self.spec_key_size()),
    {
        Ok(self.key_size)
    }

    pub fn set_key_size(&mut self, value: u8)
        ensures
            final(self).spec_key_size() == value,
            final(self).spec_group_id() == old(self).spec_group_id(),
            final(self).spec_entry_id() == old(self).spec_entry_id(),
            final(self).spec_entry_size() == old(self).spec_entry_size(),
            final(self).spec_instance_id() == old(self).spec_instance_id(),
            final(self).spec_context_type() == old(self).spec_context_type(),
            final(self).spec_context_format() == old(self).spec_context_format(),
            final(self).spec_unit_size() == old(self).spec_unit_size(),
            final(self).spec_priority_mask() == old(self).spec_priority_mask(),
            final(self).spec_key_pos() == old(self).spec_key_pos(),
            final(self).spec_board_instance_mask() == old(self).spec_board_instance_mask(),
    {
        self.key_size = value;
    }

    pub fn key_pos(&self) -> (r: Result<u8>)
        ensures
            r == Ok::<u8, Error>(self.spec_key_pos()),
    {
        Ok(self.key_pos)
    }

    pub fn set_key_pos(&mut self, value: u8)
        ensures
            final(self).spec_key_pos() == value,
            final(self).spec_group_id() == old(self).spec_group_id(),
            final(self).spec_entry_id() == old(self).spec_entry_id(),
            final(self).spec_entry_size() == old(self).spec_entry_size(),
            final(self).spec_instance_id() == old(self).spec_instance_id(),
            final(self).spec_context_type() == old(self).spec_context_type(),
            final(self).spec_context_format() == old(self).spec_context_format(),
            final(self).spec_unit_size() == old(self).spec_unit_size(),
            final(self).spec_priority_mask() == old(self).spec_priority_mask(),
            final(self).spec_key_size() == old(self).spec_key_size(),
            final(self).spec_board_instance_mask() == old(self).spec_board_instance_mask(),
    {
        self.key_pos = value;
    }

    pub fn board_instance_mask(&self) -> (r: Result<u16>)
        ensures
            r == Ok::<u16, Error>(self.spec_board_instance_mask()),
    {
        Ok(self.board_instance_mask)
    }

    pub fn set_board_instance_mask(&mut self, value: u16)
        ensures
            final(self).spec_board_instance_mask() == value,
            final(self).spec_group_id() == old(self).spec_group_id(),
            final(self).spec_entry_id() == old(self).spec_entry_id(),
            final(self).spec_entry_size() == old(self).spec_entry_size(),
            final(self).spec_instance_id() == old(self).spec_instance_id(),
            final(self).spec_context_type() == old(self).spec_context_type(),
            final(self).spec_context_format() == old(self).spec_context_format(),
            final(self).spec_unit_size() == old(self).spec_unit_size(),
            final(self).spec_priority_mask() == old(self).spec_priority_mask(),
            final(self).spec_key_size() == old(self).spec_key_size(),
            final(self).spec_key_pos() == old(self).spec_key_pos(),
    {
        self.board_instance_mask = value;
    }

}

impl ENTRY_HEADER {
    /// The bytes that store this value on disk.
    pub closed spec fn spec_bytes(self) -> Seq<u8> {
        spec_u16_to_le_bytes(self.group_id)
            + spec_u16_to_le_bytes(self.entry_id)
            + spec_u16_to_le_bytes(self.entry_size)
            + spec_u16_to_le_bytes(self.instance_id)
            + seq![self.context_type]
            + seq![self.context_format]
            + seq![self.unit_size]
            + seq![self.priority_mask]
            + seq![self.key_size]
            + seq![self.key_pos]
            + spec_u16_to_le_bytes(self.board_instance_mask)
    }
}

impl ByteLayout for ENTRY_HEADER {
    open spec fn spec_size() -> nat {
        16
    }

    open spec fn spec_to_bytes(self) -> Seq<u8> {
        self.spec_bytes()
    }

    fn size() -> (r: usize) {
        16
    }

    #[verifier::spinoff_prover]
    fn from_bytes(bytes: &[u8]) -> (r: Self) {
        let group_id: u16 = u16_from_le_bytes(slice_subrange(bytes, 0, 2));
        let entry_id: u16 = u16_from_le_bytes(slice_subrange(bytes, 2, 4));
        let entry_size: u16 = u16_from_le_bytes(slice_subrange(bytes, 4, 6));
        let instance_id: u16 = u16_from_le_bytes(slice_subrange(bytes, 6, 8));
        let context_type: u8 = bytes[8];
        let context_format: u8 = bytes[9];
        let unit_size: u8 = bytes[10];
        let priority_mask: u8 = bytes[11];
        let key_size: u8 = bytes[12];
        let key_pos: u8 = bytes[13];
        let board_instance_mask: u16 = u16_from_le_bytes(slice_subrange(bytes, 14, 16));
        let r = ENTRY_HEADER { group_id, entry_id, entry_size, instance_id, context_type, context_format, unit_size, priority_mask, key_size, key_pos, board_instance_mask };
        proof {
            lemma_auto_spec_u16_to_from_le_bytes();
            lemma_auto_spec_u32_to_from_le_bytes();
            lemma_auto_spec_u64_to_from_le_bytes();
            lemma_entry_header_bytes_pieces(r);
            assert(bytes@.subrange(0, 2) == spec_u16_to_le_bytes(group_id));
            assert(bytes@.subrange(2, 4) == spec_u16_to_le_bytes(entry_id));
            assert(bytes@.subrange(4, 6) == spec_u16_to_le_bytes(entry_size));
            assert(bytes@.subrange(6, 8) == spec_u16_to_le_bytes(instance_id));
            assert(bytes@.subrange(14, 16) == spec_u16_to_le_bytes(board_instance_mask));
            assert(bytes@.subrange(0, 4) =~= bytes@.subrange(0, 2) + bytes@.subrange(2, 4));
            assert(bytes@.subrange(0, 6) =~= bytes@.subrange(0, 4) + bytes@.subrange(4, 6));
            assert(bytes@.subrange(0, 8) =~= bytes@.subrange(0, 6) + bytes@.subrange(6, 8));
            assert(bytes@.subrange(0, 9) =~= bytes@.subrange(0, 8) + bytes@.subrange(8, 9));
            assert(bytes@.subrange(0, 10) =~= bytes@.subrange(0, 9) + bytes@.subrange(9, 10));
            assert(bytes@.subrange(0, 11) =~= bytes@.subrange(0, 10) + bytes@.subrange(10, 11));
            assert(bytes@.subrange(0, 12) =~= bytes@.subrange(0, 11) + bytes@.subrange(11, 12));
            assert(bytes@.subrange(0, 13) =~= bytes@.subrange(0, 12) + bytes@.subrange(12, 13));
            assert(bytes@.subrange(0, 14) =~= bytes@.subrange(0, 13) + bytes@.subrange(13, 14));
            assert(bytes@.subrange(0, 16) =~= bytes@.subrange(0, 14) + bytes@.subrange(14, 16));
            assert(bytes@.subrange(0, 16) =~= bytes@);
            assert(bytes@ == r.spec_bytes());
        }
        r
    }

    #[verifier::spinoff_prover]
    fn to_bytes(&self) -> (r: Vec<u8>) {
        let mut out: Vec<u8> = Vec::new();
        append_bytes(&mut out, &le_bytes_u16(self.group_id));
        append_bytes(&mut out, &le_bytes_u16(self.entry_id));
        append_bytes(&mut out, &le_bytes_u16(self.entry_size));
        append_bytes(&mut out, &le_bytes_u16(self.instance_id));
        out.push(self.context_type);
        out.push(self.context_format);
        out.push(self.unit_size);
        out.push(self.priority_mask);
        out.push(self.key_size);
        out.push(self.key_pos);
        append_bytes(&mut out, &le_bytes_u16(self.board_instance_mask));
        proof {
            lemma_entry_header_bytes_pieces(*self);
        }
        out
    }
}

/// How the bytes of a ENTRY_HEADER split up into its fields.
pub proof fn lemma_entry_header_bytes_pieces(x: ENTRY_HEADER)
    ensures
        x.spec_bytes().len() == 16,
        x.spec_bytes().subrange(0, 2) == spec_u16_to_le_bytes(x.spec_group_id()),
        x.spec_bytes().subrange(2, 4) == spec_u16_to_le_bytes(x.spec_entry_id()),
        x.spec_bytes().subrange(4, 6) == spec_u16_to_le_bytes(x.spec_entry_size()),
        x.spec_bytes().subrange(6, 8) == spec_u16_to_le_bytes(x.spec_instance_id()),
        x.spec_bytes()[8] == x.spec_context_type(),
        x.spec_bytes()[9] == x.spec_context_format(),
        x.spec_bytes()[10] == x.spec_unit_size(),
        x.spec_bytes()[11] == x.spec_priority_mask(),
        x.spec_bytes()[12] == x.spec_key_size(),
        x.spec_bytes()[13] == x.spec_key_pos(),
        x.spec_bytes().subrange(14, 16) == spec_u16_to_le_bytes(x.spec_board_instance_mask()),
{
    lemma_auto_spec_u16_to_from_le_bytes();
    lemma_auto_spec_u32_to_from_le_bytes();
    lemma_auto_spec_u64_to_from_le_bytes();
    assert(x.spec_bytes().subrange(0, 2) == spec_u16_to_le_bytes(x.group_id));
    assert(x.spec_bytes().subrange(2, 4) == spec_u16_to_le_bytes(x.entry_id));
    assert(x.spec_bytes().subrange(4, 6) == spec_u16_to_le_bytes(x.entry_size));
    assert(x.spec_bytes().subrange(6, 8) == spec_u16_to_le_bytes(x.instance_id));
    assert(x.spec_bytes().subrange(14, 16) == spec_u16_to_le_bytes(x.board_instance_mask));
}

/// Two values of ENTRY_HEADER with the same bytes are the same value.
#[verifier::spinoff_prover]
pub proof fn lemma_entry_header_bytes_injective(x: ENTRY_HEADER, y: ENTRY_HEADER)
    requires
        x.spec_bytes() == y.spec_bytes(),
    ensures
        x == y,
{
    lemma_entry_header_bytes_pieces(x);
    lemma_entry_header_bytes_pieces(y);
    lemma_auto_spec_u16_to_from_le_bytes();
    lemma_auto_spec_u32_to_from_le_bytes();
    lemma_auto_spec_u64_to_from_le_bytes();
    assert(spec_u16_from_le_bytes(spec_u16_to_le_bytes(x.group_id)) == spec_u16_from_le_bytes(spec_u16_to_le_bytes(y.group_id)));
    assert(spec_u16_from_le_bytes(spec_u16_to_le_bytes(x.entry_id)) == spec_u16_from_le_bytes(spec_u16_to_le_bytes(y.entry_id)));
    assert(spec_u16_from_le_bytes(spec_u16_to_le_bytes(x.entry_size)) == spec_u16_from_le_bytes(spec_u16_to_le_bytes(y.entry_size)));
    assert(spec_u16_from_le_bytes(spec_u16_to_le_bytes(x.instance_id)) == spec_u16_from_le_bytes(spec_u16_to_le_bytes(y.instance_id)));
    assert(x.context_type == y.context_type);
    assert(x.context_format == y.context_format);
    assert(x.unit_size == y.unit_size);
    assert(x.priority_mask == y.priority_mask);
    assert(x.key_size == y.key_size);
    assert(x.key_pos == y.key_pos);
    assert(spec_u16_from_le_bytes(spec_u16_to_le_bytes(x.board_instance_mask)) == spec_u16_from_le_bytes(spec_u16_to_le_bytes(y.board_instance_mask)));
}

impl Default for ENTRY_HEADER {
    fn default() -> (r: Self)
        ensures
            r.spec_group_id() == 0,
            r.spec_entry_id() == 0,
            r.spec_entry_size() == 16,
            r.spec_instance_id() == 0,
            r.spec_context_type() == 0,
            r.spec_context_format() == 0,
            r.spec_unit_size() == 0,
            r.spec_priority_mask() == 0x20,
            r.spec_key_size() == 0,
            r.spec_key_pos() == 0,
            r.spec_board_instance_mask() == 0xFFFF,
    {
        ENTRY_HEADER { group_id: 0, entry_id: 0, entry_size: 16, instance_id: 0, context_type: 0, context_format: 0, unit_size: 0, priority_mask: 0x20, key_size: 0, key_pos: 0, board_instance_mask: 0xFFFF }
    }
}

/// One token: its key and its value.
#[allow(non_camel_case_types)]
#[derive(Debug, Clone, Copy, PartialEq, Eq, Structural)]
pub struct TOKEN_ENTRY {
    pub key: u32,
    pub value: u32,
}

impl TOKEN_ENTRY {
    pub closed spec fn spec_key(self) -> u32 {
        self.key
    }

    pub closed spec fn spec_value(self) -> u32 {
        self.value
    }

}

impl TOKEN_ENTRY {
    /// The bytes that store this value on disk.
    pub closed spec fn spec_bytes(self) -> Seq<u8> {
        spec_u32_to_le_bytes(self.key)
            + spec_u32_to_le_bytes(self.value)
    }
}

impl ByteLayout for TOKEN_ENTRY {
    open spec fn spec_size() -> nat {
        8
    }

    open spec fn spec_to_bytes(self) -> Seq<u8> {
        self.spec_bytes()
    }

    fn size() -> (r: usize) {
        8
    }

    #[verifier::spinoff_prover]
    fn from_bytes(bytes: &[u8]) -> (r: Self) {
        let key: u32 = u32_from_le_bytes(slice_subrange(bytes, 0, 4));
        let value: u32 = u32_from_le_bytes(slice_subrange(bytes, 4, 8));
        let r = TOKEN_ENTRY { key, value };
        proof {
            lemma_auto_spec_u16_to_from_le_bytes();
            lemma_auto_spec_u32_to_from_le_bytes();
            lemma_auto_spec_u64_to_from_le_bytes();
            lemma_token_entry_bytes_pieces(r);
            assert(bytes@.subrange(0, 4) == spec_u32_to_le_bytes(key));
            assert(bytes@.subrange(4, 8) == spec_u32_to_le_bytes(value));
            assert(bytes@.subrange(0, 8) =~= bytes@.subrange(0, 4) + bytes@.subrange(4, 8));
            assert(bytes@.subrange(0, 8) =~= bytes@);
            assert(bytes@ == r.spec_bytes());
        }
        r
    }

    #[verifier::spinoff_prover]
    fn to_bytes(&self) -> (r: Vec<u8>) {
        let mut out: Vec<u8> = Vec::new();
        append_bytes(&mut out, &le_bytes_u32(self.key));
        append_bytes(&mut out, &le_bytes_u32(self.value));
        proof {
            lemma_token_entry_bytes_pieces(*self);
        }
        out
    }
}

/// How the bytes of a TOKEN_ENTRY split up into its fields.
pub proof fn lemma_token_entry_bytes_pieces(x: TOKEN_ENTRY)
    ensures
        x.spec_bytes().len() == 8,
        x.spec_bytes().subrange(0, 4) == spec_u32_to_le_bytes(x.spec_key()),
        x.spec_bytes().subrange(4, 8) == spec_u32_to_le_bytes(x.spec_value()),
{
    lemma_auto_spec_u16_to_from_le_bytes();
    lemma_auto_spec_u32_to_from_le_bytes();
    lemma_auto_spec_u64_to_from_le_bytes();
    assert(x.spec_bytes().subrange(0, 4) == spec_u32_to_le_bytes(x.key));
    assert(x.spec_bytes().subrange(4, 8) == spec_u32_to_le_bytes(x.value));
}

/// Two values of TOKEN_ENTRY with the same bytes are the same value.
#[verifier::spinoff_prover]
pub proof fn lemma_token_entry_bytes_injective(x: TOKEN_ENTRY, y: TOKEN_ENTRY)
    requires
        x.spec_bytes() == y.spec_bytes(),
    ensures
        x == y,
{
    lemma_token_entry_bytes_pieces(x);
    lemma_token_entry_bytes_pieces(y);
    lemma_auto_spec_u16_to_from_le_bytes();
    lemma_auto_spec_u32_to_from_le_bytes();
    lemma_auto_spec_u64_to_from_le_bytes();
    assert(spec_u32_from_le_bytes(spec_u32_to_le_bytes(x.key)) == spec_u32_from_le_bytes(spec_u32_to_le_bytes(y.key)));
    assert(spec_u32_from_le_bytes(spec_u32_to_le_bytes(x.value)) == spec_u32_from_le_bytes(spec_u32_to_le_bytes(y.value)));
}

} // verus!
