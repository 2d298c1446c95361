use crate::bits::{field_u8, field_u16, field_u32, field_u64, lemma_masked_bound_u64, lemma_shift_table_u8, lemma_shift_table_u16, lemma_shift_table_u32, lemma_shift_table_u64, lemma_with_field_other_u8, lemma_with_field_other_u16, lemma_with_field_other_u32, lemma_with_field_other_u64, lemma_with_field_same_u8, lemma_with_field_same_u16, lemma_with_field_same_u32, lemma_with_field_same_u64, spec_field_u8, spec_field_u16, spec_field_u32, spec_field_u64, spec_with_field_u8, spec_with_field_u16, spec_with_field_u32, spec_with_field_u64, with_field_u8, with_field_u16, with_field_u32, with_field_u64};
use crate::le::{append_bytes, le_bytes_u16, le_bytes_u32, le_bytes_u64, lemma_auto_spec_u16_to_from_le_bytes, lemma_auto_spec_u32_to_from_le_bytes, lemma_auto_spec_u64_to_from_le_bytes, spec_u64_from_le_bytes, spec_u64_to_le_bytes, u64_from_le_bytes};
use crate::ondisk::collection::{ByteLayout, HeaderWithTail};
use crate::ondisk::compat::EntryCompatible;
use crate::ondisk::ids::{EntryId, DfEntryId};
use crate::struct_accessors::{spec_bool_result_of_raw, spec_raw_of_bool};
use crate::types::{Error, Result};
use vstd::prelude::*;
use vstd::slice::slice_subrange;

verus! {

/// The interleaving granularity of an SLink region.
#[derive(Debug, PartialEq, Eq, Clone, Copy, Structural)]
pub enum SlinkRegionInterleavingSize {
    _256B,
    _512B,
    _1024B,
    _2048B,
    Auto,
}

impl SlinkRegionInterleavingSize {
    /// The number that stands for this value.
    pub open spec fn spec_to_u64(self) -> u64 {
        match self {
            SlinkRegionInterleavingSize::_256B => 0x0,
            SlinkRegionInterleavingSize::_512B => 0x1,
            SlinkRegionInterleavingSize::_1024B => 0x2,
            SlinkRegionInterleavingSize::_2048B => 0x3,
            SlinkRegionInterleavingSize::Auto => 0x7,
        }
    }

    /// The value that VALUE stands for, if any.
    pub open spec fn spec_from_u64(value: u64) -> Option<SlinkRegionInterleavingSize> {
        match value {
            0x0 => Some(SlinkRegionInterleavingSize::_256B),
            0x1 => Some(SlinkRegionInterleavingSize::_512B),
            0x2 => Some(SlinkRegionInterleavingSize::_1024B),
            0x3 => Some(SlinkRegionInterleavingSize::_2048B),
            0x7 => Some(SlinkRegionInterleavingSize::Auto),
            _ => None,
        }
    }

    pub fn from_u64(value: u64) -> (r: Option<SlinkRegionInterleavingSize>)
        ensures
            r == SlinkRegionInterleavingSize::spec_from_u64(value),
    {
        match value {
            0x0 => Some(SlinkRegionInterleavingSize::_256B),
            0x1 => Some(SlinkRegionInterleavingSize::_512B),
            0x2 => Some(SlinkRegionInterleavingSize::_1024B),
            0x3 => Some(SlinkRegionInterleavingSize::_2048B),
            0x7 => Some(SlinkRegionInterleavingSize::Auto),
            _ => None,
        }
    }

    pub fn to_u64(&self) -> (r: Option<u64>)
        ensures
            r == Some(self.spec_to_u64()),
    {
        Some(
            match self {
                SlinkRegionInterleavingSize::_256B => 0x0,
                SlinkRegionInterleavingSize::_512B => 0x1,
                SlinkRegionInterleavingSize::_1024B => 0x2,
                SlinkRegionInterleavingSize::_2048B => 0x3,
                SlinkRegionInterleavingSize::Auto => 0x7,
            },
        )
    }
}

/// Every value of SlinkRegionInterleavingSize is read back from its own number, and every number that is
/// read as a value is that value's number.
pub proof fn lemma_slink_region_interleaving_size_roundtrip(x: SlinkRegionInterleavingSize, value: u64)
    ensures
        SlinkRegionInterleavingSize::spec_from_u64(x.spec_to_u64()) == Some(x),
        SlinkRegionInterleavingSize::spec_from_u64(value) matches Some(y) ==> y.spec_to_u64() == value,
{
}

impl SlinkRegionInterleavingSize {
    /// What the name of this value says: the size, in bytes (0 for the values that do not name one).
    pub open spec fn spec_size_in_bytes(self) -> int {
        match self {
            SlinkRegionInterleavingSize::_256B => 256,
            SlinkRegionInterleavingSize::_512B => 512,
            SlinkRegionInterleavingSize::_1024B => 1024,
            SlinkRegionInterleavingSize::_2048B => 2048,
            SlinkRegionInterleavingSize::Auto => 0,
        }
    }
}

/// The numbers of the values follow what their names say: of two values that name one,
/// the one with the larger named quantity has the larger number; each other value has a number of its own.
pub proof fn lemma_slink_region_interleaving_size_numbers_follow_names(x: SlinkRegionInterleavingSize, y: SlinkRegionInterleavingSize)
    ensures
        (x != SlinkRegionInterleavingSize::Auto && y != SlinkRegionInterleavingSize::Auto) ==> (x.spec_size_in_bytes() < y.spec_size_in_bytes() <==> x.spec_to_u64() < y.spec_to_u64()),
        x == SlinkRegionInterleavingSize::Auto <==> x.spec_to_u64() == 7,
{
}

/// One SLink region.
#[allow(non_camel_case_types)]
#[derive(Debug, Clone, Copy)]
pub struct SlinkRegion {
    pub(crate) size: u64,
    pub(crate) alignment: u8,
    pub socket: u8,
    pub(crate) phys_nbio_map: u8,
    pub(crate) interleaving: u8,
    pub(crate) _reserved_: [u8; 4],
}

impl SlinkRegion {
    pub closed spec fn spec_size(self) -> u64 {
        self.size
    }

    pub closed spec fn spec_alignment(self) -> u8 {
        self.alignment
    }

    pub closed spec fn spec_socket(self) -> u8 {
        self.socket
    }

    pub closed spec fn spec_phys_nbio_map(self) -> u8 {
        self.phys_nbio_map
    }

    pub closed spec fn spec_interleaving(self) -> u8 {
        self.interleaving
    }

    pub closed spec fn spec__reserved_(self) -> [u8; 4] {
        self._reserved_
    }

    pub fn alignment(&self) -> (r: Result<u8>)
        ensures
            r == Ok::<u8, Error>(self.spec_alignment()),
    {
        Ok(self.alignment)
    }

    pub fn set_alignment(&mut self, value: u8)
        ensures
            final(self).spec_alignment() == value,
            final(self).spec_size() == old(self).spec_size(),
            final(self).spec_socket() == old(self).spec_socket(),
            final(self).spec_phys_nbio_map() == old(self).spec_phys_nbio_map(),
            final(self).spec_interleaving() == old(self).spec_interleaving(),
            final(self).spec__reserved_() == old(self).spec__reserved_(),
    {
        self.alignment = value;
    }

    pub fn phys_nbio_map(&self) -> (r: Result<u8>)
        ensures
            r == Ok::<u8, Error>(self.spec_phys_nbio_map()),
    {
        Ok(self.phys_nbio_map)
    }

    pub fn set_phys_nbio_map(&mut self, value: u8)
        ensures
            final(self).spec_phys_nbio_map() == value,
            final(self).spec_size() == old(self).spec_size(),
            final(self).spec_alignment() == old(self).spec_alignment(),
            final(self).spec_socket() == old(self).spec_socket(),
            final(self).spec_interleaving() == old(self).spec_interleaving(),
            final(self).spec__reserved_() == old(self).spec__reserved_(),
    {
        self.phys_nbio_map = value;
    }

    pub fn interleaving(&self) -> (r: Result<SlinkRegionInterleavingSize>)
        ensures
            r == match SlinkRegionInterleavingSize::spec_from_u64(self.spec_interleaving() as u64) {
                Some(e) => Ok::<SlinkRegionInterleavingSize, Error>(e),
                None => Err(Error::EntryTypeMismatch),
            },
    {
        match SlinkRegionInterleavingSize::from_u64(self.interleaving as u64) {
            Some(e) => Ok(e),
            None => Err(Error::EntryTypeMismatch),
        }
    }

    pub fn set_interleaving(&mut self, value: SlinkRegionInterleavingSize)
        ensures
            final(self).spec_interleaving() == value.spec_to_u64() as u8,
            final(self).spec_size() == old(self).spec_size(),
            final(self).spec_alignment() == old(self).spec_alignment(),
            final(self).spec_socket() == old(self).spec_socket(),
            final(self).spec_phys_nbio_map() == old(self).spec_phys_nbio_map(),
            final(self).spec__reserved_() == old(self).spec__reserved_(),
    {
        self.interleaving = value.to_u64().unwrap() as u8;
    }

}

impl SlinkRegion {
    /// The bytes that store this value on disk.
    pub closed spec fn spec_bytes(self) -> Seq<u8> {
        spec_u64_to_le_bytes(self.size)
            + seq![self.alignment]
            + seq![self.socket]
            + seq![self.phys_nbio_map]
            + seq![self.interleaving]
            + self._reserved_@
    }
}

impl ByteLayout for SlinkRegion {
    open spec fn spec_size() -> nat {
        16
    }

    open spec fn spec_to_bytes(self) -> Seq<u8> {
        self.spec_bytes()
    }

    fn size() -> (r: usize) {
        16
    }

    #[verifier::spinoff_prover]
    fn from_bytes(bytes: &[u8]) -> (r: Self) {
        let size: u64 = u64_from_le_bytes(slice_subrange(bytes, 0, 8));
        let alignment: u8 = bytes[8];
        let socket: u8 = bytes[9];
        let phys_nbio_map: u8 = bytes[10];
        let interleaving: u8 = bytes[11];
        let _reserved_: [u8; 4] = [bytes[12], bytes[13], bytes[14], bytes[15]];
        let r = SlinkRegion { size, alignment, socket, phys_nbio_map, interleaving, _reserved_ };
        proof {
            lemma_auto_spec_u16_to_from_le_bytes();
            lemma_auto_spec_u32_to_from_le_bytes();
            lemma_auto_spec_u64_to_from_le_bytes();
            lemma_slink_region_bytes_pieces(r);
            assert(bytes@.subrange(0, 8) == spec_u64_to_le_bytes(size));
            assert(bytes@.subrange(12, 16) =~= _reserved_@);
            assert(bytes@.subrange(0, 9) =~= bytes@.subrange(0, 8) + bytes@.subrange(8, 9));
            assert(bytes@.subrange(0, 10) =~= bytes@.subrange(0, 9) + bytes@.subrange(9, 10));
            assert(bytes@.subrange(0, 11) =~= bytes@.subrange(0, 10) + bytes@.subrange(10, 11));
            assert(bytes@.subrange(0, 12) =~= bytes@.subrange(0, 11) + bytes@.subrange(11, 12));
            assert(bytes@.subrange(0, 16) =~= bytes@.subrange(0, 12) + bytes@.subrange(12, 16));
            assert(bytes@.subrange(0, 16) =~= bytes@);
            assert(bytes@ == r.spec_bytes());
        }
        r
    }

    #[verifier::spinoff_prover]
    fn to_bytes(&self) -> (r: Vec<u8>) {
        let mut out: Vec<u8> = Vec::new();
        append_bytes(&mut out, &le_bytes_u64(self.size));
        out.push(self.alignment);
        out.push(self.socket);
        out.push(self.phys_nbio_map);
        out.push(self.interleaving);
        append_bytes(&mut out, &self._reserved_);
        proof {
            lemma_slink_region_bytes_pieces(*self);
        }
        out
    }
}

/// How the bytes of a SlinkRegion split up into its fields.
pub proof fn lemma_slink_region_bytes_pieces(x: SlinkRegion)
    ensures
        x.spec_bytes().len() == 16,
        x.spec_bytes().subrange(0, 8) == spec_u64_to_le_bytes(x.spec_size()),
        x.spec_bytes()[8] == x.spec_alignment(),
        x.spec_bytes()[9] == x.spec_socket(),
        x.spec_bytes()[10] == x.spec_phys_nbio_map(),
        x.spec_bytes()[11] == x.spec_interleaving(),
        x.spec_bytes().subrange(12, 16) == x.spec__reserved_()@,
{
    lemma_auto_spec_u16_to_from_le_bytes();
    lemma_auto_spec_u32_to_from_le_bytes();
    lemma_auto_spec_u64_to_from_le_bytes();
    assert(x.spec_bytes().subrange(0, 8) == spec_u64_to_le_bytes(x.size));
    assert(x.spec_bytes().subrange(12, 16) == x._reserved_@);
}

/// Two values of SlinkRegion with the same bytes are the same value.
#[verifier::spinoff_prover]
pub proof fn lemma_slink_region_bytes_injective(x: SlinkRegion, y: SlinkRegion)
    requires
        x.spec_bytes() == y.spec_bytes(),
    ensures
        x == y,
{
    lemma_slink_region_bytes_pieces(x);
    lemma_slink_region_bytes_pieces(y);
    lemma_auto_spec_u16_to_from_le_bytes();
    lemma_auto_spec_u32_to_from_le_bytes();
    lemma_auto_spec_u64_to_from_le_bytes();
    assert(spec_u64_from_le_bytes(spec_u64_to_le_bytes(x.size)) == spec_u64_from_le_bytes(spec_u64_to_le_bytes(y.size)));
    assert(x.alignment == y.alignment);
    assert(x.socket == y.socket);
    assert(x.phys_nbio_map == y.phys_nbio_map);
    assert(x.interleaving == y.interleaving);
    assert(x._reserved_@ == x.spec_bytes().subrange(12, 16));
    assert(x._reserved_ =~= y._reserved_);
}

impl Default for SlinkRegion {
    fn default() -> (r: Self)
        ensures
            r.spec_size() == 0,
            r.spec_alignment() == 0,
            r.spec_socket() == 0,
            r.spec_phys_nbio_map() == 0,
            r.spec_interleaving() == 0,
            r.spec__reserved_() == [0u8, 0u8, 0u8, 0u8],
    {
        SlinkRegion { size: 0, alignment: 0, socket: 0, phys_nbio_map: 0, interleaving: 0, _reserved_: [0; 4] }
    }
}

impl SlinkRegion {
    /// The default region, but on SOCKET.
    pub fn dummy(socket: u8) -> (r: SlinkRegion)
        ensures
            r.spec_size() == 0,
            r.spec_alignment() == 0,
            r.spec_socket() == socket,
            r.spec_phys_nbio_map() == 0,
            r.spec_interleaving() == 0,
            r.spec__reserved_() == [0u8, 0u8, 0u8, 0u8],
    {
        let mut r = Self::default();
        r.socket = socket;
        r
    }
}

impl SlinkConfig {
    pub fn new(regions: [SlinkRegion; 4]) -> (r: Self)
        ensures
            r.spec_regions() == regions,
    {
        Self { regions }
    }
}

/// The SLink configuration (Rome only; mostly all zeros).
#[allow(non_camel_case_types)]
#[derive(Debug, Clone, Copy)]
pub struct SlinkConfig {
    pub regions: [SlinkRegion; 4],
}

impl SlinkConfig {
    pub closed spec fn spec_regions(self) -> [SlinkRegion; 4] {
        self.regions
    }

}

impl SlinkConfig {
    /// The bytes that store this value on disk.
    pub closed spec fn spec_bytes(self) -> Seq<u8> {
        self.regions[0].spec_to_bytes() + self.regions[1].spec_to_bytes() + self.regions[2].spec_to_bytes() + self.regions[3].spec_to_bytes()
    }
}

impl ByteLayout for SlinkConfig {
    open spec fn spec_size() -> nat {
        64
    }

    open spec fn spec_to_bytes(self) -> Seq<u8> {
        self.spec_bytes()
    }

    fn size() -> (r: usize) {
        64
    }

    #[verifier::spinoff_prover]
    #[verifier::rlimit(60)]
    fn from_bytes(bytes: &[u8]) -> (r: Self) {
        let regions: [SlinkRegion; 4] = [SlinkRegion::from_bytes(slice_subrange(bytes, 0, 16)), SlinkRegion::from_bytes(slice_subrange(bytes, 16, 32)), SlinkRegion::from_bytes(slice_subrange(bytes, 32, 48)), SlinkRegion::from_bytes(slice_subrange(bytes, 48, 64))];
        let r = SlinkConfig { regions };
        proof {
            lemma_auto_spec_u16_to_from_le_bytes();
            lemma_auto_spec_u32_to_from_le_bytes();
            lemma_auto_spec_u64_to_from_le_bytes();
            lemma_slink_config_bytes_pieces(r);
            assert(bytes@.subrange(0, 16) == regions[0].spec_to_bytes());
            assert(bytes@.subrange(16, 32) == regions[1].spec_to_bytes());
            assert(bytes@.subrange(32, 48) == regions[2].spec_to_bytes());
            assert(bytes@.subrange(48, 64) == regions[3].spec_to_bytes());
            assert(bytes@.subrange(0, 64) =~= bytes@);
            assert(bytes@ == r.spec_bytes());
        }
        r
    }

    #[verifier::spinoff_prover]
    #[verifier::rlimit(60)]
    fn to_bytes(&self) -> (r: Vec<u8>) {
        let mut out: Vec<u8> = Vec::new();
        let part = self.regions[0].to_bytes();
        append_bytes(&mut out, part.as_slice());
        let part = self.regions[1].to_bytes();
        append_bytes(&mut out, part.as_slice());
        let part = self.regions[2].to_bytes();
        append_bytes(&mut out, part.as_slice());
        let part = self.regions[3].to_bytes();
        append_bytes(&mut out, part.as_slice());
        proof {
            lemma_slink_config_bytes_pieces(*self);
        }
        out
    }
}

/// How the bytes of a SlinkConfig split up into its fields.
pub proof fn lemma_slink_config_bytes_pieces(x: SlinkConfig)
    ensures
        x.spec_bytes().len() == 64,
        x.spec_bytes().subrange(0, 64) == x.spec_regions()[0].spec_to_bytes() + x.spec_regions()[1].spec_to_bytes() + x.spec_regions()[2].spec_to_bytes() + x.spec_regions()[3].spec_to_bytes(),
{
    lemma_auto_spec_u16_to_from_le_bytes();
    lemma_auto_spec_u32_to_from_le_bytes();
    lemma_auto_spec_u64_to_from_le_bytes();
    lemma_slink_region_bytes_pieces(x.regions[0]);
    lemma_slink_region_bytes_pieces(x.regions[1]);
    lemma_slink_region_bytes_pieces(x.regions[2]);
    lemma_slink_region_bytes_pieces(x.regions[3]);
    assert(x.spec_bytes().subrange(0, 64) == x.regions[0].spec_to_bytes() + x.regions[1].spec_to_bytes() + x.regions[2].spec_to_bytes() + x.regions[3].spec_to_bytes());
}

/// Two values of SlinkConfig with the same bytes are the same value.
#[verifier::spinoff_prover]
#[verifier::rlimit(60)]
pub proof fn lemma_slink_config_bytes_injective(x: SlinkConfig, y: SlinkConfig)
    requires
        x.spec_bytes() == y.spec_bytes(),
    ensures
        x == y,
{
    lemma_slink_config_bytes_pieces(x);
    lemma_slink_config_bytes_pieces(y);
    lemma_auto_spec_u16_to_from_le_bytes();
    lemma_auto_spec_u32_to_from_le_bytes();
    lemma_auto_spec_u64_to_from_le_bytes();
    lemma_slink_region_bytes_pieces(x.regions[0]);
    lemma_slink_region_bytes_pieces(y.regions[0]);
    assert(x.spec_bytes().subrange(0, 16) == x.regions[0].spec_to_bytes());
    assert(y.spec_bytes().subrange(0, 16) == y.regions[0].spec_to_bytes());
    lemma_slink_region_bytes_injective(x.regions[0], y.regions[0]);
    lemma_slink_region_bytes_pieces(x.regions[1]);
    lemma_slink_region_bytes_pieces(y.regions[1]);
    assert(x.spec_bytes().subrange(16, 32) == x.regions[1].spec_to_bytes());
    assert(y.spec_bytes().subrange(16, 32) == y.regions[1].spec_to_bytes());
    lemma_slink_region_bytes_injective(x.regions[1], y.regions[1]);
    lemma_slink_region_bytes_pieces(x.regions[2]);
    lemma_slink_region_bytes_pieces(y.regions[2]);
    assert(x.spec_bytes().subrange(32, 48) == x.regions[2].spec_to_bytes());
    assert(y.spec_bytes().subrange(32, 48) == y.regions[2].spec_to_bytes());
    lemma_slink_region_bytes_injective(x.regions[2], y.regions[2]);
    lemma_slink_region_bytes_pieces(x.regions[3]);
    lemma_slink_region_bytes_pieces(y.regions[3]);
    assert(x.spec_bytes().subrange(48, 64) == x.regions[3].spec_to_bytes());
    assert(y.spec_bytes().subrange(48, 64) == y.regions[3].spec_to_bytes());
    lemma_slink_region_bytes_injective(x.regions[3], y.regions[3]);
    assert(x.regions =~= y.regions);
}

impl EntryCompatible for SlinkConfig {
    fn is_entry_compatible(entry_id: EntryId, _prefix: &[u8]) -> (r: bool)
        ensures
            r == (entry_id == EntryId::Df(DfEntryId::SlinkConfig)),
    {
        matches!(entry_id, EntryId::Df(DfEntryId::SlinkConfig))
    }
}

impl HeaderWithTail for SlinkConfig {
    type TailArrayItemType<'de> = ();
}

} // verus!
