use crate::le::{append_bytes, le_bytes_u16, lemma_auto_spec_u16_to_from_le_bytes, lemma_auto_spec_u32_to_from_le_bytes, lemma_auto_spec_u64_to_from_le_bytes, spec_u16_from_le_bytes, spec_u16_to_le_bytes, u16_from_le_bytes};
use crate::ondisk::collection::{take_header_from_collection, ByteLayout, ElementAsBytes, SequenceElementAsBytes, SequenceElementFromBytes};
use crate::ondisk::compat::EntryCompatible;
use crate::ondisk::ids::{EntryId, MemoryEntryId};
use crate::types::{Error, Result};
use vstd::prelude::*;
use vstd::slice::slice_subrange;

verus! {

/// The end of a platform tuning entry.
#[allow(non_camel_case_types)]
#[derive(Debug, Clone, Copy, PartialEq, Eq, Structural)]
pub struct Terminator {
    pub(crate) type_: u16,
}

impl Terminator {
    pub closed spec fn spec_type_(self) -> u16 {
        self.type_
    }

    pub fn type_(&self) -> (r: Result<u16>)
        ensures
            r == Ok::<u16, Error>(self.spec_type_()),
    {
        Ok(self.type_)
    }

    pub fn set_type_(&mut self, value: u16)
        ensures
            final(self).spec_type_() == value,
    {
        self.type_ = value;
    }

}

impl Terminator {
    /// The bytes that store this value on disk.
    pub closed spec fn spec_bytes(self) -> Seq<u8> {
        spec_u16_to_le_bytes(self.type_)
    }
}

impl ByteLayout for Terminator {
    open spec fn spec_size() -> nat {
        2
    }

    open spec fn spec_to_bytes(self) -> Seq<u8> {
        self.spec_bytes()
    }

    fn size() -> (r: usize) {
        2
    }

    #[verifier::spinoff_prover]
    fn from_bytes(bytes: &[u8]) -> (r: Self) {
        let type_: u16 = u16_from_le_bytes(slice_subrange(bytes, 0, 2));
        let r = Terminator { type_ };
        proof {
            lemma_auto_spec_u16_to_from_le_bytes();
            lemma_auto_spec_u32_to_from_le_bytes();
            lemma_auto_spec_u64_to_from_le_bytes();
            lemma_terminator_bytes_pieces(r);
            assert(bytes@.subrange(0, 2) == spec_u16_to_le_bytes(type_));
            assert(bytes@.subrange(0, 2) =~= bytes@);
            assert(bytes@ == r.spec_bytes());
        }
        r
    }

    #[verifier::spinoff_prover]
    fn to_bytes(&self) -> (r: Vec<u8>) {
        let mut out: Vec<u8> = Vec::new();
        append_bytes(&mut out, &le_bytes_u16(self.type_));
        proof {
            lemma_terminator_bytes_pieces(*self);
        }
        out
    }
}

/// How the bytes of a Terminator split up into its fields.
pub proof fn lemma_terminator_bytes_pieces(x: Terminator)
    ensures
        x.spec_bytes().len() == 2,
        x.spec_bytes().subrange(0, 2) == spec_u16_to_le_bytes(x.spec_type_()),
{
    lemma_auto_spec_u16_to_from_le_bytes();
    lemma_auto_spec_u32_to_from_le_bytes();
    lemma_auto_spec_u64_to_from_le_bytes();
    assert(x.spec_bytes().subrange(0, 2) == spec_u16_to_le_bytes(x.type_));
}

/// Two values of Terminator with the same bytes are the same value.
#[verifier::spinoff_prover]
pub proof fn lemma_terminator_bytes_injective(x: Terminator, y: Terminator)
    requires
        x.spec_bytes() == y.spec_bytes(),
    ensures
        x == y,
{
    lemma_terminator_bytes_pieces(x);
    lemma_terminator_bytes_pieces(y);
    lemma_auto_spec_u16_to_from_le_bytes();
    lemma_auto_spec_u32_to_from_le_bytes();
    lemma_auto_spec_u64_to_from_le_bytes();
    assert(spec_u16_from_le_bytes(spec_u16_to_le_bytes(x.type_)) == spec_u16_from_le_bytes(spec_u16_to_le_bytes(y.type_)));
}

impl Terminator {
    /// The type tag of the terminator.
    pub const TAG: u16 = 0xfeef;
}

impl Default for Terminator {
    fn default() -> (r: Self)
        ensures
            r.spec_type_() == 0xfeef,
    {
        Terminator { type_: 0xfeef }
    }
}

impl Terminator {
    pub fn new() -> (r: Self)
        ensures
            r.spec_type_() == 0xfeef,
    {
        Self::default()
    }
}

/// The little-endian 16-bit type that PREFIX starts with.
pub open spec fn spec_tuning_type(prefix: Seq<u8>) -> u16 {
    (prefix[0] + prefix[1] * 256) as u16
}

/// The type and the size of the tuning element that PREFIX starts with: a 16-bit
/// little-endian type, then (except for the terminator, which is two bytes) one byte
/// that is the size of what follows these three bytes, plus one.
pub open spec fn spec_tagged_tuning_skip_step(entry_id: EntryId, prefix: Seq<u8>) -> Option<(u16, usize)> {
    if entry_id == EntryId::Memory(MemoryEntryId::PlatformTuning) && prefix.len() >= 2 {
        if spec_tuning_type(prefix) == 0xfeef {
            Some((0xfeefu16, 2usize))
        } else if prefix.len() >= 3 {
            Some((spec_tuning_type(prefix), (prefix[2] + 2) as usize))
        } else {
            None
        }
    } else {
        None
    }
}

proof fn lemma_le_u16_of_bytes(lo: u8, hi: u8)
    by (bit_vector)
    ensures
        ((hi as u16) << 8u16) | (lo as u16) == lo + hi * 256,
{
}

fn tagged_tuning_skip_step(entry_id: EntryId, prefix: &[u8]) -> (r: Option<(u16, usize)>)
    ensures
        r == spec_tagged_tuning_skip_step(entry_id, prefix@),
{
    match entry_id {
        EntryId::Memory(MemoryEntryId::PlatformTuning) => {
            if prefix.len() >= 2 {
                let type_lo = prefix[0];
                let type_hi = prefix[1];
                proof {
                    lemma_le_u16_of_bytes(type_lo, type_hi);
                }
                let type_ = ((type_hi as u16) << 8) | (type_lo as u16);
                if type_ == 0xfeef {
                    Some((type_, 2))
                } else if prefix.len() >= 3 {
                    let size = (prefix[2] as usize) + 2;
                    Some((type_, size))
                } else {
                    None
                }
            } else {
                None
            }
        },
        _ => None,
    }
}

/// Like spec_tagged_tuning_skip_step, but a zero byte (with which entries are padded) is
/// skipped on its own, as type 0.
pub open spec fn spec_tuning_element_skip_step(entry_id: EntryId, prefix: Seq<u8>) -> Option<(u16, usize)> {
    if entry_id == EntryId::Memory(MemoryEntryId::PlatformTuning) && prefix.len() > 0 && prefix[0] == 0 {
        Some((0u16, 1usize))
    } else {
        spec_tagged_tuning_skip_step(entry_id, prefix)
    }
}

fn tuning_element_skip_step(entry_id: EntryId, prefix: &[u8]) -> (r: Option<(u16, usize)>)
    ensures
        r == spec_tuning_element_skip_step(entry_id, prefix@),
{
    match entry_id {
        EntryId::Memory(MemoryEntryId::PlatformTuning) => {
            if prefix.len() > 0 && prefix[0] == 0 {
                return Some((0, 1));
            }
            tagged_tuning_skip_step(entry_id, prefix)
        },
        _ => None,
    }
}

impl EntryCompatible for Terminator {
    fn is_entry_compatible(entry_id: EntryId, prefix: &[u8]) -> (r: bool)
        ensures
            r == (entry_id == EntryId::Memory(MemoryEntryId::PlatformTuning) && prefix@.len() >= 2
                && prefix@[0] == 0xef && prefix@[1] == 0xfe),
    {
        match entry_id {
            EntryId::Memory(MemoryEntryId::PlatformTuning) => prefix.len() >= 2 && prefix[0] == 0xef && prefix[1] == 0xfe,
            _ => false,
        }
    }

    fn skip_step(entry_id: EntryId, prefix: &[u8]) -> (r: Option<(u16, usize)>)
        ensures
            r == spec_tagged_tuning_skip_step(entry_id, prefix@),
    {
        tagged_tuning_skip_step(entry_id, prefix)
    }
}

/// One platform tuning element, as read from an entry: the terminator, or the raw bytes of
/// an element of an unknown kind (or of padding).
#[derive(Debug, Clone, Copy)]
pub enum ElementRef<'a> {
    Unknown(&'a [u8]),
    Terminator(Terminator),
}

/// One platform tuning element, as read from an entry for changing: the terminator, or the
/// raw bytes of an element of an unknown kind (or of padding).
#[derive(Debug)]
pub enum MutElementRef<'a> {
    Unknown(&'a mut [u8]),
    Terminator(&'a mut Terminator),
}

impl<'a> ElementRef<'a> {
    /// The bytes of this element.
    pub open spec fn spec_bytes(self) -> Seq<u8> {
        match self {
            ElementRef::Unknown(b) => b@,
            ElementRef::Terminator(x) => x.spec_to_bytes(),
        }
    }
}

impl<'a> EntryCompatible for ElementRef<'a> {
    /// Any chunk of a platform tuning entry (even an empty one).
    fn is_entry_compatible(entry_id: EntryId, _prefix: &[u8]) -> (r: bool)
        ensures
            r == (entry_id == EntryId::Memory(MemoryEntryId::PlatformTuning)),
    {
        matches!(entry_id, EntryId::Memory(MemoryEntryId::PlatformTuning))
    }

    fn skip_step(entry_id: EntryId, prefix: &[u8]) -> (r: Option<(u16, usize)>)
        ensures
            r == spec_tuning_element_skip_step(entry_id, prefix@),
    {
        tuning_element_skip_step(entry_id, prefix)
    }
}

impl<'a> EntryCompatible for MutElementRef<'a> {
    /// Any chunk of a platform tuning entry (even an empty one).
    fn is_entry_compatible(entry_id: EntryId, _prefix: &[u8]) -> (r: bool)
        ensures
            r == (entry_id == EntryId::Memory(MemoryEntryId::PlatformTuning)),
    {
        matches!(entry_id, EntryId::Memory(MemoryEntryId::PlatformTuning))
    }

    fn skip_step(entry_id: EntryId, prefix: &[u8]) -> (r: Option<(u16, usize)>)
        ensures
            r == spec_tuning_element_skip_step(entry_id, prefix@),
    {
        tuning_element_skip_step(entry_id, prefix)
    }
}

impl<'a> From<&'a Terminator> for ElementRef<'a> {
    fn from(from: &'a Terminator) -> (r: Self) {
        ElementRef::Terminator(*from)
    }
}

impl<'a> vstd::std_specs::convert::FromSpecImpl<&'a Terminator> for ElementRef<'a> {
    open spec fn obeys_from_spec() -> bool {
        true
    }

    open spec fn from_spec(from: &'a Terminator) -> Self {
        ElementRef::Terminator(*from)
    }
}

impl<'a> From<&'a mut Terminator> for MutElementRef<'a> {
    fn from(from: &'a mut Terminator) -> (r: Self)
        ensures
            r matches MutElementRef::Terminator(x) && *x == *old(from) && *final(x) == *final(from),
    {
        MutElementRef::Terminator(from)
    }
}

impl<'a> vstd::std_specs::convert::FromSpecImpl<&'a mut Terminator> for MutElementRef<'a> {
    /// The element holds the very reference it was made from, which a contract cannot
    /// compare for equality; `from` states instead what the element points to.
    open spec fn obeys_from_spec() -> bool {
        false
    }

    open spec fn from_spec(from: &'a mut Terminator) -> Self {
        MutElementRef::Terminator(from)
    }
}

impl<'a> SequenceElementFromBytes<'a> for ElementRef<'a> {
    /// An element of an unknown kind must fit in WORLD.
    open spec fn spec_parse_defined(entry_id: EntryId, world: Seq<u8>) -> bool {
        match spec_tuning_element_skip_step(entry_id, world) {
            Some((t, s)) => (t == 0xfeef && s == 2) || s <= world.len(),
            None => true,
        }
    }

    /// Parses the element that (*WORLD) starts with; the terminator must fit in (*WORLD),
    /// and if it does not, the result is an error and (*WORLD) is left empty.
    fn checked_from_bytes(entry_id: EntryId, world: &mut &'a [u8]) -> (r: Result<Self>)
        ensures
            match spec_tuning_element_skip_step(entry_id, old(world)@) {
                None => r == Err::<ElementRef<'a>, Error>(Error::EntryTypeMismatch) && final(world)@ == old(world)@,
                Some((t, s)) => if t == 0xfeef && s == 2 {
                    if s <= old(world)@.len() {
                        &&& r matches Ok(ElementRef::Terminator(x)) && x.spec_to_bytes() == old(world)@.subrange(0, 2)
                        &&& final(world)@ == old(world)@.subrange(2, old(world)@.len() as int)
                    } else {
                        r == Err::<ElementRef<'a>, Error>(Error::EntryTypeMismatch) && final(world)@.len() == 0
                    }
                } else {
                    &&& r matches Ok(ElementRef::Unknown(b)) && b@ == old(world)@.subrange(0, s as int)
                    &&& final(world)@ == old(world)@.subrange(s as int, old(world)@.len() as int)
                },
            },
    {
        let step = tuning_element_skip_step(entry_id, *world);
        match step {
            None => Err(Error::EntryTypeMismatch),
            Some((type_, skip_step)) => {
                let mut xbuf: &'a [u8] = *world;
                let (_, empty) = xbuf.split_at(xbuf.len());
                *world = empty;
                let result: ElementRef<'a> = if skip_step == 2 && type_ == 0xfeef {
                    match take_header_from_collection::<Terminator>(&mut xbuf) {
                        Some(x) => ElementRef::Terminator(x),
                        None => {
                            return Err(Error::EntryTypeMismatch);
                        },
                    }
                } else {
                    let (raw_value, b) = xbuf.split_at(skip_step);
                    xbuf = b;
                    ElementRef::Unknown(raw_value)
                };
                *world = xbuf;
                Ok(result)
            },
        }
    }
}

impl ElementAsBytes for Terminator {
    fn element_as_bytes(&self) -> (r: Vec<u8>)
        ensures
            r@ == self.spec_to_bytes(),
    {
        self.to_bytes()
    }
}

impl SequenceElementAsBytes for Terminator {
    /// The bytes of the terminator, if they are those of the terminator type (0xFEEF,
    /// little-endian) and the entry is a platform tuning entry.
    fn checked_as_bytes(&self, entry_id: EntryId) -> (r: Option<Vec<u8>>)
        ensures
            r is Some <==> (entry_id == EntryId::Memory(MemoryEntryId::PlatformTuning) && self.spec_to_bytes()[0] == 0xef
                && self.spec_to_bytes()[1] == 0xfe),
            r matches Some(b) ==> b@ == self.spec_to_bytes(),
    {
        let blob = self.to_bytes();
        proof {
            lemma_terminator_bytes_pieces(*self);
        }
        if Self::is_entry_compatible(entry_id, blob.as_slice()) {
            Some(blob)
        } else {
            None
        }
    }
}

} // verus!
