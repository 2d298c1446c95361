use crate::bits::{field_u8, field_u16, field_u32, field_u64, lemma_masked_bound_u64, lemma_shift_table_u8, lemma_shift_table_u16, lemma_shift_table_u32, lemma_shift_table_u64, lemma_with_field_other_u8, lemma_with_field_other_u16, lemma_with_field_other_u32, lemma_with_field_other_u64, lemma_with_field_same_u8, lemma_with_field_same_u16, lemma_with_field_same_u32, lemma_with_field_same_u64, spec_field_u8, spec_field_u16, spec_field_u32, spec_field_u64, spec_with_field_u8, spec_with_field_u16, spec_with_field_u32, spec_with_field_u64, with_field_u8, with_field_u16, with_field_u32, with_field_u64};
use crate::le::{lemma_u16_le_bytes, append_bytes, le_bytes_u16, le_bytes_u32, le_bytes_u64, lemma_auto_spec_u16_to_from_le_bytes, lemma_auto_spec_u32_to_from_le_bytes, lemma_auto_spec_u64_to_from_le_bytes, spec_u16_from_le_bytes, spec_u16_to_le_bytes, u16_from_le_bytes};
use crate::ondisk::collection::{ByteLayout, HeaderWithTail};
use crate::ondisk::compat::EntryCompatible;
use crate::ondisk::ids::{EntryId, PspEntryId};
use crate::struct_accessors::{spec_bool_result_of_raw, spec_raw_of_bool};
use crate::types::{Error, Result};
use crate::ondisk::memory::{lemma_gpio_bytes_injective, lemma_gpio_bytes_pieces, Gpio};
use vstd::prelude::*;
use vstd::slice::slice_subrange;

verus! {

/// Maps a board id to a board instance (bit 7 of the mask: feature-controlled).
#[allow(non_camel_case_types)]
#[derive(Debug, Clone, Copy, PartialEq, Eq, Structural)]
pub struct IdApcbMapping {
    pub(crate) id_and_feature_mask: u8,
    pub(crate) id_and_feature_value: u8,
    pub(crate) board_instance_index: u8,
}

impl IdApcbMapping {
    pub closed spec fn spec_id_and_feature_mask(self) -> u8 {
        self.id_and_feature_mask
    }

    pub closed spec fn spec_id_and_feature_value(self) -> u8 {
        self.id_and_feature_value
    }

    pub closed spec fn spec_board_instance_index(self) -> u8 {
        self.board_instance_index
    }

    pub fn id_and_feature_mask(&self) -> (r: Result<u8>)
        ensures
            r == Ok::<u8, Error>(self.spec_id_and_feature_mask()),
    {
        Ok(self.id_and_feature_mask)
    }

    pub fn set_id_and_feature_mask(&mut self, value: u8)
        ensures
            final(self).spec_id_and_feature_mask() == value,
            final(self).spec_id_and_feature_value() == old(self).spec_id_and_feature_value(),
            final(self).spec_board_instance_index() == old(self).spec_board_instance_index(),
    {
        self.id_and_feature_mask = value;
    }

    pub fn id_and_feature_value(&self) -> (r: Result<u8>)
        ensures
            r == Ok::<u8, Error>(self.spec_id_and_feature_value()),
    {
        Ok(self.id_and_feature_value)
    }

    pub fn set_id_and_feature_value(&mut self, value: u8)
        ensures
            final(self).spec_id_and_feature_value() == value,
            final(self).spec_id_and_feature_mask() == old(self).spec_id_and_feature_mask(),
            final(self).spec_board_instance_index() == old(self).spec_board_instance_index(),
    {
        self.id_and_feature_value = value;
    }

    pub fn board_instance_index(&self) -> (r: Result<u8>)
        ensures
            r == Ok::<u8, Error>(self.spec_board_instance_index()),
    {
        Ok(self.board_instance_index)
    }

    pub fn set_board_instance_index(&mut self, value: u8)
        ensures
            final(self).spec_board_instance_index() == value,
            final(self).spec_id_and_feature_mask() == old(self).spec_id_and_feature_mask(),
            final(self).spec_id_and_feature_value() == old(self).spec_id_and_feature_value(),
    {
        self.board_instance_index = value;
    }

}

impl IdApcbMapping {
    /// The bytes that store this value on disk.
    pub closed spec fn spec_bytes(self) -> Seq<u8> {
        seq![self.id_and_feature_mask]
            + seq![self.id_and_feature_value]
            + seq![self.board_instance_index]
    }
}

impl ByteLayout for IdApcbMapping {
    open spec fn spec_size() -> nat {
        3
    }

    open spec fn spec_to_bytes(self) -> Seq<u8> {
        self.spec_bytes()
    }

    fn size() -> (r: usize) {
        3
    }

    #[verifier::spinoff_prover]
    fn from_bytes(bytes: &[u8]) -> (r: Self) {
        let id_and_feature_mask: u8 = bytes[0];
        let id_and_feature_value: u8 = bytes[1];
        let board_instance_index: u8 = bytes[2];
        let r = IdApcbMapping { id_and_feature_mask, id_and_feature_value, board_instance_index };
        proof {
            lemma_auto_spec_u16_to_from_le_bytes();
            lemma_auto_spec_u32_to_from_le_bytes();
            lemma_auto_spec_u64_to_from_le_bytes();
            lemma_id_apcb_mapping_bytes_pieces(r);
            assert(bytes@.subrange(0, 2) =~= bytes@.subrange(0, 1) + bytes@.subrange(1, 2));
            assert(bytes@.subrange(0, 3) =~= bytes@.subrange(0, 2) + bytes@.subrange(2, 3));
            assert(bytes@.subrange(0, 3) =~= bytes@);
            assert(bytes@ == r.spec_bytes());
        }
        r
    }

    #[verifier::spinoff_prover]
    fn to_bytes(&self) -> (r: Vec<u8>) {
        let mut out: Vec<u8> = Vec::new();
        out.push(self.id_and_feature_mask);
        out.push(self.id_and_feature_value);
        out.push(self.board_instance_index);
        proof {
            lemma_id_apcb_mapping_bytes_pieces(*self);
        }
        out
    }
}

/// How the bytes of a IdApcbMapping split up into its fields.
pub proof fn lemma_id_apcb_mapping_bytes_pieces(x: IdApcbMapping)
    ensures
        x.spec_bytes().len() == 3,
        x.spec_bytes()[0] == x.spec_id_and_feature_mask(),
        x.spec_bytes()[1] == x.spec_id_and_feature_value(),
        x.spec_bytes()[2] == x.spec_board_instance_index(),
{
    lemma_auto_spec_u16_to_from_le_bytes();
    lemma_auto_spec_u32_to_from_le_bytes();
    lemma_auto_spec_u64_to_from_le_bytes();
}

/// Two values of IdApcbMapping with the same bytes are the same value.
#[verifier::spinoff_prover]
pub proof fn lemma_id_apcb_mapping_bytes_injective(x: IdApcbMapping, y: IdApcbMapping)
    requires
        x.spec_bytes() == y.spec_bytes(),
    ensures
        x == y,
{
    lemma_id_apcb_mapping_bytes_pieces(x);
    lemma_id_apcb_mapping_bytes_pieces(y);
    lemma_auto_spec_u16_to_from_le_bytes();
    lemma_auto_spec_u32_to_from_le_bytes();
    lemma_auto_spec_u64_to_from_le_bytes();
    assert(x.id_and_feature_mask == y.id_and_feature_mask);
    assert(x.id_and_feature_value == y.id_and_feature_value);
    assert(x.board_instance_index == y.board_instance_index);
}

impl Default for IdApcbMapping {
    fn default() -> (r: Self)
        ensures
            r.spec_id_and_feature_mask() == 0,
            r.spec_id_and_feature_value() == 0,
            r.spec_board_instance_index() == 0,
    {
        IdApcbMapping { id_and_feature_mask: 0, id_and_feature_value: 0, board_instance_index: 0 }
    }
}

impl IdApcbMapping {
    pub fn new(id_and_feature_mask: u8, id_and_feature_value: u8, board_instance_index: u8) -> (r: Self)
        ensures
            r.spec_id_and_feature_mask() == id_and_feature_mask,
            r.spec_id_and_feature_value() == id_and_feature_value,
            r.spec_board_instance_index() == board_instance_index,
    {
        Self { id_and_feature_mask, id_and_feature_value, board_instance_index }
    }

    /// The board instance mask with just the bit of the board instance index (0 to 15).
    pub fn board_instance_mask(&self) -> (r: Result<u16>)
        ensures
            self.spec_board_instance_index() <= 15 ==> r == Ok::<u16, Error>(1u16 << self.spec_board_instance_index()),
            self.spec_board_instance_index() > 15 ==> r == Err::<u16, Error>(Error::EntryTypeMismatch),
    {
        if self.board_instance_index <= 15 {
            Ok(1u16 << self.board_instance_index)
        } else {
            Err(Error::EntryTypeMismatch)
        }
    }
}

/// Maps a board id and revision to a board instance.
#[allow(non_camel_case_types)]
#[derive(Debug, Clone, Copy, PartialEq, Eq, Structural)]
pub struct IdRevApcbMapping {
    pub(crate) id_and_rev_and_feature_mask: u8,
    pub(crate) id_and_feature_value: u8,
    pub(crate) rev_and_feature_value: u8,
    pub(crate) board_instance_index: u8,
}

impl IdRevApcbMapping {
    pub closed spec fn spec_id_and_rev_and_feature_mask(self) -> u8 {
        self.id_and_rev_and_feature_mask
    }

    pub closed spec fn spec_id_and_feature_value(self) -> u8 {
        self.id_and_feature_value
    }

    pub closed spec fn spec_rev_and_feature_value(self) -> u8 {
        self.rev_and_feature_value
    }

    pub closed spec fn spec_board_instance_index(self) -> u8 {
        self.board_instance_index
    }

    pub fn id_and_rev_and_feature_mask(&self) -> (r: Result<u8>)
        ensures
            r == Ok::<u8, Error>(self.spec_id_and_rev_and_feature_mask()),
    {
        Ok(self.id_and_rev_and_feature_mask)
    }

    pub fn set_id_and_rev_and_feature_mask(&mut self, value: u8)
        ensures
            final(self).spec_id_and_rev_and_feature_mask() == value,
            final(self).spec_id_and_feature_value() == old(self).spec_id_and_feature_value(),
            final(self).spec_rev_and_feature_value() == old(self).spec_rev_and_feature_value(),
            final(self).spec_board_instance_index() == old(self).spec_board_instance_index(),
    {
        self.id_and_rev_and_feature_mask = value;
    }

    pub fn id_and_feature_value(&self) -> (r: Result<u8>)
        ensures
            r == Ok::<u8, Error>(self.spec_id_and_feature_value()),
    {
        Ok(self.id_and_feature_value)
    }

    pub fn set_id_and_feature_value(&mut self, value: u8)
        ensures
            final(self).spec_id_and_feature_value() == value,
            final(self).spec_id_and_rev_and_feature_mask() == old(self).spec_id_and_rev_and_feature_mask(),
            final(self).spec_rev_and_feature_value() == old(self).spec_rev_and_feature_value(),
            final(self).spec_board_instance_index() == old(self).spec_board_instance_index(),
    {
        self.id_and_feature_value = value;
    }

    pub fn rev_and_feature_value(&self) -> (r: Result<RevAndFeatureValue>)
        ensures
            r == match RevAndFeatureValue::spec_from_u64(self.spec_rev_and_feature_value() as u64) {
                Some(e) => Ok::<RevAndFeatureValue, Error>(e),
                None => Err(Error::EntryTypeMismatch),
            },
    {
        match RevAndFeatureValue::from_u64(self.rev_and_feature_value as u64) {
            Some(e) => Ok(e),
            None => Err(Error::EntryTypeMismatch),
        }
    }

    pub fn set_rev_and_feature_value(&mut self, value: RevAndFeatureValue)
        requires
            value.spec_has_number(),
        ensures
            final(self).spec_rev_and_feature_value() == value.spec_to_u64() as u8,
            final(self).spec_id_and_rev_and_feature_mask() == old(self).spec_id_and_rev_and_feature_mask(),
            final(self).spec_id_and_feature_value() == old(self).spec_id_and_feature_value(),
            final(self).spec_board_instance_index() == old(self).spec_board_instance_index(),
    {
        self.rev_and_feature_value = value.to_u64().unwrap() as u8;
    }

    pub fn board_instance_index(&self) -> (r: Result<u8>)
        ensures
            r == Ok::<u8, Error>(self.spec_board_instance_index()),
    {
        Ok(self.board_instance_index)
    }

    pub fn set_board_instance_index(&mut self, value: u8)
        ensures
            final(self).spec_board_instance_index() == value,
            final(self).spec_id_and_rev_and_feature_mask() == old(self).spec_id_and_rev_and_feature_mask(),
            final(self).spec_id_and_feature_value() == old(self).spec_id_and_feature_value(),
            final(self).spec_rev_and_feature_value() == old(self).spec_rev_and_feature_value(),
    {
        self.board_instance_index = value;
    }

}

impl IdRevApcbMapping {
    /// The bytes that store this value on disk.
    pub closed spec fn spec_bytes(self) -> Seq<u8> {
        seq![self.id_and_rev_and_feature_mask]
            + seq![self.id_and_feature_value]
            + seq![self.rev_and_feature_value]
            + seq![self.board_instance_index]
    }
}

impl ByteLayout for IdRevApcbMapping {
    open spec fn spec_size() -> nat {
        4
    }

    open spec fn spec_to_bytes(self) -> Seq<u8> {
        self.spec_bytes()
    }

    fn size() -> (r: usize) {
        4
    }

    #[verifier::spinoff_prover]
    fn from_bytes(bytes: &[u8]) -> (r: Self) {
        let id_and_rev_and_feature_mask: u8 = bytes[0];
        let id_and_feature_value: u8 = bytes[1];
        let rev_and_feature_value: u8 = bytes[2];
        let board_instance_index: u8 = bytes[3];
        let r = IdRevApcbMapping { id_and_rev_and_feature_mask, id_and_feature_value, rev_and_feature_value, board_instance_index };
        proof {
            lemma_auto_spec_u16_to_from_le_bytes();
            lemma_auto_spec_u32_to_from_le_bytes();
            lemma_auto_spec_u64_to_from_le_bytes();
            lemma_id_rev_apcb_mapping_bytes_pieces(r);
            assert(bytes@.subrange(0, 2) =~= bytes@.subrange(0, 1) + bytes@.subrange(1, 2));
            assert(bytes@.subrange(0, 3) =~= bytes@.subrange(0, 2) + bytes@.subrange(2, 3));
            assert(bytes@.subrange(0, 4) =~= bytes@.subrange(0, 3) + bytes@.subrange(3, 4));
            assert(bytes@.subrange(0, 4) =~= bytes@);
            assert(bytes@ == r.spec_bytes());
        }
        r
    }

    #[verifier::spinoff_prover]
    fn to_bytes(&self) -> (r: Vec<u8>) {
        let mut out: Vec<u8> = Vec::new();
        out.push(self.id_and_rev_and_feature_mask);
        out.push(self.id_and_feature_value);
        out.push(self.rev_and_feature_value);
        out.push(self.board_instance_index);
        proof {
            lemma_id_rev_apcb_mapping_bytes_pieces(*self);
        }
        out
    }
}

/// How the bytes of a IdRevApcbMapping split up into its fields.
pub proof fn lemma_id_rev_apcb_mapping_bytes_pieces(x: IdRevApcbMapping)
    ensures
        x.spec_bytes().len() == 4,
        x.spec_bytes()[0] == x.spec_id_and_rev_and_feature_mask(),
        x.spec_bytes()[1] == x.spec_id_and_feature_value(),
        x.spec_bytes()[2] == x.spec_rev_and_feature_value(),
        x.spec_bytes()[3] == x.spec_board_instance_index(),
{
    lemma_auto_spec_u16_to_from_le_bytes();
    lemma_auto_spec_u32_to_from_le_bytes();
    lemma_auto_spec_u64_to_from_le_bytes();
}

/// Two values of IdRevApcbMapping with the same bytes are the same value.
#[verifier::spinoff_prover]
pub proof fn lemma_id_rev_apcb_mapping_bytes_injective(x: IdRevApcbMapping, y: IdRevApcbMapping)
    requires
        x.spec_bytes() == y.spec_bytes(),
    ensures
        x == y,
{
    lemma_id_rev_apcb_mapping_bytes_pieces(x);
    lemma_id_rev_apcb_mapping_bytes_pieces(y);
    lemma_auto_spec_u16_to_from_le_bytes();
    lemma_auto_spec_u32_to_from_le_bytes();
    lemma_auto_spec_u64_to_from_le_bytes();
    assert(x.id_and_rev_and_feature_mask == y.id_and_rev_and_feature_mask);
    assert(x.id_and_feature_value == y.id_and_feature_value);
    assert(x.rev_and_feature_value == y.rev_and_feature_value);
    assert(x.board_instance_index == y.board_instance_index);
}

impl Default for IdRevApcbMapping {
    fn default() -> (r: Self)
        ensures
            r.spec_id_and_rev_and_feature_mask() == 0x80,
            r.spec_id_and_feature_value() == 0,
            r.spec_rev_and_feature_value() == 0,
            r.spec_board_instance_index() == 0,
    {
        IdRevApcbMapping { id_and_rev_and_feature_mask: 0x80, id_and_feature_value: 0, rev_and_feature_value: 0, board_instance_index: 0 }
    }
}

/// A revision (and feature) value, or "not applicable" (stored as 0xFF).
#[derive(Debug, Clone, Copy, PartialEq, Eq, Structural)]
pub enum RevAndFeatureValue {
    Value(u8),
    NotApplicable,
}

impl RevAndFeatureValue {
    /// The number that stands for this value.
    pub open spec fn spec_to_u64(self) -> u64 {
        match self {
            RevAndFeatureValue::Value(x) => x as u64,
            RevAndFeatureValue::NotApplicable => 0xff,
        }
    }

    /// Whether this value has a number: the value 0xFF would be read as "not applicable".
    pub open spec fn spec_has_number(self) -> bool {
        match self {
            RevAndFeatureValue::Value(x) => x != 0xff,
            RevAndFeatureValue::NotApplicable => true,
        }
    }

    /// The value that VALUE stands for, if any.
    pub open spec fn spec_from_u64(value: u64) -> Option<RevAndFeatureValue> {
        if value < 0x100 {
            if value == 0xff {
                Some(RevAndFeatureValue::NotApplicable)
            } else {
                Some(RevAndFeatureValue::Value(value as u8))
            }
        } else {
            None
        }
    }

    pub fn from_u64(value: u64) -> (r: Option<RevAndFeatureValue>)
        ensures
            r == RevAndFeatureValue::spec_from_u64(value),
    {
        if value < 0x100 {
            match value {
                0xff => Some(Self::NotApplicable),
                x => Some(Self::Value(x as u8)),
            }
        } else {
            None
        }
    }

    pub fn from_i64(value: i64) -> (r: Option<RevAndFeatureValue>)
        ensures
            r == (if value >= 0 { RevAndFeatureValue::spec_from_u64(value as u64) } else { None }),
    {
        if value >= 0 {
            Self::from_u64(value as u64)
        } else {
            None
        }
    }

    /// The number that stands for this value; `None` for a value of 0xFF.
    pub fn to_i64(&self) -> (r: Option<i64>)
        ensures
            r == (if self.spec_has_number() { Some(self.spec_to_u64() as i64) } else { None }),
    {
        match self {
            Self::Value(x) => {
                if *x == 0xff {
                    None
                } else {
                    Some(*x as i64)
                }
            },
            Self::NotApplicable => Some(0xff),
        }
    }

    /// The number that stands for this value; `None` for a value of 0xFF.
    pub fn to_u64(&self) -> (r: Option<u64>)
        ensures
            r == (if self.spec_has_number() { Some(self.spec_to_u64()) } else { None }),
    {
        match self.to_i64() {
            Some(x) => Some(x as u64),
            None => None,
        }
    }
}

/// A value with a number is read back from it, and a number that is read as a value is
/// that value's number.
pub proof fn lemma_rev_and_feature_value_roundtrip(x: RevAndFeatureValue, value: u64)
    ensures
        x.spec_has_number() ==> RevAndFeatureValue::spec_from_u64(x.spec_to_u64()) == Some(x),
        RevAndFeatureValue::spec_from_u64(value) matches Some(y) ==> y.spec_has_number() && y.spec_to_u64() == value,
{
}

impl IdRevApcbMapping {
    /// A mapping; fails for a revision value of 0xFF, which has no number of its own.
    pub fn new(
        id_and_rev_and_feature_mask: u8,
        id_and_feature_value: u8,
        rev_and_feature_value: RevAndFeatureValue,
        board_instance_index: u8,
    ) -> (r: Result<Self>)
        ensures
            r is Ok <==> rev_and_feature_value.spec_has_number(),
            r is Err ==> r == Err::<Self, Error>(Error::EntryTypeMismatch),
            r matches Ok(m) ==> {
                &&& m.spec_id_and_rev_and_feature_mask() == id_and_rev_and_feature_mask
                &&& m.spec_id_and_feature_value() == id_and_feature_value
                &&& m.spec_rev_and_feature_value() == rev_and_feature_value.spec_to_u64() as u8
                &&& m.spec_board_instance_index() == board_instance_index
            },
    {
        match rev_and_feature_value.to_u64() {
            Some(v) => Ok(
                Self {
                    id_and_rev_and_feature_mask,
                    id_and_feature_value,
                    rev_and_feature_value: v as u8,
                    board_instance_index,
                },
            ),
            None => Err(Error::EntryTypeMismatch),
        }
    }

    /// The board instance mask with just the bit of the board instance index (0 to 15).
    pub fn board_instance_mask(&self) -> (r: Result<u16>)
        ensures
            self.spec_board_instance_index() <= 15 ==> r == Ok::<u16, Error>(1u16 << self.spec_board_instance_index()),
            self.spec_board_instance_index() > 15 ==> r == Err::<u16, Error>(Error::EntryTypeMismatch),
    {
        if self.board_instance_index <= 15 {
            Ok(1u16 << self.board_instance_index)
        } else {
            Err(Error::EntryTypeMismatch)
        }
    }
}

/// A custom way of getting the board id.
#[allow(non_camel_case_types)]
#[derive(Debug, Clone, Copy, PartialEq, Eq, Structural)]
pub struct BoardIdGettingMethodCustom {
    pub(crate) access_method: u16,
    pub(crate) feature_mask: u16,
}

impl BoardIdGettingMethodCustom {
    pub closed spec fn spec_access_method(self) -> u16 {
        self.access_method
    }

    pub closed spec fn spec_feature_mask(self) -> u16 {
        self.feature_mask
    }

    pub fn access_method(&self) -> (r: Result<u16>)
        ensures
            r == Ok::<u16, Error>(self.spec_access_method()),
    {
        Ok(self.access_method)
    }

    pub fn set_access_method(&mut self, value: u16)
        ensures
            final(self).spec_access_method() == value,
            final(self).spec_feature_mask() == old(self).spec_feature_mask(),
    {
        self.access_method = value;
    }

    pub fn feature_mask(&self) -> (r: Result<u16>)
        ensures
            r == Ok::<u16, Error>(self.spec_feature_mask()),
    {
        Ok(self.feature_mask)
    }

    pub fn set_feature_mask(&mut self, value: u16)
        ensures
            final(self).spec_feature_mask() == value,
            final(self).spec_access_method() == old(self).spec_access_method(),
    {
        self.feature_mask = value;
    }

}

impl BoardIdGettingMethodCustom {
    /// The bytes that store this value on disk.
    pub closed spec fn spec_bytes(self) -> Seq<u8> {
        spec_u16_to_le_bytes(self.access_method)
            + spec_u16_to_le_bytes(self.feature_mask)
    }
}

impl ByteLayout for BoardIdGettingMethodCustom {
    open spec fn spec_size() -> nat {
        4
    }

    open spec fn spec_to_bytes(self) -> Seq<u8> {
        self.spec_bytes()
    }

    fn size() -> (r: usize) {
        4
    }

    #[verifier::spinoff_prover]
    fn from_bytes(bytes: &[u8]) -> (r: Self) {
        let access_method: u16 = u16_from_le_bytes(slice_subrange(bytes, 0, 2));
        let feature_mask: u16 = u16_from_le_bytes(slice_subrange(bytes, 2, 4));
        let r = BoardIdGettingMethodCustom { access_method, feature_mask };
        proof {
            lemma_auto_spec_u16_to_from_le_bytes();
            lemma_auto_spec_u32_to_from_le_bytes();
            lemma_auto_spec_u64_to_from_le_bytes();
            lemma_board_id_getting_method_custom_bytes_pieces(r);
            assert(bytes@.subrange(0, 2) == spec_u16_to_le_bytes(access_method));
            assert(bytes@.subrange(2, 4) == spec_u16_to_le_bytes(feature_mask));
            assert(bytes@.subrange(0, 4) =~= bytes@.subrange(0, 2) + bytes@.subrange(2, 4));
            assert(bytes@.subrange(0, 4) =~= bytes@);
            assert(bytes@ == r.spec_bytes());
        }
        r
    }

    #[verifier::spinoff_prover]
    fn to_bytes(&self) -> (r: Vec<u8>) {
        let mut out: Vec<u8> = Vec::new();
        append_bytes(&mut out, &le_bytes_u16(self.access_method));
        append_bytes(&mut out, &le_bytes_u16(self.feature_mask));
        proof {
            lemma_board_id_getting_method_custom_bytes_pieces(*self);
        }
        out
    }
}

/// How the bytes of a BoardIdGettingMethodCustom split up into its fields.
pub proof fn lemma_board_id_getting_method_custom_bytes_pieces(x: BoardIdGettingMethodCustom)
    ensures
        x.spec_bytes().len() == 4,
        x.spec_bytes().subrange(0, 2) == spec_u16_to_le_bytes(x.spec_access_method()),
        x.spec_bytes().subrange(2, 4) == spec_u16_to_le_bytes(x.spec_feature_mask()),
{
    lemma_auto_spec_u16_to_from_le_bytes();
    lemma_auto_spec_u32_to_from_le_bytes();
    lemma_auto_spec_u64_to_from_le_bytes();
    assert(x.spec_bytes().subrange(0, 2) == spec_u16_to_le_bytes(x.access_method));
    assert(x.spec_bytes().subrange(2, 4) == spec_u16_to_le_bytes(x.feature_mask));
}

/// Two values of BoardIdGettingMethodCustom with the same bytes are the same value.
#[verifier::spinoff_prover]
pub proof fn lemma_board_id_getting_method_custom_bytes_injective(x: BoardIdGettingMethodCustom, y: BoardIdGettingMethodCustom)
    requires
        x.spec_bytes() == y.spec_bytes(),
    ensures
        x == y,
{
    lemma_board_id_getting_method_custom_bytes_pieces(x);
    lemma_board_id_getting_method_custom_bytes_pieces(y);
    lemma_auto_spec_u16_to_from_le_bytes();
    lemma_auto_spec_u32_to_from_le_bytes();
    lemma_auto_spec_u64_to_from_le_bytes();
    assert(spec_u16_from_le_bytes(spec_u16_to_le_bytes(x.access_method)) == spec_u16_from_le_bytes(spec_u16_to_le_bytes(y.access_method)));
    assert(spec_u16_from_le_bytes(spec_u16_to_le_bytes(x.feature_mask)) == spec_u16_from_le_bytes(spec_u16_to_le_bytes(y.feature_mask)));
}

impl Default for BoardIdGettingMethodCustom {
    fn default() -> (r: Self)
        ensures
            r.spec_access_method() == 15,
            r.spec_feature_mask() == 0,
    {
        BoardIdGettingMethodCustom { access_method: 15, feature_mask: 0 }
    }
}

impl BoardIdGettingMethodCustom {
    pub fn new(feature_mask: u16) -> (r: Self)
        ensures
            r.spec_access_method() == 15,
            r.spec_feature_mask() == feature_mask,
    {
        let mut result = Self::default();
        result.feature_mask = feature_mask;
        result
    }
}

/// Whether the board id getting method with access method METHOD (custom 15, GPIO 3,
/// EEPROM 2, SMBus 1) claims PREFIX of an entry ENTRY_ID: the first two bytes hold METHOD as
/// a little-endian 16-bit number.
pub open spec fn spec_board_id_method_compatible(entry_id: EntryId, prefix: Seq<u8>, method: u8) -> bool {
    prefix.len() >= 2 && prefix[0] == method && prefix[1] == 0 && entry_id == EntryId::Psp(PspEntryId::BoardIdGettingMethod)
}

/// At most one of the board id getting methods (custom, GPIO, EEPROM, SMBus) claims a given
/// prefix of a given entry; and the custom method claims the bytes of a custom method (one
/// with access method 15, as `BoardIdGettingMethodCustom::new` makes it).
pub proof fn lemma_board_id_methods_compatibility(entry_id: EntryId, prefix: Seq<u8>, custom: BoardIdGettingMethodCustom)
    requires
        custom.spec_access_method() == 15,
    ensures
        spec_board_id_method_compatible(EntryId::Psp(PspEntryId::BoardIdGettingMethod), custom.spec_to_bytes(), 15),
        forall|m1: u8, m2: u8|
            m1 != m2 ==> !(#[trigger] spec_board_id_method_compatible(entry_id, prefix, m1)
                && #[trigger] spec_board_id_method_compatible(entry_id, prefix, m2)),
{
    lemma_board_id_getting_method_custom_bytes_pieces(custom);
    lemma_u16_le_bytes(15);
    assert((15u16 & 0xff) as u8 == 15u8 && ((15u16 >> 8) & 0xff) as u8 == 0u8) by (bit_vector);
    assert(custom.spec_to_bytes()[0] == custom.spec_to_bytes().subrange(0, 2)[0]);
    assert(custom.spec_to_bytes()[1] == custom.spec_to_bytes().subrange(0, 2)[1]);
}

impl EntryCompatible for BoardIdGettingMethodCustom {
    fn is_entry_compatible(entry_id: EntryId, prefix: &[u8]) -> (r: bool)
        ensures
            r == spec_board_id_method_compatible(entry_id, prefix@, 15),
    {
        if prefix.len() >= 2 && prefix[0] == 15 && prefix[1] == 0 {
            matches!(entry_id, EntryId::Psp(PspEntryId::BoardIdGettingMethod))
        } else {
            false
        }
    }
}

/// Getting the board id from GPIO pins.
#[allow(non_camel_case_types)]
#[derive(Debug, Clone, Copy)]
pub struct BoardIdGettingMethodGpio {
    pub(crate) access_method: u16,
    pub bit_locations: [Gpio; 4],
}

impl BoardIdGettingMethodGpio {
    pub closed spec fn spec_access_method(self) -> u16 {
        self.access_method
    }

    pub closed spec fn spec_bit_locations(self) -> [Gpio; 4] {
        self.bit_locations
    }

    pub fn access_method(&self) -> (r: Result<u16>)
        ensures
            r == Ok::<u16, Error>(self.spec_access_method()),
    {
        Ok(self.access_method)
    }

    pub fn set_access_method(&mut self, value: u16)
        ensures
            final(self).spec_access_method() == value,
            final(self).spec_bit_locations() == old(self).spec_bit_locations(),
    {
        self.access_method = value;
    }

}

impl BoardIdGettingMethodGpio {
    /// The bytes that store this value on disk.
    pub closed spec fn spec_bytes(self) -> Seq<u8> {
        spec_u16_to_le_bytes(self.access_method)
            + self.bit_locations[0].spec_to_bytes() + self.bit_locations[1].spec_to_bytes() + self.bit_locations[2].spec_to_bytes() + self.bit_locations[3].spec_to_bytes()
    }
}

impl ByteLayout for BoardIdGettingMethodGpio {
    open spec fn spec_size() -> nat {
        14
    }

    open spec fn spec_to_bytes(self) -> Seq<u8> {
        self.spec_bytes()
    }

    fn size() -> (r: usize) {
        14
    }

    #[verifier::spinoff_prover]
    fn from_bytes(bytes: &[u8]) -> (r: Self) {
        let access_method: u16 = u16_from_le_bytes(slice_subrange(bytes, 0, 2));
        let bit_locations: [Gpio; 4] = [Gpio::from_bytes(slice_subrange(bytes, 2, 5)), Gpio::from_bytes(slice_subrange(bytes, 5, 8)), Gpio::from_bytes(slice_subrange(bytes, 8, 11)), Gpio::from_bytes(slice_subrange(bytes, 11, 14))];
        let r = BoardIdGettingMethodGpio { access_method, bit_locations };
        proof {
            lemma_auto_spec_u16_to_from_le_bytes();
            lemma_auto_spec_u32_to_from_le_bytes();
            lemma_auto_spec_u64_to_from_le_bytes();
            lemma_board_id_getting_method_gpio_bytes_pieces(r);
            assert(bytes@.subrange(0, 2) == spec_u16_to_le_bytes(access_method));
            assert(bytes@.subrange(2, 5) == bit_locations[0].spec_to_bytes());
            assert(bytes@.subrange(5, 8) == bit_locations[1].spec_to_bytes());
            assert(bytes@.subrange(8, 11) == bit_locations[2].spec_to_bytes());
            assert(bytes@.subrange(11, 14) == bit_locations[3].spec_to_bytes());
            assert(bytes@.subrange(0, 14) =~= bytes@.subrange(0, 2) + bytes@.subrange(2, 14));
            assert(bytes@.subrange(0, 14) =~= bytes@);
            assert(bytes@ == r.spec_bytes());
        }
        r
    }

    #[verifier::spinoff_prover]
    fn to_bytes(&self) -> (r: Vec<u8>) {
        let mut out: Vec<u8> = Vec::new();
        append_bytes(&mut out, &le_bytes_u16(self.access_method));
        let part = self.bit_locations[0].to_bytes();
        append_bytes(&mut out, part.as_slice());
        let part = self.bit_locations[1].to_bytes();
        append_bytes(&mut out, part.as_slice());
        let part = self.bit_locations[2].to_bytes();
        append_bytes(&mut out, part.as_slice());
        let part = self.bit_locations[3].to_bytes();
        append_bytes(&mut out, part.as_slice());
        proof {
            lemma_board_id_getting_method_gpio_bytes_pieces(*self);
        }
        out
    }
}

/// How the bytes of a BoardIdGettingMethodGpio split up into its fields.
pub proof fn lemma_board_id_getting_method_gpio_bytes_pieces(x: BoardIdGettingMethodGpio)
    ensures
        x.spec_bytes().len() == 14,
        x.spec_bytes().subrange(0, 2) == spec_u16_to_le_bytes(x.spec_access_method()),
        x.spec_bytes().subrange(2, 14) == x.spec_bit_locations()[0].spec_to_bytes() + x.spec_bit_locations()[1].spec_to_bytes() + x.spec_bit_locations()[2].spec_to_bytes() + x.spec_bit_locations()[3].spec_to_bytes(),
{
    lemma_auto_spec_u16_to_from_le_bytes();
    lemma_auto_spec_u32_to_from_le_bytes();
    lemma_auto_spec_u64_to_from_le_bytes();
    lemma_gpio_bytes_pieces(x.bit_locations[0]);
    lemma_gpio_bytes_pieces(x.bit_locations[1]);
    lemma_gpio_bytes_pieces(x.bit_locations[2]);
    lemma_gpio_bytes_pieces(x.bit_locations[3]);
    assert(x.spec_bytes().subrange(0, 2) == spec_u16_to_le_bytes(x.access_method));
    assert(x.spec_bytes().subrange(2, 14) == x.bit_locations[0].spec_to_bytes() + x.bit_locations[1].spec_to_bytes() + x.bit_locations[2].spec_to_bytes() + x.bit_locations[3].spec_to_bytes());
}

/// Two values of BoardIdGettingMethodGpio with the same bytes are the same value.
#[verifier::spinoff_prover]
pub proof fn lemma_board_id_getting_method_gpio_bytes_injective(x: BoardIdGettingMethodGpio, y: BoardIdGettingMethodGpio)
    requires
        x.spec_bytes() == y.spec_bytes(),
    ensures
        x == y,
{
    lemma_board_id_getting_method_gpio_bytes_pieces(x);
    lemma_board_id_getting_method_gpio_bytes_pieces(y);
    lemma_auto_spec_u16_to_from_le_bytes();
    lemma_auto_spec_u32_to_from_le_bytes();
    lemma_auto_spec_u64_to_from_le_bytes();
    assert(spec_u16_from_le_bytes(spec_u16_to_le_bytes(x.access_method)) == spec_u16_from_le_bytes(spec_u16_to_le_bytes(y.access_method)));
    lemma_gpio_bytes_pieces(x.bit_locations[0]);
    lemma_gpio_bytes_pieces(y.bit_locations[0]);
    assert(x.spec_bytes().subrange(2, 5) == x.bit_locations[0].spec_to_bytes());
    assert(y.spec_bytes().subrange(2, 5) == y.bit_locations[0].spec_to_bytes());
    lemma_gpio_bytes_injective(x.bit_locations[0], y.bit_locations[0]);
    lemma_gpio_bytes_pieces(x.bit_locations[1]);
    lemma_gpio_bytes_pieces(y.bit_locations[1]);
    assert(x.spec_bytes().subrange(5, 8) == x.bit_locations[1].spec_to_bytes());
    assert(y.spec_bytes().subrange(5, 8) == y.bit_locations[1].spec_to_bytes());
    lemma_gpio_bytes_injective(x.bit_locations[1], y.bit_locations[1]);
    lemma_gpio_bytes_pieces(x.bit_locations[2]);
    lemma_gpio_bytes_pieces(y.bit_locations[2]);
    assert(x.spec_bytes().subrange(8, 11) == x.bit_locations[2].spec_to_bytes());
    assert(y.spec_bytes().subrange(8, 11) == y.bit_locations[2].spec_to_bytes());
    lemma_gpio_bytes_injective(x.bit_locations[2], y.bit_locations[2]);
    lemma_gpio_bytes_pieces(x.bit_locations[3]);
    lemma_gpio_bytes_pieces(y.bit_locations[3]);
    assert(x.spec_bytes().subrange(11, 14) == x.bit_locations[3].spec_to_bytes());
    assert(y.spec_bytes().subrange(11, 14) == y.bit_locations[3].spec_to_bytes());
    lemma_gpio_bytes_injective(x.bit_locations[3], y.bit_locations[3]);
    assert(x.bit_locations =~= y.bit_locations);
}

impl Default for BoardIdGettingMethodGpio {
    fn default() -> (r: Self)
        ensures
            r.spec_access_method() == 3,
            r.spec_bit_locations() == [Gpio::spec_of_fields(0, 0, 0), Gpio::spec_of_fields(0, 0, 0), Gpio::spec_of_fields(0, 0, 0), Gpio::spec_of_fields(0, 0, 0)],
    {
        BoardIdGettingMethodGpio { access_method: 3, bit_locations: [Gpio::new(0, 0, 0), Gpio::new(0, 0, 0), Gpio::new(0, 0, 0), Gpio::new(0, 0, 0)] }
    }
}

impl BoardIdGettingMethodGpio {
    pub fn new(bit_locations: [Gpio; 4]) -> (r: Self)
        ensures
            r.spec_access_method() == 3,
            r.spec_bit_locations() == bit_locations,
    {
        let mut result = Self::default();
        result.bit_locations = bit_locations;
        result
    }
}

impl EntryCompatible for BoardIdGettingMethodGpio {
    fn is_entry_compatible(entry_id: EntryId, prefix: &[u8]) -> (r: bool)
        ensures
            r == spec_board_id_method_compatible(entry_id, prefix@, 3),
    {
        if prefix.len() >= 2 && prefix[0] == 3 && prefix[1] == 0 {
            matches!(entry_id, EntryId::Psp(PspEntryId::BoardIdGettingMethod))
        } else {
            false
        }
    }
}

impl BoardIdGettingMethodGpio {
    /// The GPIO pins that hold the bits of the board id.
    pub fn bit_locations(&self) -> (r: Result<[Gpio; 4]>)
        ensures
            r == Ok::<[Gpio; 4], Error>(self.spec_bit_locations()),
    {
        Ok(self.bit_locations)
    }

    pub fn set_bit_locations(&mut self, value: [Gpio; 4])
        ensures
            final(self).spec_bit_locations() == value,
            final(self).spec_access_method() == old(self).spec_access_method(),
    {
        self.bit_locations = value;
    }
}

/// Getting the board id from an EEPROM (offsets in bytes).
#[allow(non_camel_case_types)]
#[derive(Debug, Clone, Copy, PartialEq, Eq, Structural)]
pub struct BoardIdGettingMethodEeprom {
    pub(crate) access_method: u16,
    pub(crate) i2c_controller_index: u16,
    pub(crate) device_address: u16,
    pub(crate) board_id_offset: u16,
    pub(crate) board_rev_offset: u16,
}

impl BoardIdGettingMethodEeprom {
    pub closed spec fn spec_access_method(self) -> u16 {
        self.access_method
    }

    pub closed spec fn spec_i2c_controller_index(self) -> u16 {
        self.i2c_controller_index
    }

    pub closed spec fn spec_device_address(self) -> u16 {
        self.device_address
    }

    pub closed spec fn spec_board_id_offset(self) -> u16 {
        self.board_id_offset
    }

    pub closed spec fn spec_board_rev_offset(self) -> u16 {
        self.board_rev_offset
    }

    pub fn access_method(&self) -> (r: Result<u16>)
        ensures
            r == Ok::<u16, Error>(self.spec_access_method()),
    {
        Ok(self.access_method)
    }

    pub fn set_access_method(&mut self, value: u16)
        ensures
            final(self).spec_access_method() == value,
            final(self).spec_i2c_controller_index() == old(self).spec_i2c_controller_index(),
            final(self).spec_device_address() == old(self).spec_device_address(),
            final(self).spec_board_id_offset() == old(self).spec_board_id_offset(),
            final(self).spec_board_rev_offset() == old(self).spec_board_rev_offset(),
    {
        self.access_method = value;
    }

    pub fn i2c_controller_index(&self) -> (r: Result<u16>)
        ensures
            r == Ok::<u16, Error>(self.spec_i2c_controller_index()),
    {
        Ok(self.i2c_controller_index)
    }

    pub fn set_i2c_controller_index(&mut self, value: u16)
        ensures
            final(self).spec_i2c_controller_index() == value,
            final(self).spec_access_method() == old(self).spec_access_method(),
            final(self).spec_device_address() == old(self).spec_device_address(),
            final(self).spec_board_id_offset() == old(self).spec_board_id_offset(),
            final(self).spec_board_rev_offset() == old(self).spec_board_rev_offset(),
    {
        self.i2c_controller_index = value;
    }

    pub fn device_address(&self) -> (r: Result<u16>)
        ensures
            r == Ok::<u16, Error>(self.spec_device_address()),
    {
        Ok(self.device_address)
    }

    pub fn set_device_address(&mut self, value: u16)
        ensures
            final(self).spec_device_address() == value,
            final(self).spec_access_method() == old(self).spec_access_method(),
            final(self).spec_i2c_controller_index() == old(self).spec_i2c_controller_index(),
            final(self).spec_board_id_offset() == old(self).spec_board_id_offset(),
            final(self).spec_board_rev_offset() == old(self).spec_board_rev_offset(),
    {
        self.device_address = value;
    }

    pub fn board_id_offset(&self) -> (r: Result<u16>)
        ensures
            r == Ok::<u16, Error>(self.spec_board_id_offset()),
    {
        Ok(self.board_id_offset)
    }

    pub fn set_board_id_offset(&mut self, value: u16)
        ensures
            final(self).spec_board_id_offset() == value,
            final(self).spec_access_method() == old(self).spec_access_method(),
            final(self).spec_i2c_controller_index() == old(self).spec_i2c_controller_index(),
            final(self).spec_device_address() == old(self).spec_device_address(),
            final(self).spec_board_rev_offset() == old(self).spec_board_rev_offset(),
    {
        self.board_id_offset = value;
    }

    pub fn board_rev_offset(&self) -> (r: Result<u16>)
        ensures
            r == Ok::<u16, Error>(self.spec_board_rev_offset()),
    {
        Ok(self.board_rev_offset)
    }

    pub fn set_board_rev_offset(&mut self, value: u16)
        ensures
            final(self).spec_board_rev_offset() == value,
            final(self).spec_access_method() == old(self).spec_access_method(),
            final(self).spec_i2c_controller_index() == old(self).spec_i2c_controller_index(),
            final(self).spec_device_address() == old(self).spec_device_address(),
            final(self).spec_board_id_offset() == old(self).spec_board_id_offset(),
    {
        self.board_rev_offset = value;
    }

}

impl BoardIdGettingMethodEeprom {
    /// The bytes that store this value on disk.
    pub closed spec fn spec_bytes(self) -> Seq<u8> {
        spec_u16_to_le_bytes(self.access_method)
            + spec_u16_to_le_bytes(self.i2c_controller_index)
            + spec_u16_to_le_bytes(self.device_address)
            + spec_u16_to_le_bytes(self.board_id_offset)
            + spec_u16_to_le_bytes(self.board_rev_offset)
    }
}

impl ByteLayout for BoardIdGettingMethodEeprom {
    open spec fn spec_size() -> nat {
        10
    }

    open spec fn spec_to_bytes(self) -> Seq<u8> {
        self.spec_bytes()
    }

    fn size() -> (r: usize) {
        10
    }

    #[verifier::spinoff_prover]
    fn from_bytes(bytes: &[u8]) -> (r: Self) {
        let access_method: u16 = u16_from_le_bytes(slice_subrange(bytes, 0, 2));
        let i2c_controller_index: u16 = u16_from_le_bytes(slice_subrange(bytes, 2, 4));
        let device_address: u16 = u16_from_le_bytes(slice_subrange(bytes, 4, 6));
        let board_id_offset: u16 = u16_from_le_bytes(slice_subrange(bytes, 6, 8));
        let board_rev_offset: u16 = u16_from_le_bytes(slice_subrange(bytes, 8, 10));
        let r = BoardIdGettingMethodEeprom { access_method, i2c_controller_index, device_address, board_id_offset, board_rev_offset };
        proof {
            lemma_auto_spec_u16_to_from_le_bytes();
            lemma_auto_spec_u32_to_from_le_bytes();
            lemma_auto_spec_u64_to_from_le_bytes();
            lemma_board_id_getting_method_eeprom_bytes_pieces(r);
            assert(bytes@.subrange(0, 2) == spec_u16_to_le_bytes(access_method));
            assert(bytes@.subrange(2, 4) == spec_u16_to_le_bytes(i2c_controller_index));
            assert(bytes@.subrange(4, 6) == spec_u16_to_le_bytes(device_address));
            assert(bytes@.subrange(6, 8) == spec_u16_to_le_bytes(board_id_offset));
            assert(bytes@.subrange(8, 10) == spec_u16_to_le_bytes(board_rev_offset));
            assert(bytes@.subrange(0, 4) =~= bytes@.subrange(0, 2) + bytes@.subrange(2, 4));
            assert(bytes@.subrange(0, 6) =~= bytes@.subrange(0, 4) + bytes@.subrange(4, 6));
            assert(bytes@.subrange(0, 8) =~= bytes@.subrange(0, 6) + bytes@.subrange(6, 8));
            assert(bytes@.subrange(0, 10) =~= bytes@.subrange(0, 8) + bytes@.subrange(8, 10));
            assert(bytes@.subrange(0, 10) =~= bytes@);
            assert(bytes@ == r.spec_bytes());
        }
        r
    }

    #[verifier::spinoff_prover]
    fn to_bytes(&self) -> (r: Vec<u8>) {
        let mut out: Vec<u8> = Vec::new();
        append_bytes(&mut out, &le_bytes_u16(self.access_method));
        append_bytes(&mut out, &le_bytes_u16(self.i2c_controller_index));
        append_bytes(&mut out, &le_bytes_u16(self.device_address));
        append_bytes(&mut out, &le_bytes_u16(self.board_id_offset));
        append_bytes(&mut out, &le_bytes_u16(self.board_rev_offset));
        proof {
            lemma_board_id_getting_method_eeprom_bytes_pieces(*self);
        }
        out
    }
}

/// How the bytes of a BoardIdGettingMethodEeprom split up into its fields.
pub proof fn lemma_board_id_getting_method_eeprom_bytes_pieces(x: BoardIdGettingMethodEeprom)
    ensures
        x.spec_bytes().len() == 10,
        x.spec_bytes().subrange(0, 2) == spec_u16_to_le_bytes(x.spec_access_method()),
        x.spec_bytes().subrange(2, 4) == spec_u16_to_le_bytes(x.spec_i2c_controller_index()),
        x.spec_bytes().subrange(4, 6) == spec_u16_to_le_bytes(x.spec_device_address()),
        x.spec_bytes().subrange(6, 8) == spec_u16_to_le_bytes(x.spec_board_id_offset()),
        x.spec_bytes().subrange(8, 10) == spec_u16_to_le_bytes(x.spec_board_rev_offset()),
{
    lemma_auto_spec_u16_to_from_le_bytes();
    lemma_auto_spec_u32_to_from_le_bytes();
    lemma_auto_spec_u64_to_from_le_bytes();
    assert(x.spec_bytes().subrange(0, 2) == spec_u16_to_le_bytes(x.access_method));
    assert(x.spec_bytes().subrange(2, 4) == spec_u16_to_le_bytes(x.i2c_controller_index));
    assert(x.spec_bytes().subrange(4, 6) == spec_u16_to_le_bytes(x.device_address));
    assert(x.spec_bytes().subrange(6, 8) == spec_u16_to_le_bytes(x.board_id_offset));
    assert(x.spec_bytes().subrange(8, 10) == spec_u16_to_le_bytes(x.board_rev_offset));
}

/// Two values of BoardIdGettingMethodEeprom with the same bytes are the same value.
#[verifier::spinoff_prover]
pub proof fn lemma_board_id_getting_method_eeprom_bytes_injective(x: BoardIdGettingMethodEeprom, y: BoardIdGettingMethodEeprom)
    requires
        x.spec_bytes() == y.spec_bytes(),
    ensures
        x == y,
{
    lemma_board_id_getting_method_eeprom_bytes_pieces(x);
    lemma_board_id_getting_method_eeprom_bytes_pieces(y);
    lemma_auto_spec_u16_to_from_le_bytes();
    lemma_auto_spec_u32_to_from_le_bytes();
    lemma_auto_spec_u64_to_from_le_bytes();
    assert(spec_u16_from_le_bytes(spec_u16_to_le_bytes(x.access_method)) == spec_u16_from_le_bytes(spec_u16_to_le_bytes(y.access_method)));
    assert(spec_u16_from_le_bytes(spec_u16_to_le_bytes(x.i2c_controller_index)) == spec_u16_from_le_bytes(spec_u16_to_le_bytes(y.i2c_controller_index)));
    assert(spec_u16_from_le_bytes(spec_u16_to_le_bytes(x.device_address)) == spec_u16_from_le_bytes(spec_u16_to_le_bytes(y.device_address)));
    assert(spec_u16_from_le_bytes(spec_u16_to_le_bytes(x.board_id_offset)) == spec_u16_from_le_bytes(spec_u16_to_le_bytes(y.board_id_offset)));
    assert(spec_u16_from_le_bytes(spec_u16_to_le_bytes(x.board_rev_offset)) == spec_u16_from_le_bytes(spec_u16_to_le_bytes(y.board_rev_offset)));
}

impl Default for BoardIdGettingMethodEeprom {
    fn default() -> (r: Self)
        ensures
            r.spec_access_method() == 2,
            r.spec_i2c_controller_index() == 0,
            r.spec_device_address() == 0,
            r.spec_board_id_offset() == 0,
            r.spec_board_rev_offset() == 0,
    {
        BoardIdGettingMethodEeprom { access_method: 2, i2c_controller_index: 0, device_address: 0, board_id_offset: 0, board_rev_offset: 0 }
    }
}

impl BoardIdGettingMethodEeprom {
    pub fn new(i2c_controller_index: u16, device_address: u16, board_id_offset: u16, board_rev_offset: u16) -> (r: Self)
        ensures
            r.spec_access_method() == 2,
            r.spec_i2c_controller_index() == i2c_controller_index,
            r.spec_device_address() == device_address,
            r.spec_board_id_offset() == board_id_offset,
            r.spec_board_rev_offset() == board_rev_offset,
    {
        let mut result = Self::default();
        result.i2c_controller_index = i2c_controller_index;
        result.device_address = device_address;
        result.board_id_offset = board_id_offset;
        result.board_rev_offset = board_rev_offset;
        result
    }
}

impl EntryCompatible for BoardIdGettingMethodEeprom {
    fn is_entry_compatible(entry_id: EntryId, prefix: &[u8]) -> (r: bool)
        ensures
            r == spec_board_id_method_compatible(entry_id, prefix@, 2),
    {
        if prefix.len() >= 2 && prefix[0] == 2 && prefix[1] == 0 {
            matches!(entry_id, EntryId::Psp(PspEntryId::BoardIdGettingMethod))
        } else {
            false
        }
    }
}

/// Getting the board id over SMBus.
#[allow(non_camel_case_types)]
#[derive(Debug, Clone, Copy, PartialEq, Eq, Structural)]
pub struct BoardIdGettingMethodSmbus {
    pub(crate) access_method: u16,
    pub(crate) i2c_controller_index: u16,
    pub(crate) i2c_mux_address: u8,
    pub(crate) mux_control_address: u8,
    pub(crate) mux_channel: u8,
    pub(crate) smbus_address: u16,
    pub(crate) register_index: u16,
}

impl BoardIdGettingMethodSmbus {
    pub closed spec fn spec_access_method(self) -> u16 {
        self.access_method
    }

    pub closed spec fn spec_i2c_controller_index(self) -> u16 {
        self.i2c_controller_index
    }

    pub closed spec fn spec_i2c_mux_address(self) -> u8 {
        self.i2c_mux_address
    }

    pub closed spec fn spec_mux_control_address(self) -> u8 {
        self.mux_control_address
    }

    pub closed spec fn spec_mux_channel(self) -> u8 {
        self.mux_channel
    }

    pub closed spec fn spec_smbus_address(self) -> u16 {
        self.smbus_address
    }

    pub closed spec fn spec_register_index(self) -> u16 {
        self.register_index
    }

    pub fn access_method(&self) -> (r: Result<u16>)
        ensures
            r == Ok::<u16, Error>(self.spec_access_method()),
    {
        Ok(self.access_method)
    }

    pub fn set_access_method(&mut self, value: u16)
        ensures
            final(self).spec_access_method() == value,
            final(self).spec_i2c_controller_index() == old(self).spec_i2c_controller_index(),
            final(self).spec_i2c_mux_address() == old(self).spec_i2c_mux_address(),
            final(self).spec_mux_control_address() == old(self).spec_mux_control_address(),
            final(self).spec_mux_channel() == old(self).spec_mux_channel(),
            final(self).spec_smbus_address() == old(self).spec_smbus_address(),
            final(self).spec_register_index() == old(self).spec_register_index(),
    {
        self.access_method = value;
    }

    pub fn i2c_controller_index(&self) -> (r: Result<u16>)
        ensures
            r == Ok::<u16, Error>(self.spec_i2c_controller_index()),
    {
        Ok(self.i2c_controller_index)
    }

    pub fn set_i2c_controller_index(&mut self, value: u16)
        ensures
            final(self).spec_i2c_controller_index() == value,
            final(self).spec_access_method() == old(self).spec_access_method(),
            final(self).spec_i2c_mux_address() == old(self).spec_i2c_mux_address(),
            final(self).spec_mux_control_address() == old(self).spec_mux_control_address(),
            final(self).spec_mux_channel() == old(self).spec_mux_channel(),
            final(self).spec_smbus_address() == old(self).spec_smbus_address(),
            final(self).spec_register_index() == old(self).spec_register_index(),
    {
        self.i2c_controller_index = value;
    }

    pub fn i2c_mux_address(&self) -> (r: Result<u8>)
        ensures
            r == Ok::<u8, Error>(self.spec_i2c_mux_address()),
    {
        Ok(self.i2c_mux_address)
    }

    pub fn set_i2c_mux_address(&mut self, value: u8)
        ensures
            final(self).spec_i2c_mux_address() == value,
            final(self).spec_access_method() == old(self).spec_access_method(),
            final(self).spec_i2c_controller_index() == old(self).spec_i2c_controller_index(),
            final(self).spec_mux_control_address() == old(self).spec_mux_control_address(),
            final(self).spec_mux_channel() == old(self).spec_mux_channel(),
            final(self).spec_smbus_address() == old(self).spec_smbus_address(),
            final(self).spec_register_index() == old(self).spec_register_index(),
    {
        self.i2c_mux_address = value;
    }

    pub fn mux_control_address(&self) -> (r: Result<u8>)
        ensures
            r == Ok::<u8, Error>(self.spec_mux_control_address()),
    {
        Ok(self.mux_control_address)
    }

    pub fn set_mux_control_address(&mut self, value: u8)
        ensures
            final(self).spec_mux_control_address() == value,
            final(self).spec_access_method() == old(self).spec_access_method(),
            final(self).spec_i2c_controller_index() == old(self).spec_i2c_controller_index(),
            final(self).spec_i2c_mux_address() == old(self).spec_i2c_mux_address(),
            final(self).spec_mux_channel() == old(self).spec_mux_channel(),
            final(self).spec_smbus_address() == old(self).spec_smbus_address(),
            final(self).spec_register_index() == old(self).spec_register_index(),
    {
        self.mux_control_address = value;
    }

    pub fn mux_channel(&self) -> (r: Result<u8>)
        ensures
            r == Ok::<u8, Error>(self.spec_mux_channel()),
    {
        Ok(self.mux_channel)
    }

    pub fn set_mux_channel(&mut self, value: u8)
        ensures
            final(self).spec_mux_channel() == value,
            final(self).spec_access_method() == old(self).spec_access_method(),
            final(self).spec_i2c_controller_index() == old(self).spec_i2c_controller_index(),
            final(self).spec_i2c_mux_address() == old(self).spec_i2c_mux_address(),
            final(self).spec_mux_control_address() == old(self).spec_mux_control_address(),
            final(self).spec_smbus_address() == old(self).spec_smbus_address(),
            final(self).spec_register_index() == old(self).spec_register_index(),
    {
        self.mux_channel = value;
    }

    pub fn smbus_address(&self) -> (r: Result<u16>)
        ensures
            r == Ok::<u16, Error>(self.spec_smbus_address()),
    {
        Ok(self.smbus_address)
    }

    pub fn set_smbus_address(&mut self, value: u16)
        ensures
            final(self).spec_smbus_address() == value,
            final(self).spec_access_method() == old(self).spec_access_method(),
            final(self).spec_i2c_controller_index() == old(self).spec_i2c_controller_index(),
            final(self).spec_i2c_mux_address() == old(self).spec_i2c_mux_address(),
            final(self).spec_mux_control_address() == old(self).spec_mux_control_address(),
            final(self).spec_mux_channel() == old(self).spec_mux_channel(),
            final(self).spec_register_index() == old(self).spec_register_index(),
    {
        self.smbus_address = value;
    }

    pub fn register_index(&self) -> (r: Result<u16>)
        ensures
            r == Ok::<u16, Error>(self.spec_register_index()),
    {
        Ok(self.register_index)
    }

    pub fn set_register_index(&mut self, value: u16)
        ensures
            final(self).spec_register_index() == value,
            final(self).spec_access_method() == old(self).spec_access_method(),
            final(self).spec_i2c_controller_index() == old(self).spec_i2c_controller_index(),
            final(self).spec_i2c_mux_address() == old(self).spec_i2c_mux_address(),
            final(self).spec_mux_control_address() == old(self).spec_mux_control_address(),
            final(self).spec_mux_channel() == old(self).spec_mux_channel(),
            final(self).spec_smbus_address() == old(self).spec_smbus_address(),
    {
        self.register_index = value;
    }

}

impl BoardIdGettingMethodSmbus {
    /// The bytes that store this value on disk.
    pub closed spec fn spec_bytes(self) -> Seq<u8> {
        spec_u16_to_le_bytes(self.access_method)
            + spec_u16_to_le_bytes(self.i2c_controller_index)
            + seq![self.i2c_mux_address]
            + seq![self.mux_control_address]
            + seq![self.mux_channel]
            + spec_u16_to_le_bytes(self.smbus_address)
            + spec_u16_to_le_bytes(self.register_index)
    }
}

impl ByteLayout for BoardIdGettingMethodSmbus {
    open spec fn spec_size() -> nat {
        11
    }

    open spec fn spec_to_bytes(self) -> Seq<u8> {
        self.spec_bytes()
    }

    fn size() -> (r: usize) {
        11
    }

    #[verifier::spinoff_prover]
    fn from_bytes(bytes: &[u8]) -> (r: Self) {
        let access_method: u16 = u16_from_le_bytes(slice_subrange(bytes, 0, 2));
        let i2c_controller_index: u16 = u16_from_le_bytes(slice_subrange(bytes, 2, 4));
        let i2c_mux_address: u8 = bytes[4];
        let mux_control_address: u8 = bytes[5];
        let mux_channel: u8 = bytes[6];
        let smbus_address: u16 = u16_from_le_bytes(slice_subrange(bytes, 7, 9));
        let register_index: u16 = u16_from_le_bytes(slice_subrange(bytes, 9, 11));
        let r = BoardIdGettingMethodSmbus { access_method, i2c_controller_index, i2c_mux_address, mux_control_address, mux_channel, smbus_address, register_index };
        proof {
            lemma_auto_spec_u16_to_from_le_bytes();
            lemma_auto_spec_u32_to_from_le_bytes();
            lemma_auto_spec_u64_to_from_le_bytes();
            lemma_board_id_getting_method_smbus_bytes_pieces(r);
            assert(bytes@.subrange(0, 2) == spec_u16_to_le_bytes(access_method));
            assert(bytes@.subrange(2, 4) == spec_u16_to_le_bytes(i2c_controller_index));
            assert(bytes@.subrange(7, 9) == spec_u16_to_le_bytes(smbus_address));
            assert(bytes@.subrange(9, 11) == spec_u16_to_le_bytes(register_index));
            assert(bytes@.subrange(0, 4) =~= bytes@.subrange(0, 2) + bytes@.subrange(2, 4));
            assert(bytes@.subrange(0, 5) =~= bytes@.subrange(0, 4) + bytes@.subrange(4, 5));
            assert(bytes@.subrange(0, 6) =~= bytes@.subrange(0, 5) + bytes@.subrange(5, 6));
            assert(bytes@.subrange(0, 7) =~= bytes@.subrange(0, 6) + bytes@.subrange(6, 7));
            assert(bytes@.subrange(0, 9) =~= bytes@.subrange(0, 7) + bytes@.subrange(7, 9));
            assert(bytes@.subrange(0, 11) =~= bytes@.subrange(0, 9) + bytes@.subrange(9, 11));
            assert(bytes@.subrange(0, 11) =~= bytes@);
            assert(bytes@ == r.spec_bytes());
        }
        r
    }

    #[verifier::spinoff_prover]
    fn to_bytes(&self) -> (r: Vec<u8>) {
        let mut out: Vec<u8> = Vec::new();
        append_bytes(&mut out, &le_bytes_u16(self.access_method));
        append_bytes(&mut out, &le_bytes_u16(self.i2c_controller_index));
        out.push(self.i2c_mux_address);
        out.push(self.mux_control_address);
        out.push(self.mux_channel);
        append_bytes(&mut out, &le_bytes_u16(self.smbus_address));
        append_bytes(&mut out, &le_bytes_u16(self.register_index));
        proof {
            lemma_board_id_getting_method_smbus_bytes_pieces(*self);
        }
        out
    }
}

/// How the bytes of a BoardIdGettingMethodSmbus split up into its fields.
pub proof fn lemma_board_id_getting_method_smbus_bytes_pieces(x: BoardIdGettingMethodSmbus)
    ensures
        x.spec_bytes().len() == 11,
        x.spec_bytes().subrange(0, 2) == spec_u16_to_le_bytes(x.spec_access_method()),
        x.spec_bytes().subrange(2, 4) == spec_u16_to_le_bytes(x.spec_i2c_controller_index()),
        x.spec_bytes()[4] == x.spec_i2c_mux_address(),
        x.spec_bytes()[5] == x.spec_mux_control_address(),
        x.spec_bytes()[6] == x.spec_mux_channel(),
        x.spec_bytes().subrange(7, 9) == spec_u16_to_le_bytes(x.spec_smbus_address()),
        x.spec_bytes().subrange(9, 11) == spec_u16_to_le_bytes(x.spec_register_index()),
{
    lemma_auto_spec_u16_to_from_le_bytes();
    lemma_auto_spec_u32_to_from_le_bytes();
    lemma_auto_spec_u64_to_from_le_bytes();
    assert(x.spec_bytes().subrange(0, 2) == spec_u16_to_le_bytes(x.access_method));
    assert(x.spec_bytes().subrange(2, 4) == spec_u16_to_le_bytes(x.i2c_controller_index));
    assert(x.spec_bytes().subrange(7, 9) == spec_u16_to_le_bytes(x.smbus_address));
    assert(x.spec_bytes().subrange(9, 11) == spec_u16_to_le_bytes(x.register_index));
}

/// Two values of BoardIdGettingMethodSmbus with the same bytes are the same value.
#[verifier::spinoff_prover]
pub proof fn lemma_board_id_getting_method_smbus_bytes_injective(x: BoardIdGettingMethodSmbus, y: BoardIdGettingMethodSmbus)
    requires
        x.spec_bytes() == y.spec_bytes(),
    ensures
        x == y,
{
    lemma_board_id_getting_method_smbus_bytes_pieces(x);
    lemma_board_id_getting_method_smbus_bytes_pieces(y);
    lemma_auto_spec_u16_to_from_le_bytes();
    lemma_auto_spec_u32_to_from_le_bytes();
    lemma_auto_spec_u64_to_from_le_bytes();
    assert(spec_u16_from_le_bytes(spec_u16_to_le_bytes(x.access_method)) == spec_u16_from_le_bytes(spec_u16_to_le_bytes(y.access_method)));
    assert(spec_u16_from_le_bytes(spec_u16_to_le_bytes(x.i2c_controller_index)) == spec_u16_from_le_bytes(spec_u16_to_le_bytes(y.i2c_controller_index)));
    assert(x.i2c_mux_address == y.i2c_mux_address);
    assert(x.mux_control_address == y.mux_control_address);
    assert(x.mux_channel == y.mux_channel);
    assert(spec_u16_from_le_bytes(spec_u16_to_le_bytes(x.smbus_address)) == spec_u16_from_le_bytes(spec_u16_to_le_bytes(y.smbus_address)));
    assert(spec_u16_from_le_bytes(spec_u16_to_le_bytes(x.register_index)) == spec_u16_from_le_bytes(spec_u16_to_le_bytes(y.register_index)));
}

impl Default for BoardIdGettingMethodSmbus {
    fn default() -> (r: Self)
        ensures
            r.spec_access_method() == 1,
            r.spec_i2c_controller_index() == 0,
            r.spec_i2c_mux_address() == 0,
            r.spec_mux_control_address() == 0,
            r.spec_mux_channel() == 0,
            r.spec_smbus_address() == 0,
            r.spec_register_index() == 0,
    {
        BoardIdGettingMethodSmbus { access_method: 1, i2c_controller_index: 0, i2c_mux_address: 0, mux_control_address: 0, mux_channel: 0, smbus_address: 0, register_index: 0 }
    }
}

impl BoardIdGettingMethodSmbus {
    pub fn new(i2c_controller_index: u16, i2c_mux_address: u8, mux_control_address: u8, mux_channel: u8, smbus_address: u16, register_index: u16) -> (r: Self)
        ensures
            r.spec_access_method() == 1,
            r.spec_i2c_controller_index() == i2c_controller_index,
            r.spec_i2c_mux_address() == i2c_mux_address,
            r.spec_mux_control_address() == mux_control_address,
            r.spec_mux_channel() == mux_channel,
            r.spec_smbus_address() == smbus_address,
            r.spec_register_index() == register_index,
    {
        let mut result = Self::default();
        result.i2c_controller_index = i2c_controller_index;
        result.i2c_mux_address = i2c_mux_address;
        result.mux_control_address = mux_control_address;
        result.mux_channel = mux_channel;
        result.smbus_address = smbus_address;
        result.register_index = register_index;
        result
    }
}

impl EntryCompatible for BoardIdGettingMethodSmbus {
    fn is_entry_compatible(entry_id: EntryId, prefix: &[u8]) -> (r: bool)
        ensures
            r == spec_board_id_method_compatible(entry_id, prefix@, 1),
    {
        if prefix.len() >= 2 && prefix[0] == 1 && prefix[1] == 0 {
            matches!(entry_id, EntryId::Psp(PspEntryId::BoardIdGettingMethod))
        } else {
            false
        }
    }
}

impl HeaderWithTail for BoardIdGettingMethodCustom {
    type TailArrayItemType<'de> = IdApcbMapping;
}

impl HeaderWithTail for BoardIdGettingMethodGpio {
    type TailArrayItemType<'de> = IdApcbMapping;
}

impl HeaderWithTail for BoardIdGettingMethodEeprom {
    type TailArrayItemType<'de> = IdRevApcbMapping;
}

impl HeaderWithTail for BoardIdGettingMethodSmbus {
    type TailArrayItemType<'de> = IdApcbMapping;
}

} // verus!
