use crate::bits::{field_u8, lemma_field_bound_u8, lemma_with_field_other_u8, lemma_with_field_same_u8, lemma_shift_table_u8, spec_field_u8, spec_with_field_u8, with_field_u8, field_u16, lemma_field_bound_u16, lemma_with_field_other_u16, lemma_with_field_same_u16, lemma_shift_table_u16, spec_field_u16, spec_with_field_u16, with_field_u16};
use crate::types::{Error, PriorityLevel, Result};
use vstd::prelude::*;

verus! {

/// The priority levels that an entry applies to (one bit each).
#[derive(Debug, Clone, Copy, PartialEq, Eq, Structural)]
pub struct PriorityLevels(u8);

impl PriorityLevels {
    /// The packed bits.
    pub closed spec fn spec_raw(self) -> u8 {
        self.0
    }

    /// The value with the given packed bits.
    pub closed spec fn spec_from_raw(raw: u8) -> Self {
        PriorityLevels(raw)
    }

    /// The packed bits determine the value, and any packed bits make a value.
    pub proof fn lemma_raw(x: Self, raw: u8)
        ensures
            Self::spec_from_raw(raw).spec_raw() == raw,
            Self::spec_from_raw(x.spec_raw()) == x,
    {
    }

    pub open spec fn spec_hard_force(self) -> bool {
        spec_field_u8(self.spec_raw(), 0, 1) == 1
    }

    pub open spec fn spec_high(self) -> bool {
        spec_field_u8(self.spec_raw(), 1, 1) == 1
    }

    pub open spec fn spec_medium(self) -> bool {
        spec_field_u8(self.spec_raw(), 2, 1) == 1
    }

    pub open spec fn spec_event_logging(self) -> bool {
        spec_field_u8(self.spec_raw(), 3, 1) == 1
    }

    pub open spec fn spec_low(self) -> bool {
        spec_field_u8(self.spec_raw(), 4, 1) == 1
    }

    pub open spec fn spec_normal(self) -> bool {
        spec_field_u8(self.spec_raw(), 5, 1) == 1
    }

    pub open spec fn spec__reserved_1(self) -> u8 {
        spec_field_u8(self.spec_raw(), 6, 2)
    }

    /// All bits clear.
    pub fn new() -> (r: Self)
        ensures
            r.spec_raw() == 0,
    {
        PriorityLevels(0)
    }

    /// The value with the given packed bits.
    pub fn from_raw(raw: u8) -> (r: Self)
        ensures
            r.spec_raw() == raw,
            r == Self::spec_from_raw(raw),
    {
        PriorityLevels(raw)
    }

    /// The packed bits.
    pub fn into_raw(self) -> (r: u8)
        ensures
            r == self.spec_raw(),
    {
        self.0
    }

    pub fn hard_force(&self) -> (r: bool)
        ensures
            r == self.spec_hard_force(),
    {
        field_u8(self.0, 0, 1) == 1
    }

    pub fn set_hard_force(&mut self, value: bool)
        ensures
            final(self).spec_raw() == spec_with_field_u8(old(self).spec_raw(), 0, 1, (if value { 1u8 } else { 0u8 })),
            final(self).spec_hard_force() == value,
            final(self).spec_high() == old(self).spec_high(),
            final(self).spec_medium() == old(self).spec_medium(),
            final(self).spec_event_logging() == old(self).spec_event_logging(),
            final(self).spec_low() == old(self).spec_low(),
            final(self).spec_normal() == old(self).spec_normal(),
            final(self).spec__reserved_1() == old(self).spec__reserved_1(),
    {
        let x: u8 = if value { 1 } else { 0 };
        let ghost old_raw = self.0;
        proof {
            lemma_shift_table_u8();
            lemma_with_field_same_u8(old_raw, 0, 1, x);
            lemma_with_field_other_u8(old_raw, 0, 1, x, 1, 1);
            lemma_with_field_other_u8(old_raw, 0, 1, x, 2, 1);
            lemma_with_field_other_u8(old_raw, 0, 1, x, 3, 1);
            lemma_with_field_other_u8(old_raw, 0, 1, x, 4, 1);
            lemma_with_field_other_u8(old_raw, 0, 1, x, 5, 1);
            lemma_with_field_other_u8(old_raw, 0, 1, x, 6, 2);
        }
        self.0 = with_field_u8(self.0, 0, 1, x);
    }

    pub fn with_hard_force(self, value: bool) -> (r: Self)
        ensures
            r.spec_raw() == spec_with_field_u8(self.spec_raw(), 0, 1, (if value { 1u8 } else { 0u8 })),
            r.spec_hard_force() == value,
            r.spec_high() == self.spec_high(),
            r.spec_medium() == self.spec_medium(),
            r.spec_event_logging() == self.spec_event_logging(),
            r.spec_low() == self.spec_low(),
            r.spec_normal() == self.spec_normal(),
            r.spec__reserved_1() == self.spec__reserved_1(),
    {
        let mut r = self;
        r.set_hard_force(value);
        r
    }

    pub fn high(&self) -> (r: bool)
        ensures
            r == self.spec_high(),
    {
        field_u8(self.0, 1, 1) == 1
    }

    pub fn set_high(&mut self, value: bool)
        ensures
            final(self).spec_raw() == spec_with_field_u8(old(self).spec_raw(), 1, 1, (if value { 1u8 } else { 0u8 })),
            final(self).spec_high() == value,
            final(self).spec_hard_force() == old(self).spec_hard_force(),
            final(self).spec_medium() == old(self).spec_medium(),
            final(self).spec_event_logging() == old(self).spec_event_logging(),
            final(self).spec_low() == old(self).spec_low(),
            final(self).spec_normal() == old(self).spec_normal(),
            final(self).spec__reserved_1() == old(self).spec__reserved_1(),
    {
        let x: u8 = if value { 1 } else { 0 };
        let ghost old_raw = self.0;
        proof {
            lemma_shift_table_u8();
            lemma_with_field_same_u8(old_raw, 1, 1, x);
            lemma_with_field_other_u8(old_raw, 1, 1, x, 0, 1);
            lemma_with_field_other_u8(old_raw, 1, 1, x, 2, 1);
            lemma_with_field_other_u8(old_raw, 1, 1, x, 3, 1);
            lemma_with_field_other_u8(old_raw, 1, 1, x, 4, 1);
            lemma_with_field_other_u8(old_raw, 1, 1, x, 5, 1);
            lemma_with_field_other_u8(old_raw, 1, 1, x, 6, 2);
        }
        self.0 = with_field_u8(self.0, 1, 1, x);
    }

    pub fn with_high(self, value: bool) -> (r: Self)
        ensures
            r.spec_raw() == spec_with_field_u8(self.spec_raw(), 1, 1, (if value { 1u8 } else { 0u8 })),
            r.spec_high() == value,
            r.spec_hard_force() == self.spec_hard_force(),
            r.spec_medium() == self.spec_medium(),
            r.spec_event_logging() == self.spec_event_logging(),
            r.spec_low() == self.spec_low(),
            r.spec_normal() == self.spec_normal(),
            r.spec__reserved_1() == self.spec__reserved_1(),
    {
        let mut r = self;
        r.set_high(value);
        r
    }

    pub fn medium(&self) -> (r: bool)
        ensures
            r == self.spec_medium(),
    {
        field_u8(self.0, 2, 1) == 1
    }

    pub fn set_medium(&mut self, value: bool)
        ensures
            final(self).spec_raw() == spec_with_field_u8(old(self).spec_raw(), 2, 1, (if value { 1u8 } else { 0u8 })),
            final(self).spec_medium() == value,
            final(self).spec_hard_force() == old(self).spec_hard_force(),
            final(self).spec_high() == old(self).spec_high(),
            final(self).spec_event_logging() == old(self).spec_event_logging(),
            final(self).spec_low() == old(self).spec_low(),
            final(self).spec_normal() == old(self).spec_normal(),
            final(self).spec__reserved_1() == old(self).spec__reserved_1(),
    {
        let x: u8 = if value { 1 } else { 0 };
        let ghost old_raw = self.0;
        proof {
            lemma_shift_table_u8();
            lemma_with_field_same_u8(old_raw, 2, 1, x);
            lemma_with_field_other_u8(old_raw, 2, 1, x, 0, 1);
            lemma_with_field_other_u8(old_raw, 2, 1, x, 1, 1);
            lemma_with_field_other_u8(old_raw, 2, 1, x, 3, 1);
            lemma_with_field_other_u8(old_raw, 2, 1, x, 4, 1);
            lemma_with_field_other_u8(old_raw, 2, 1, x, 5, 1);
            lemma_with_field_other_u8(old_raw, 2, 1, x, 6, 2);
        }
        self.0 = with_field_u8(self.0, 2, 1, x);
    }

    pub fn with_medium(self, value: bool) -> (r: Self)
        ensures
            r.spec_raw() == spec_with_field_u8(self.spec_raw(), 2, 1, (if value { 1u8 } else { 0u8 })),
            r.spec_medium() == value,
            r.spec_hard_force() == self.spec_hard_force(),
            r.spec_high() == self.spec_high(),
            r.spec_event_logging() == self.spec_event_logging(),
            r.spec_low() == self.spec_low(),
            r.spec_normal() == self.spec_normal(),
            r.spec__reserved_1() == self.spec__reserved_1(),
    {
        let mut r = self;
        r.set_medium(value);
        r
    }

    pub fn event_logging(&self) -> (r: bool)
        ensures
            r == self.spec_event_logging(),
    {
        field_u8(self.0, 3, 1) == 1
    }

    pub fn set_event_logging(&mut self, value: bool)
        ensures
            final(self).spec_raw() == spec_with_field_u8(old(self).spec_raw(), 3, 1, (if value { 1u8 } else { 0u8 })),
            final(self).spec_event_logging() == value,
            final(self).spec_hard_force() == old(self).spec_hard_force(),
            final(self).spec_high() == old(self).spec_high(),
            final(self).spec_medium() == old(self).spec_medium(),
            final(self).spec_low() == old(self).spec_low(),
            final(self).spec_normal() == old(self).spec_normal(),
            final(self).spec__reserved_1() == old(self).spec__reserved_1(),
    {
        let x: u8 = if value { 1 } else { 0 };
        let ghost old_raw = self.0;
        proof {
            lemma_shift_table_u8();
            lemma_with_field_same_u8(old_raw, 3, 1, x);
            lemma_with_field_other_u8(old_raw, 3, 1, x, 0, 1);
            lemma_with_field_other_u8(old_raw, 3, 1, x, 1, 1);
            lemma_with_field_other_u8(old_raw, 3, 1, x, 2, 1);
            lemma_with_field_other_u8(old_raw, 3, 1, x, 4, 1);
            lemma_with_field_other_u8(old_raw, 3, 1, x, 5, 1);
            lemma_with_field_other_u8(old_raw, 3, 1, x, 6, 2);
        }
        self.0 = with_field_u8(self.0, 3, 1, x);
    }

    pub fn with_event_logging(self, value: bool) -> (r: Self)
        ensures
            r.spec_raw() == spec_with_field_u8(self.spec_raw(), 3, 1, (if value { 1u8 } else { 0u8 })),
            r.spec_event_logging() == value,
            r.spec_hard_force() == self.spec_hard_force(),
            r.spec_high() == self.spec_high(),
            r.spec_medium() == self.spec_medium(),
            r.spec_low() == self.spec_low(),
            r.spec_normal() == self.spec_normal(),
            r.spec__reserved_1() == self.spec__reserved_1(),
    {
        let mut r = self;
        r.set_event_logging(value);
        r
    }

    pub fn low(&self) -> (r: bool)
        ensures
            r == self.spec_low(),
    {
        field_u8(self.0, 4, 1) == 1
    }

    pub fn set_low(&mut self, value: bool)
        ensures
            final(self).spec_raw() == spec_with_field_u8(old(self).spec_raw(), 4, 1, (if value { 1u8 } else { 0u8 })),
            final(self).spec_low() == value,
            final(self).spec_hard_force() == old(self).spec_hard_force(),
            final(self).spec_high() == old(self).spec_high(),
            final(self).spec_medium() == old(self).spec_medium(),
            final(self).spec_event_logging() == old(self).spec_event_logging(),
            final(self).spec_normal() == old(self).spec_normal(),
            final(self).spec__reserved_1() == old(self).spec__reserved_1(),
    {
        let x: u8 = if value { 1 } else { 0 };
        let ghost old_raw = self.0;
        proof {
            lemma_shift_table_u8();
            lemma_with_field_same_u8(old_raw, 4, 1, x);
            lemma_with_field_other_u8(old_raw, 4, 1, x, 0, 1);
            lemma_with_field_other_u8(old_raw, 4, 1, x, 1, 1);
            lemma_with_field_other_u8(old_raw, 4, 1, x, 2, 1);
            lemma_with_field_other_u8(old_raw, 4, 1, x, 3, 1);
            lemma_with_field_other_u8(old_raw, 4, 1, x, 5, 1);
            lemma_with_field_other_u8(old_raw, 4, 1, x, 6, 2);
        }
        self.0 = with_field_u8(self.0, 4, 1, x);
    }

    pub fn with_low(self, value: bool) -> (r: Self)
        ensures
            r.spec_raw() == spec_with_field_u8(self.spec_raw(), 4, 1, (if value { 1u8 } else { 0u8 })),
            r.spec_low() == value,
            r.spec_hard_force() == self.spec_hard_force(),
            r.spec_high() == self.spec_high(),
            r.spec_medium() == self.spec_medium(),
            r.spec_event_logging() == self.spec_event_logging(),
            r.spec_normal() == self.spec_normal(),
            r.spec__reserved_1() == self.spec__reserved_1(),
    {
        let mut r = self;
        r.set_low(value);
        r
    }

    pub fn normal(&self) -> (r: bool)
        ensures
            r == self.spec_normal(),
    {
        field_u8(self.0, 5, 1) == 1
    }

    pub fn set_normal(&mut self, value: bool)
        ensures
            final(self).spec_raw() == spec_with_field_u8(old(self).spec_raw(), 5, 1, (if value { 1u8 } else { 0u8 })),
            final(self).spec_normal() == value,
            final(self).spec_hard_force() == old(self).spec_hard_force(),
            final(self).spec_high() == old(self).spec_high(),
            final(self).spec_medium() == old(self).spec_medium(),
            final(self).spec_event_logging() == old(self).spec_event_logging(),
            final(self).spec_low() == old(self).spec_low(),
            final(self).spec__reserved_1() == old(self).spec__reserved_1(),
    {
        let x: u8 = if value { 1 } else { 0 };
        let ghost old_raw = self.0;
        proof {
            lemma_shift_table_u8();
            lemma_with_field_same_u8(old_raw, 5, 1, x);
            lemma_with_field_other_u8(old_raw, 5, 1, x, 0, 1);
            lemma_with_field_other_u8(old_raw, 5, 1, x, 1, 1);
            lemma_with_field_other_u8(old_raw, 5, 1, x, 2, 1);
            lemma_with_field_other_u8(old_raw, 5, 1, x, 3, 1);
            lemma_with_field_other_u8(old_raw, 5, 1, x, 4, 1);
            lemma_with_field_other_u8(old_raw, 5, 1, x, 6, 2);
        }
        self.0 = with_field_u8(self.0, 5, 1, x);
    }

    pub fn with_normal(self, value: bool) -> (r: Self)
        ensures
            r.spec_raw() == spec_with_field_u8(self.spec_raw(), 5, 1, (if value { 1u8 } else { 0u8 })),
            r.spec_normal() == value,
            r.spec_hard_force() == self.spec_hard_force(),
            r.spec_high() == self.spec_high(),
            r.spec_medium() == self.spec_medium(),
            r.spec_event_logging() == self.spec_event_logging(),
            r.spec_low() == self.spec_low(),
            r.spec__reserved_1() == self.spec__reserved_1(),
    {
        let mut r = self;
        r.set_normal(value);
        r
    }

    pub fn _reserved_1(&self) -> (r: u8)
        ensures
            r == self.spec__reserved_1(),
            r < 0x4,
    {
        proof {
            lemma_shift_table_u8();
        }
        field_u8(self.0, 6, 2)
    }

    pub fn set__reserved_1(&mut self, value: u8)
        requires
            value < 0x4,
        ensures
            final(self).spec_raw() == spec_with_field_u8(old(self).spec_raw(), 6, 2, value),
            final(self).spec__reserved_1() == value,
            final(self).spec_hard_force() == old(self).spec_hard_force(),
            final(self).spec_high() == old(self).spec_high(),
            final(self).spec_medium() == old(self).spec_medium(),
            final(self).spec_event_logging() == old(self).spec_event_logging(),
            final(self).spec_low() == old(self).spec_low(),
            final(self).spec_normal() == old(self).spec_normal(),
    {
        let x: u8 = value;
        let ghost old_raw = self.0;
        proof {
            lemma_shift_table_u8();
            lemma_with_field_same_u8(old_raw, 6, 2, x);
            lemma_with_field_other_u8(old_raw, 6, 2, x, 0, 1);
            lemma_with_field_other_u8(old_raw, 6, 2, x, 1, 1);
            lemma_with_field_other_u8(old_raw, 6, 2, x, 2, 1);
            lemma_with_field_other_u8(old_raw, 6, 2, x, 3, 1);
            lemma_with_field_other_u8(old_raw, 6, 2, x, 4, 1);
            lemma_with_field_other_u8(old_raw, 6, 2, x, 5, 1);
        }
        self.0 = with_field_u8(self.0, 6, 2, x);
    }

    pub fn with__reserved_1(self, value: u8) -> (r: Self)
        requires
            value < 0x4,
        ensures
            r.spec_raw() == spec_with_field_u8(self.spec_raw(), 6, 2, value),
            r.spec__reserved_1() == value,
            r.spec_hard_force() == self.spec_hard_force(),
            r.spec_high() == self.spec_high(),
            r.spec_medium() == self.spec_medium(),
            r.spec_event_logging() == self.spec_event_logging(),
            r.spec_low() == self.spec_low(),
            r.spec_normal() == self.spec_normal(),
    {
        let mut r = self;
        r.set__reserved_1(value);
        r
    }

    /// The bits that have a meaning; the others are reserved.
    pub const VALID_BITS: u64 = 0x3f;

    /// Whether VALUE leaves all reserved bits clear.
    pub fn all_reserved_bits_are_unused(value: u64) -> (r: bool)
        ensures
            r == (value & !0x3fu64 == 0),
    {
        value & !Self::VALID_BITS == 0
    }

    pub fn from_u64(value: u64) -> (r: Option<Self>)
        ensures
            r is Some <==> (value & !0x3fu64 == 0 && value <= 0xff),
            r matches Some(x) ==> x.spec_raw() == value,
    {
        if Self::all_reserved_bits_are_unused(value) {
            if value <= 0xff {
                Some(PriorityLevels(value as u8))
            } else {
                None
            }
        } else {
            None
        }
    }

    pub fn from_i64(value: i64) -> (r: Option<Self>)
        ensures
            r is Some <==> (value >= 0 && (value as u64) & !0x3fu64 == 0 && value <= 0xff),
            r matches Some(x) ==> x.spec_raw() == value,
    {
        if value >= 0 {
            Self::from_u64(value as u64)
        } else {
            None
        }
    }

    pub fn to_u64(&self) -> (r: Option<u64>)
        ensures
            r == Some(self.spec_raw() as u64),
    {
        Some(self.0 as u64)
    }

    pub fn to_i64(&self) -> (r: Option<i64>)
        ensures
            r == Some(self.spec_raw() as i64),
    {
        Some(self.0 as i64)
    }

}

/// The board instances that an entry applies to (one bit each).
#[derive(Debug, Clone, Copy, PartialEq, Eq, Structural)]
pub struct BoardInstances(u16);

impl BoardInstances {
    /// The packed bits.
    pub closed spec fn spec_raw(self) -> u16 {
        self.0
    }

    /// The value with the given packed bits.
    pub closed spec fn spec_from_raw(raw: u16) -> Self {
        BoardInstances(raw)
    }

    /// The packed bits determine the value, and any packed bits make a value.
    pub proof fn lemma_raw(x: Self, raw: u16)
        ensures
            Self::spec_from_raw(raw).spec_raw() == raw,
            Self::spec_from_raw(x.spec_raw()) == x,
    {
    }

    pub open spec fn spec_instance_0(self) -> bool {
        spec_field_u16(self.spec_raw(), 0, 1) == 1
    }

    pub open spec fn spec_instance_1(self) -> bool {
        spec_field_u16(self.spec_raw(), 1, 1) == 1
    }

    pub open spec fn spec_instance_2(self) -> bool {
        spec_field_u16(self.spec_raw(), 2, 1) == 1
    }

    pub open spec fn spec_instance_3(self) -> bool {
        spec_field_u16(self.spec_raw(), 3, 1) == 1
    }

    pub open spec fn spec_instance_4(self) -> bool {
        spec_field_u16(self.spec_raw(), 4, 1) == 1
    }

    pub open spec fn spec_instance_5(self) -> bool {
        spec_field_u16(self.spec_raw(), 5, 1) == 1
    }

    pub open spec fn spec_instance_6(self) -> bool {
        spec_field_u16(self.spec_raw(), 6, 1) == 1
    }

    pub open spec fn spec_instance_7(self) -> bool {
        spec_field_u16(self.spec_raw(), 7, 1) == 1
    }

    pub open spec fn spec_instance_8(self) -> bool {
        spec_field_u16(self.spec_raw(), 8, 1) == 1
    }

    pub open spec fn spec_instance_9(self) -> bool {
        spec_field_u16(self.spec_raw(), 9, 1) == 1
    }

    pub open spec fn spec_instance_10(self) -> bool {
        spec_field_u16(self.spec_raw(), 10, 1) == 1
    }

    pub open spec fn spec_instance_11(self) -> bool {
        spec_field_u16(self.spec_raw(), 11, 1) == 1
    }

    pub open spec fn spec_instance_12(self) -> bool {
        spec_field_u16(self.spec_raw(), 12, 1) == 1
    }

    pub open spec fn spec_instance_13(self) -> bool {
        spec_field_u16(self.spec_raw(), 13, 1) == 1
    }

    pub open spec fn spec_instance_14(self) -> bool {
        spec_field_u16(self.spec_raw(), 14, 1) == 1
    }

    pub open spec fn spec_instance_15(self) -> bool {
        spec_field_u16(self.spec_raw(), 15, 1) == 1
    }

    /// All bits clear.
    pub fn new() -> (r: Self)
        ensures
            r.spec_raw() == 0,
    {
        BoardInstances(0)
    }

    /// The value with the given packed bits.
    pub fn from_raw(raw: u16) -> (r: Self)
        ensures
            r.spec_raw() == raw,
            r == Self::spec_from_raw(raw),
    {
        BoardInstances(raw)
    }

    /// The packed bits.
    pub fn into_raw(self) -> (r: u16)
        ensures
            r == self.spec_raw(),
    {
        self.0
    }

    pub fn instance_0(&self) -> (r: bool)
        ensures
            r == self.spec_instance_0(),
    {
        field_u16(self.0, 0, 1) == 1
    }

    pub fn set_instance_0(&mut self, value: bool)
        ensures
            final(self).spec_raw() == spec_with_field_u16(old(self).spec_raw(), 0, 1, (if value { 1u16 } else { 0u16 })),
            final(self).spec_instance_0() == value,
            final(self).spec_instance_1() == old(self).spec_instance_1(),
            final(self).spec_instance_2() == old(self).spec_instance_2(),
            final(self).spec_instance_3() == old(self).spec_instance_3(),
            final(self).spec_instance_4() == old(self).spec_instance_4(),
            final(self).spec_instance_5() == old(self).spec_instance_5(),
            final(self).spec_instance_6() == old(self).spec_instance_6(),
            final(self).spec_instance_7() == old(self).spec_instance_7(),
            final(self).spec_instance_8() == old(self).spec_instance_8(),
            final(self).spec_instance_9() == old(self).spec_instance_9(),
            final(self).spec_instance_10() == old(self).spec_instance_10(),
            final(self).spec_instance_11() == old(self).spec_instance_11(),
            final(self).spec_instance_12() == old(self).spec_instance_12(),
            final(self).spec_instance_13() == old(self).spec_instance_13(),
            final(self).spec_instance_14() == old(self).spec_instance_14(),
            final(self).spec_instance_15() == old(self).spec_instance_15(),
    {
        let x: u16 = if value { 1 } else { 0 };
        let ghost old_raw = self.0;
        proof {
            lemma_shift_table_u16();
            lemma_with_field_same_u16(old_raw, 0, 1, x);
            lemma_with_field_other_u16(old_raw, 0, 1, x, 1, 1);
            lemma_with_field_other_u16(old_raw, 0, 1, x, 2, 1);
            lemma_with_field_other_u16(old_raw, 0, 1, x, 3, 1);
            lemma_with_field_other_u16(old_raw, 0, 1, x, 4, 1);
            lemma_with_field_other_u16(old_raw, 0, 1, x, 5, 1);
            lemma_with_field_other_u16(old_raw, 0, 1, x, 6, 1);
            lemma_with_field_other_u16(old_raw, 0, 1, x, 7, 1);
            lemma_with_field_other_u16(old_raw, 0, 1, x, 8, 1);
            lemma_with_field_other_u16(old_raw, 0, 1, x, 9, 1);
            lemma_with_field_other_u16(old_raw, 0, 1, x, 10, 1);
            lemma_with_field_other_u16(old_raw, 0, 1, x, 11, 1);
            lemma_with_field_other_u16(old_raw, 0, 1, x, 12, 1);
            lemma_with_field_other_u16(old_raw, 0, 1, x, 13, 1);
            lemma_with_field_other_u16(old_raw, 0, 1, x, 14, 1);
            lemma_with_field_other_u16(old_raw, 0, 1, x, 15, 1);
        }
        self.0 = with_field_u16(self.0, 0, 1, x);
    }

    pub fn with_instance_0(self, value: bool) -> (r: Self)
        ensures
            r.spec_raw() == spec_with_field_u16(self.spec_raw(), 0, 1, (if value { 1u16 } else { 0u16 })),
            r.spec_instance_0() == value,
            r.spec_instance_1() == self.spec_instance_1(),
            r.spec_instance_2() == self.spec_instance_2(),
            r.spec_instance_3() == self.spec_instance_3(),
            r.spec_instance_4() == self.spec_instance_4(),
            r.spec_instance_5() == self.spec_instance_5(),
            r.spec_instance_6() == self.spec_instance_6(),
            r.spec_instance_7() == self.spec_instance_7(),
            r.spec_instance_8() == self.spec_instance_8(),
            r.spec_instance_9() == self.spec_instance_9(),
            r.spec_instance_10() == self.spec_instance_10(),
            r.spec_instance_11() == self.spec_instance_11(),
            r.spec_instance_12() == self.spec_instance_12(),
            r.spec_instance_13() == self.spec_instance_13(),
            r.spec_instance_14() == self.spec_instance_14(),
            r.spec_instance_15() == self.spec_instance_15(),
    {
        let mut r = self;
        r.set_instance_0(value);
        r
    }

    pub fn instance_1(&self) -> (r: bool)
        ensures
            r == self.spec_instance_1(),
    {
        field_u16(self.0, 1, 1) == 1
    }

    pub fn set_instance_1(&mut self, value: bool)
        ensures
            final(self).spec_raw() == spec_with_field_u16(old(self).spec_raw(), 1, 1, (if value { 1u16 } else { 0u16 })),
            final(self).spec_instance_1() == value,
            final(self).spec_instance_0() == old(self).spec_instance_0(),
            final(self).spec_instance_2() == old(self).spec_instance_2(),
            final(self).spec_instance_3() == old(self).spec_instance_3(),
            final(self).spec_instance_4() == old(self).spec_instance_4(),
            final(self).spec_instance_5() == old(self).spec_instance_5(),
            final(self).spec_instance_6() == old(self).spec_instance_6(),
            final(self).spec_instance_7() == old(self).spec_instance_7(),
            final(self).spec_instance_8() == old(self).spec_instance_8(),
            final(self).spec_instance_9() == old(self).spec_instance_9(),
            final(self).spec_instance_10() == old(self).spec_instance_10(),
            final(self).spec_instance_11() == old(self).spec_instance_11(),
            final(self).spec_instance_12() == old(self).spec_instance_12(),
            final(self).spec_instance_13() == old(self).spec_instance_13(),
            final(self).spec_instance_14() == old(self).spec_instance_14(),
            final(self).spec_instance_15() == old(self).spec_instance_15(),
    {
        let x: u16 = if value { 1 } else { 0 };
        let ghost old_raw = self.0;
        proof {
            lemma_shift_table_u16();
            lemma_with_field_same_u16(old_raw, 1, 1, x);
            lemma_with_field_other_u16(old_raw, 1, 1, x, 0, 1);
            lemma_with_field_other_u16(old_raw, 1, 1, x, 2, 1);
            lemma_with_field_other_u16(old_raw, 1, 1, x, 3, 1);
            lemma_with_field_other_u16(old_raw, 1, 1, x, 4, 1);
            lemma_with_field_other_u16(old_raw, 1, 1, x, 5, 1);
            lemma_with_field_other_u16(old_raw, 1, 1, x, 6, 1);
            lemma_with_field_other_u16(old_raw, 1, 1, x, 7, 1);
            lemma_with_field_other_u16(old_raw, 1, 1, x, 8, 1);
            lemma_with_field_other_u16(old_raw, 1, 1, x, 9, 1);
            lemma_with_field_other_u16(old_raw, 1, 1, x, 10, 1);
            lemma_with_field_other_u16(old_raw, 1, 1, x, 11, 1);
            lemma_with_field_other_u16(old_raw, 1, 1, x, 12, 1);
            lemma_with_field_other_u16(old_raw, 1, 1, x, 13, 1);
            lemma_with_field_other_u16(old_raw, 1, 1, x, 14, 1);
            lemma_with_field_other_u16(old_raw, 1, 1, x, 15, 1);
        }
        self.0 = with_field_u16(self.0, 1, 1, x);
    }

    pub fn with_instance_1(self, value: bool) -> (r: Self)
        ensures
            r.spec_raw() == spec_with_field_u16(self.spec_raw(), 1, 1, (if value { 1u16 } else { 0u16 })),
            r.spec_instance_1() == value,
            r.spec_instance_0() == self.spec_instance_0(),
            r.spec_instance_2() == self.spec_instance_2(),
            r.spec_instance_3() == self.spec_instance_3(),
            r.spec_instance_4() == self.spec_instance_4(),
            r.spec_instance_5() == self.spec_instance_5(),
            r.spec_instance_6() == self.spec_instance_6(),
            r.spec_instance_7() == self.spec_instance_7(),
            r.spec_instance_8() == self.spec_instance_8(),
            r.spec_instance_9() == self.spec_instance_9(),
            r.spec_instance_10() == self.spec_instance_10(),
            r.spec_instance_11() == self.spec_instance_11(),
            r.spec_instance_12() == self.spec_instance_12(),
            r.spec_instance_13() == self.spec_instance_13(),
            r.spec_instance_14() == self.spec_instance_14(),
            r.spec_instance_15() == self.spec_instance_15(),
    {
        let mut r = self;
        r.set_instance_1(value);
        r
    }

    pub fn instance_2(&self) -> (r: bool)
        ensures
            r == self.spec_instance_2(),
    {
        field_u16(self.0, 2, 1) == 1
    }

    pub fn set_instance_2(&mut self, value: bool)
        ensures
            final(self).spec_raw() == spec_with_field_u16(old(self).spec_raw(), 2, 1, (if value { 1u16 } else { 0u16 })),
            final(self).spec_instance_2() == value,
            final(self).spec_instance_0() == old(self).spec_instance_0(),
            final(self).spec_instance_1() == old(self).spec_instance_1(),
            final(self).spec_instance_3() == old(self).spec_instance_3(),
            final(self).spec_instance_4() == old(self).spec_instance_4(),
            final(self).spec_instance_5() == old(self).spec_instance_5(),
            final(self).spec_instance_6() == old(self).spec_instance_6(),
            final(self).spec_instance_7() == old(self).spec_instance_7(),
            final(self).spec_instance_8() == old(self).spec_instance_8(),
            final(self).spec_instance_9() == old(self).spec_instance_9(),
            final(self).spec_instance_10() == old(self).spec_instance_10(),
            final(self).spec_instance_11() == old(self).spec_instance_11(),
            final(self).spec_instance_12() == old(self).spec_instance_12(),
            final(self).spec_instance_13() == old(self).spec_instance_13(),
            final(self).spec_instance_14() == old(self).spec_instance_14(),
            final(self).spec_instance_15() == old(self).spec_instance_15(),
    {
        let x: u16 = if value { 1 } else { 0 };
        let ghost old_raw = self.0;
        proof {
            lemma_shift_table_u16();
            lemma_with_field_same_u16(old_raw, 2, 1, x);
            lemma_with_field_other_u16(old_raw, 2, 1, x, 0, 1);
            lemma_with_field_other_u16(old_raw, 2, 1, x, 1, 1);
            lemma_with_field_other_u16(old_raw, 2, 1, x, 3, 1);
            lemma_with_field_other_u16(old_raw, 2, 1, x, 4, 1);
            lemma_with_field_other_u16(old_raw, 2, 1, x, 5, 1);
            lemma_with_field_other_u16(old_raw, 2, 1, x, 6, 1);
            lemma_with_field_other_u16(old_raw, 2, 1, x, 7, 1);
            lemma_with_field_other_u16(old_raw, 2, 1, x, 8, 1);
            lemma_with_field_other_u16(old_raw, 2, 1, x, 9, 1);
            lemma_with_field_other_u16(old_raw, 2, 1, x, 10, 1);
            lemma_with_field_other_u16(old_raw, 2, 1, x, 11, 1);
            lemma_with_field_other_u16(old_raw, 2, 1, x, 12, 1);
            lemma_with_field_other_u16(old_raw, 2, 1, x, 13, 1);
            lemma_with_field_other_u16(old_raw, 2, 1, x, 14, 1);
            lemma_with_field_other_u16(old_raw, 2, 1, x, 15, 1);
        }
        self.0 = with_field_u16(self.0, 2, 1, x);
    }

    pub fn with_instance_2(self, value: bool) -> (r: Self)
        ensures
            r.spec_raw() == spec_with_field_u16(self.spec_raw(), 2, 1, (if value { 1u16 } else { 0u16 })),
            r.spec_instance_2() == value,
            r.spec_instance_0() == self.spec_instance_0(),
            r.spec_instance_1() == self.spec_instance_1(),
            r.spec_instance_3() == self.spec_instance_3(),
            r.spec_instance_4() == self.spec_instance_4(),
            r.spec_instance_5() == self.spec_instance_5(),
            r.spec_instance_6() == self.spec_instance_6(),
            r.spec_instance_7() == self.spec_instance_7(),
            r.spec_instance_8() == self.spec_instance_8(),
            r.spec_instance_9() == self.spec_instance_9(),
            r.spec_instance_10() == self.spec_instance_10(),
            r.spec_instance_11() == self.spec_instance_11(),
            r.spec_instance_12() == self.spec_instance_12(),
            r.spec_instance_13() == self.spec_instance_13(),
            r.spec_instance_14() == self.spec_instance_14(),
            r.spec_instance_15() == self.spec_instance_15(),
    {
        let mut r = self;
        r.set_instance_2(value);
        r
    }

    pub fn instance_3(&self) -> (r: bool)
        ensures
            r == self.spec_instance_3(),
    {
        field_u16(self.0, 3, 1) == 1
    }

    pub fn set_instance_3(&mut self, value: bool)
        ensures
            final(self).spec_raw() == spec_with_field_u16(old(self).spec_raw(), 3, 1, (if value { 1u16 } else { 0u16 })),
            final(self).spec_instance_3() == value,
            final(self).spec_instance_0() == old(self).spec_instance_0(),
            final(self).spec_instance_1() == old(self).spec_instance_1(),
            final(self).spec_instance_2() == old(self).spec_instance_2(),
            final(self).spec_instance_4() == old(self).spec_instance_4(),
            final(self).spec_instance_5() == old(self).spec_instance_5(),
            final(self).spec_instance_6() == old(self).spec_instance_6(),
            final(self).spec_instance_7() == old(self).spec_instance_7(),
            final(self).spec_instance_8() == old(self).spec_instance_8(),
            final(self).spec_instance_9() == old(self).spec_instance_9(),
            final(self).spec_instance_10() == old(self).spec_instance_10(),
            final(self).spec_instance_11() == old(self).spec_instance_11(),
            final(self).spec_instance_12() == old(self).spec_instance_12(),
            final(self).spec_instance_13() == old(self).spec_instance_13(),
            final(self).spec_instance_14() == old(self).spec_instance_14(),
            final(self).spec_instance_15() == old(self).spec_instance_15(),
    {
        let x: u16 = if value { 1 } else { 0 };
        let ghost old_raw = self.0;
        proof {
            lemma_shift_table_u16();
            lemma_with_field_same_u16(old_raw, 3, 1, x);
            lemma_with_field_other_u16(old_raw, 3, 1, x, 0, 1);
            lemma_with_field_other_u16(old_raw, 3, 1, x, 1, 1);
            lemma_with_field_other_u16(old_raw, 3, 1, x, 2, 1);
            lemma_with_field_other_u16(old_raw, 3, 1, x, 4, 1);
            lemma_with_field_other_u16(old_raw, 3, 1, x, 5, 1);
            lemma_with_field_other_u16(old_raw, 3, 1, x, 6, 1);
            lemma_with_field_other_u16(old_raw, 3, 1, x, 7, 1);
            lemma_with_field_other_u16(old_raw, 3, 1, x, 8, 1);
            lemma_with_field_other_u16(old_raw, 3, 1, x, 9, 1);
            lemma_with_field_other_u16(old_raw, 3, 1, x, 10, 1);
            lemma_with_field_other_u16(old_raw, 3, 1, x, 11, 1);
            lemma_with_field_other_u16(old_raw, 3, 1, x, 12, 1);
            lemma_with_field_other_u16(old_raw, 3, 1, x, 13, 1);
            lemma_with_field_other_u16(old_raw, 3, 1, x, 14, 1);
            lemma_with_field_other_u16(old_raw, 3, 1, x, 15, 1);
        }
        self.0 = with_field_u16(self.0, 3, 1, x);
    }

    pub fn with_instance_3(self, value: bool) -> (r: Self)
        ensures
            r.spec_raw() == spec_with_field_u16(self.spec_raw(), 3, 1, (if value { 1u16 } else { 0u16 })),
            r.spec_instance_3() == value,
            r.spec_instance_0() == self.spec_instance_0(),
            r.spec_instance_1() == self.spec_instance_1(),
            r.spec_instance_2() == self.spec_instance_2(),
            r.spec_instance_4() == self.spec_instance_4(),
            r.spec_instance_5() == self.spec_instance_5(),
            r.spec_instance_6() == self.spec_instance_6(),
            r.spec_instance_7() == self.spec_instance_7(),
            r.spec_instance_8() == self.spec_instance_8(),
            r.spec_instance_9() == self.spec_instance_9(),
            r.spec_instance_10() == self.spec_instance_10(),
            r.spec_instance_11() == self.spec_instance_11(),
            r.spec_instance_12() == self.spec_instance_12(),
            r.spec_instance_13() == self.spec_instance_13(),
            r.spec_instance_14() == self.spec_instance_14(),
            r.spec_instance_15() == self.spec_instance_15(),
    {
        let mut r = self;
        r.set_instance_3(value);
        r
    }

    pub fn instance_4(&self) -> (r: bool)
        ensures
            r == self.spec_instance_4(),
    {
        field_u16(self.0, 4, 1) == 1
    }

    pub fn set_instance_4(&mut self, value: bool)
        ensures
            final(self).spec_raw() == spec_with_field_u16(old(self).spec_raw(), 4, 1, (if value { 1u16 } else { 0u16 })),
            final(self).spec_instance_4() == value,
            final(self).spec_instance_0() == old(self).spec_instance_0(),
            final(self).spec_instance_1() == old(self).spec_instance_1(),
            final(self).spec_instance_2() == old(self).spec_instance_2(),
            final(self).spec_instance_3() == old(self).spec_instance_3(),
            final(self).spec_instance_5() == old(self).spec_instance_5(),
            final(self).spec_instance_6() == old(self).spec_instance_6(),
            final(self).spec_instance_7() == old(self).spec_instance_7(),
            final(self).spec_instance_8() == old(self).spec_instance_8(),
            final(self).spec_instance_9() == old(self).spec_instance_9(),
            final(self).spec_instance_10() == old(self).spec_instance_10(),
            final(self).spec_instance_11() == old(self).spec_instance_11(),
            final(self).spec_instance_12() == old(self).spec_instance_12(),
            final(self).spec_instance_13() == old(self).spec_instance_13(),
            final(self).spec_instance_14() == old(self).spec_instance_14(),
            final(self).spec_instance_15() == old(self).spec_instance_15(),
    {
        let x: u16 = if value { 1 } else { 0 };
        let ghost old_raw = self.0;
        proof {
            lemma_shift_table_u16();
            lemma_with_field_same_u16(old_raw, 4, 1, x);
            lemma_with_field_other_u16(old_raw, 4, 1, x, 0, 1);
            lemma_with_field_other_u16(old_raw, 4, 1, x, 1, 1);
            lemma_with_field_other_u16(old_raw, 4, 1, x, 2, 1);
            lemma_with_field_other_u16(old_raw, 4, 1, x, 3, 1);
            lemma_with_field_other_u16(old_raw, 4, 1, x, 5, 1);
            lemma_with_field_other_u16(old_raw, 4, 1, x, 6, 1);
            lemma_with_field_other_u16(old_raw, 4, 1, x, 7, 1);
            lemma_with_field_other_u16(old_raw, 4, 1, x, 8, 1);
            lemma_with_field_other_u16(old_raw, 4, 1, x, 9, 1);
            lemma_with_field_other_u16(old_raw, 4, 1, x, 10, 1);
            lemma_with_field_other_u16(old_raw, 4, 1, x, 11, 1);
            lemma_with_field_other_u16(old_raw, 4, 1, x, 12, 1);
            lemma_with_field_other_u16(old_raw, 4, 1, x, 13, 1);
            lemma_with_field_other_u16(old_raw, 4, 1, x, 14, 1);
            lemma_with_field_other_u16(old_raw, 4, 1, x, 15, 1);
        }
        self.0 = with_field_u16(self.0, 4, 1, x);
    }

    pub fn with_instance_4(self, value: bool) -> (r: Self)
        ensures
            r.spec_raw() == spec_with_field_u16(self.spec_raw(), 4, 1, (if value { 1u16 } else { 0u16 })),
            r.spec_instance_4() == value,
            r.spec_instance_0() == self.spec_instance_0(),
            r.spec_instance_1() == self.spec_instance_1(),
            r.spec_instance_2() == self.spec_instance_2(),
            r.spec_instance_3() == self.spec_instance_3(),
            r.spec_instance_5() == self.spec_instance_5(),
            r.spec_instance_6() == self.spec_instance_6(),
            r.spec_instance_7() == self.spec_instance_7(),
            r.spec_instance_8() == self.spec_instance_8(),
            r.spec_instance_9() == self.spec_instance_9(),
            r.spec_instance_10() == self.spec_instance_10(),
            r.spec_instance_11() == self.spec_instance_11(),
            r.spec_instance_12() == self.spec_instance_12(),
            r.spec_instance_13() == self.spec_instance_13(),
            r.spec_instance_14() == self.spec_instance_14(),
            r.spec_instance_15() == self.spec_instance_15(),
    {
        let mut r = self;
        r.set_instance_4(value);
        r
    }

    pub fn instance_5(&self) -> (r: bool)
        ensures
            r == self.spec_instance_5(),
    {
        field_u16(self.0, 5, 1) == 1
    }

    pub fn set_instance_5(&mut self, value: bool)
        ensures
            final(self).spec_raw() == spec_with_field_u16(old(self).spec_raw(), 5, 1, (if value { 1u16 } else { 0u16 })),
            final(self).spec_instance_5() == value,
            final(self).spec_instance_0() == old(self).spec_instance_0(),
            final(self).spec_instance_1() == old(self).spec_instance_1(),
            final(self).spec_instance_2() == old(self).spec_instance_2(),
            final(self).spec_instance_3() == old(self).spec_instance_3(),
            final(self).spec_instance_4() == old(self).spec_instance_4(),
            final(self).spec_instance_6() == old(self).spec_instance_6(),
            final(self).spec_instance_7() == old(self).spec_instance_7(),
            final(self).spec_instance_8() == old(self).spec_instance_8(),
            final(self).spec_instance_9() == old(self).spec_instance_9(),
            final(self).spec_instance_10() == old(self).spec_instance_10(),
            final(self).spec_instance_11() == old(self).spec_instance_11(),
            final(self).spec_instance_12() == old(self).spec_instance_12(),
            final(self).spec_instance_13() == old(self).spec_instance_13(),
            final(self).spec_instance_14() == old(self).spec_instance_14(),
            final(self).spec_instance_15() == old(self).spec_instance_15(),
    {
        let x: u16 = if value { 1 } else { 0 };
        let ghost old_raw = self.0;
        proof {
            lemma_shift_table_u16();
            lemma_with_field_same_u16(old_raw, 5, 1, x);
            lemma_with_field_other_u16(old_raw, 5, 1, x, 0, 1);
            lemma_with_field_other_u16(old_raw, 5, 1, x, 1, 1);
            lemma_with_field_other_u16(old_raw, 5, 1, x, 2, 1);
            lemma_with_field_other_u16(old_raw, 5, 1, x, 3, 1);
            lemma_with_field_other_u16(old_raw, 5, 1, x, 4, 1);
            lemma_with_field_other_u16(old_raw, 5, 1, x, 6, 1);
            lemma_with_field_other_u16(old_raw, 5, 1, x, 7, 1);
            lemma_with_field_other_u16(old_raw, 5, 1, x, 8, 1);
            lemma_with_field_other_u16(old_raw, 5, 1, x, 9, 1);
            lemma_with_field_other_u16(old_raw, 5, 1, x, 10, 1);
            lemma_with_field_other_u16(old_raw, 5, 1, x, 11, 1);
            lemma_with_field_other_u16(old_raw, 5, 1, x, 12, 1);
            lemma_with_field_other_u16(old_raw, 5, 1, x, 13, 1);
            lemma_with_field_other_u16(old_raw, 5, 1, x, 14, 1);
            lemma_with_field_other_u16(old_raw, 5, 1, x, 15, 1);
        }
        self.0 = with_field_u16(self.0, 5, 1, x);
    }

    pub fn with_instance_5(self, value: bool) -> (r: Self)
        ensures
            r.spec_raw() == spec_with_field_u16(self.spec_raw(), 5, 1, (if value { 1u16 } else { 0u16 })),
            r.spec_instance_5() == value,
            r.spec_instance_0() == self.spec_instance_0(),
            r.spec_instance_1() == self.spec_instance_1(),
            r.spec_instance_2() == self.spec_instance_2(),
            r.spec_instance_3() == self.spec_instance_3(),
            r.spec_instance_4() == self.spec_instance_4(),
            r.spec_instance_6() == self.spec_instance_6(),
            r.spec_instance_7() == self.spec_instance_7(),
            r.spec_instance_8() == self.spec_instance_8(),
            r.spec_instance_9() == self.spec_instance_9(),
            r.spec_instance_10() == self.spec_instance_10(),
            r.spec_instance_11() == self.spec_instance_11(),
            r.spec_instance_12() == self.spec_instance_12(),
            r.spec_instance_13() == self.spec_instance_13(),
            r.spec_instance_14() == self.spec_instance_14(),
            r.spec_instance_15() == self.spec_instance_15(),
    {
        let mut r = self;
        r.set_instance_5(value);
        r
    }

    pub fn instance_6(&self) -> (r: bool)
        ensures
            r == self.spec_instance_6(),
    {
        field_u16(self.0, 6, 1) == 1
    }

    pub fn set_instance_6(&mut self, value: bool)
        ensures
            final(self).spec_raw() == spec_with_field_u16(old(self).spec_raw(), 6, 1, (if value { 1u16 } else { 0u16 })),
            final(self).spec_instance_6() == value,
            final(self).spec_instance_0() == old(self).spec_instance_0(),
            final(self).spec_instance_1() == old(self).spec_instance_1(),
            final(self).spec_instance_2() == old(self).spec_instance_2(),
            final(self).spec_instance_3() == old(self).spec_instance_3(),
            final(self).spec_instance_4() == old(self).spec_instance_4(),
            final(self).spec_instance_5() == old(self).spec_instance_5(),
            final(self).spec_instance_7() == old(self).spec_instance_7(),
            final(self).spec_instance_8() == old(self).spec_instance_8(),
            final(self).spec_instance_9() == old(self).spec_instance_9(),
            final(self).spec_instance_10() == old(self).spec_instance_10(),
            final(self).spec_instance_11() == old(self).spec_instance_11(),
            final(self).spec_instance_12() == old(self).spec_instance_12(),
            final(self).spec_instance_13() == old(self).spec_instance_13(),
            final(self).spec_instance_14() == old(self).spec_instance_14(),
            final(self).spec_instance_15() == old(self).spec_instance_15(),
    {
        let x: u16 = if value { 1 } else { 0 };
        let ghost old_raw = self.0;
        proof {
            lemma_shift_table_u16();
            lemma_with_field_same_u16(old_raw, 6, 1, x);
            lemma_with_field_other_u16(old_raw, 6, 1, x, 0, 1);
            lemma_with_field_other_u16(old_raw, 6, 1, x, 1, 1);
            lemma_with_field_other_u16(old_raw, 6, 1, x, 2, 1);
            lemma_with_field_other_u16(old_raw, 6, 1, x, 3, 1);
            lemma_with_field_other_u16(old_raw, 6, 1, x, 4, 1);
            lemma_with_field_other_u16(old_raw, 6, 1, x, 5, 1);
            lemma_with_field_other_u16(old_raw, 6, 1, x, 7, 1);
            lemma_with_field_other_u16(old_raw, 6, 1, x, 8, 1);
            lemma_with_field_other_u16(old_raw, 6, 1, x, 9, 1);
            lemma_with_field_other_u16(old_raw, 6, 1, x, 10, 1);
            lemma_with_field_other_u16(old_raw, 6, 1, x, 11, 1);
            lemma_with_field_other_u16(old_raw, 6, 1, x, 12, 1);
            lemma_with_field_other_u16(old_raw, 6, 1, x, 13, 1);
            lemma_with_field_other_u16(old_raw, 6, 1, x, 14, 1);
            lemma_with_field_other_u16(old_raw, 6, 1, x, 15, 1);
        }
        self.0 = with_field_u16(self.0, 6, 1, x);
    }

    pub fn with_instance_6(self, value: bool) -> (r: Self)
        ensures
            r.spec_raw() == spec_with_field_u16(self.spec_raw(), 6, 1, (if value { 1u16 } else { 0u16 })),
            r.spec_instance_6() == value,
            r.spec_instance_0() == self.spec_instance_0(),
            r.spec_instance_1() == self.spec_instance_1(),
            r.spec_instance_2() == self.spec_instance_2(),
            r.spec_instance_3() == self.spec_instance_3(),
            r.spec_instance_4() == self.spec_instance_4(),
            r.spec_instance_5() == self.spec_instance_5(),
            r.spec_instance_7() == self.spec_instance_7(),
            r.spec_instance_8() == self.spec_instance_8(),
            r.spec_instance_9() == self.spec_instance_9(),
            r.spec_instance_10() == self.spec_instance_10(),
            r.spec_instance_11() == self.spec_instance_11(),
            r.spec_instance_12() == self.spec_instance_12(),
            r.spec_instance_13() == self.spec_instance_13(),
            r.spec_instance_14() == self.spec_instance_14(),
            r.spec_instance_15() == self.spec_instance_15(),
    {
        let mut r = self;
        r.set_instance_6(value);
        r
    }

    pub fn instance_7(&self) -> (r: bool)
        ensures
            r == self.spec_instance_7(),
    {
        field_u16(self.0, 7, 1) == 1
    }

    pub fn set_instance_7(&mut self, value: bool)
        ensures
            final(self).spec_raw() == spec_with_field_u16(old(self).spec_raw(), 7, 1, (if value { 1u16 } else { 0u16 })),
            final(self).spec_instance_7() == value,
            final(self).spec_instance_0() == old(self).spec_instance_0(),
            final(self).spec_instance_1() == old(self).spec_instance_1(),
            final(self).spec_instance_2() == old(self).spec_instance_2(),
            final(self).spec_instance_3() == old(self).spec_instance_3(),
            final(self).spec_instance_4() == old(self).spec_instance_4(),
            final(self).spec_instance_5() == old(self).spec_instance_5(),
            final(self).spec_instance_6() == old(self).spec_instance_6(),
            final(self).spec_instance_8() == old(self).spec_instance_8(),
            final(self).spec_instance_9() == old(self).spec_instance_9(),
            final(self).spec_instance_10() == old(self).spec_instance_10(),
            final(self).spec_instance_11() == old(self).spec_instance_11(),
            final(self).spec_instance_12() == old(self).spec_instance_12(),
            final(self).spec_instance_13() == old(self).spec_instance_13(),
            final(self).spec_instance_14() == old(self).spec_instance_14(),
            final(self).spec_instance_15() == old(self).spec_instance_15(),
    {
        let x: u16 = if value { 1 } else { 0 };
        let ghost old_raw = self.0;
        proof {
            lemma_shift_table_u16();
            lemma_with_field_same_u16(old_raw, 7, 1, x);
            lemma_with_field_other_u16(old_raw, 7, 1, x, 0, 1);
            lemma_with_field_other_u16(old_raw, 7, 1, x, 1, 1);
            lemma_with_field_other_u16(old_raw, 7, 1, x, 2, 1);
            lemma_with_field_other_u16(old_raw, 7, 1, x, 3, 1);
            lemma_with_field_other_u16(old_raw, 7, 1, x, 4, 1);
            lemma_with_field_other_u16(old_raw, 7, 1, x, 5, 1);
            lemma_with_field_other_u16(old_raw, 7, 1, x, 6, 1);
            lemma_with_field_other_u16(old_raw, 7, 1, x, 8, 1);
            lemma_with_field_other_u16(old_raw, 7, 1, x, 9, 1);
            lemma_with_field_other_u16(old_raw, 7, 1, x, 10, 1);
            lemma_with_field_other_u16(old_raw, 7, 1, x, 11, 1);
            lemma_with_field_other_u16(old_raw, 7, 1, x, 12, 1);
            lemma_with_field_other_u16(old_raw, 7, 1, x, 13, 1);
            lemma_with_field_other_u16(old_raw, 7, 1, x, 14, 1);
            lemma_with_field_other_u16(old_raw, 7, 1, x, 15, 1);
        }
        self.0 = with_field_u16(self.0, 7, 1, x);
    }

    pub fn with_instance_7(self, value: bool) -> (r: Self)
        ensures
            r.spec_raw() == spec_with_field_u16(self.spec_raw(), 7, 1, (if value { 1u16 } else { 0u16 })),
            r.spec_instance_7() == value,
            r.spec_instance_0() == self.spec_instance_0(),
            r.spec_instance_1() == self.spec_instance_1(),
            r.spec_instance_2() == self.spec_instance_2(),
            r.spec_instance_3() == self.spec_instance_3(),
            r.spec_instance_4() == self.spec_instance_4(),
            r.spec_instance_5() == self.spec_instance_5(),
            r.spec_instance_6() == self.spec_instance_6(),
            r.spec_instance_8() == self.spec_instance_8(),
            r.spec_instance_9() == self.spec_instance_9(),
            r.spec_instance_10() == self.spec_instance_10(),
            r.spec_instance_11() == self.spec_instance_11(),
            r.spec_instance_12() == self.spec_instance_12(),
            r.spec_instance_13() == self.spec_instance_13(),
            r.spec_instance_14() == self.spec_instance_14(),
            r.spec_instance_15() == self.spec_instance_15(),
    {
        let mut r = self;
        r.set_instance_7(value);
        r
    }

    pub fn instance_8(&self) -> (r: bool)
        ensures
            r == self.spec_instance_8(),
    {
        field_u16(self.0, 8, 1) == 1
    }

    pub fn set_instance_8(&mut self, value: bool)
        ensures
            final(self).spec_raw() == spec_with_field_u16(old(self).spec_raw(), 8, 1, (if value { 1u16 } else { 0u16 })),
            final(self).spec_instance_8() == value,
            final(self).spec_instance_0() == old(self).spec_instance_0(),
            final(self).spec_instance_1() == old(self).spec_instance_1(),
            final(self).spec_instance_2() == old(self).spec_instance_2(),
            final(self).spec_instance_3() == old(self).spec_instance_3(),
            final(self).spec_instance_4() == old(self).spec_instance_4(),
            final(self).spec_instance_5() == old(self).spec_instance_5(),
            final(self).spec_instance_6() == old(self).spec_instance_6(),
            final(self).spec_instance_7() == old(self).spec_instance_7(),
            final(self).spec_instance_9() == old(self).spec_instance_9(),
            final(self).spec_instance_10() == old(self).spec_instance_10(),
            final(self).spec_instance_11() == old(self).spec_instance_11(),
            final(self).spec_instance_12() == old(self).spec_instance_12(),
            final(self).spec_instance_13() == old(self).spec_instance_13(),
            final(self).spec_instance_14() == old(self).spec_instance_14(),
            final(self).spec_instance_15() == old(self).spec_instance_15(),
    {
        let x: u16 = if value { 1 } else { 0 };
        let ghost old_raw = self.0;
        proof {
            lemma_shift_table_u16();
            lemma_with_field_same_u16(old_raw, 8, 1, x);
            lemma_with_field_other_u16(old_raw, 8, 1, x, 0, 1);
            lemma_with_field_other_u16(old_raw, 8, 1, x, 1, 1);
            lemma_with_field_other_u16(old_raw, 8, 1, x, 2, 1);
            lemma_with_field_other_u16(old_raw, 8, 1, x, 3, 1);
            lemma_with_field_other_u16(old_raw, 8, 1, x, 4, 1);
            lemma_with_field_other_u16(old_raw, 8, 1, x, 5, 1);
            lemma_with_field_other_u16(old_raw, 8, 1, x, 6, 1);
            lemma_with_field_other_u16(old_raw, 8, 1, x, 7, 1);
            lemma_with_field_other_u16(old_raw, 8, 1, x, 9, 1);
            lemma_with_field_other_u16(old_raw, 8, 1, x, 10, 1);
            lemma_with_field_other_u16(old_raw, 8, 1, x, 11, 1);
            lemma_with_field_other_u16(old_raw, 8, 1, x, 12, 1);
            lemma_with_field_other_u16(old_raw, 8, 1, x, 13, 1);
            lemma_with_field_other_u16(old_raw, 8, 1, x, 14, 1);
            lemma_with_field_other_u16(old_raw, 8, 1, x, 15, 1);
        }
        self.0 = with_field_u16(self.0, 8, 1, x);
    }

    pub fn with_instance_8(self, value: bool) -> (r: Self)
        ensures
            r.spec_raw() == spec_with_field_u16(self.spec_raw(), 8, 1, (if value { 1u16 } else { 0u16 })),
            r.spec_instance_8() == value,
            r.spec_instance_0() == self.spec_instance_0(),
            r.spec_instance_1() == self.spec_instance_1(),
            r.spec_instance_2() == self.spec_instance_2(),
            r.spec_instance_3() == self.spec_instance_3(),
            r.spec_instance_4() == self.spec_instance_4(),
            r.spec_instance_5() == self.spec_instance_5(),
            r.spec_instance_6() == self.spec_instance_6(),
            r.spec_instance_7() == self.spec_instance_7(),
            r.spec_instance_9() == self.spec_instance_9(),
            r.spec_instance_10() == self.spec_instance_10(),
            r.spec_instance_11() == self.spec_instance_11(),
            r.spec_instance_12() == self.spec_instance_12(),
            r.spec_instance_13() == self.spec_instance_13(),
            r.spec_instance_14() == self.spec_instance_14(),
            r.spec_instance_15() == self.spec_instance_15(),
    {
        let mut r = self;
        r.set_instance_8(value);
        r
    }

    pub fn instance_9(&self) -> (r: bool)
        ensures
            r == self.spec_instance_9(),
    {
        field_u16(self.0, 9, 1) == 1
    }

    pub fn set_instance_9(&mut self, value: bool)
        ensures
            final(self).spec_raw() == spec_with_field_u16(old(self).spec_raw(), 9, 1, (if value { 1u16 } else { 0u16 })),
            final(self).spec_instance_9() == value,
            final(self).spec_instance_0() == old(self).spec_instance_0(),
            final(self).spec_instance_1() == old(self).spec_instance_1(),
            final(self).spec_instance_2() == old(self).spec_instance_2(),
            final(self).spec_instance_3() == old(self).spec_instance_3(),
            final(self).spec_instance_4() == old(self).spec_instance_4(),
            final(self).spec_instance_5() == old(self).spec_instance_5(),
            final(self).spec_instance_6() == old(self).spec_instance_6(),
            final(self).spec_instance_7() == old(self).spec_instance_7(),
            final(self).spec_instance_8() == old(self).spec_instance_8(),
            final(self).spec_instance_10() == old(self).spec_instance_10(),
            final(self).spec_instance_11() == old(self).spec_instance_11(),
            final(self).spec_instance_12() == old(self).spec_instance_12(),
            final(self).spec_instance_13() == old(self).spec_instance_13(),
            final(self).spec_instance_14() == old(self).spec_instance_14(),
            final(self).spec_instance_15() == old(self).spec_instance_15(),
    {
        let x: u16 = if value { 1 } else { 0 };
        let ghost old_raw = self.0;
        proof {
            lemma_shift_table_u16();
            lemma_with_field_same_u16(old_raw, 9, 1, x);
            lemma_with_field_other_u16(old_raw, 9, 1, x, 0, 1);
            lemma_with_field_other_u16(old_raw, 9, 1, x, 1, 1);
            lemma_with_field_other_u16(old_raw, 9, 1, x, 2, 1);
            lemma_with_field_other_u16(old_raw, 9, 1, x, 3, 1);
            lemma_with_field_other_u16(old_raw, 9, 1, x, 4, 1);
            lemma_with_field_other_u16(old_raw, 9, 1, x, 5, 1);
            lemma_with_field_other_u16(old_raw, 9, 1, x, 6, 1);
            lemma_with_field_other_u16(old_raw, 9, 1, x, 7, 1);
            lemma_with_field_other_u16(old_raw, 9, 1, x, 8, 1);
            lemma_with_field_other_u16(old_raw, 9, 1, x, 10, 1);
            lemma_with_field_other_u16(old_raw, 9, 1, x, 11, 1);
            lemma_with_field_other_u16(old_raw, 9, 1, x, 12, 1);
            lemma_with_field_other_u16(old_raw, 9, 1, x, 13, 1);
            lemma_with_field_other_u16(old_raw, 9, 1, x, 14, 1);
            lemma_with_field_other_u16(old_raw, 9, 1, x, 15, 1);
        }
        self.0 = with_field_u16(self.0, 9, 1, x);
    }

    pub fn with_instance_9(self, value: bool) -> (r: Self)
        ensures
            r.spec_raw() == spec_with_field_u16(self.spec_raw(), 9, 1, (if value { 1u16 } else { 0u16 })),
            r.spec_instance_9() == value,
            r.spec_instance_0() == self.spec_instance_0(),
            r.spec_instance_1() == self.spec_instance_1(),
            r.spec_instance_2() == self.spec_instance_2(),
            r.spec_instance_3() == self.spec_instance_3(),
            r.spec_instance_4() == self.spec_instance_4(),
            r.spec_instance_5() == self.spec_instance_5(),
            r.spec_instance_6() == self.spec_instance_6(),
            r.spec_instance_7() == self.spec_instance_7(),
            r.spec_instance_8() == self.spec_instance_8(),
            r.spec_instance_10() == self.spec_instance_10(),
            r.spec_instance_11() == self.spec_instance_11(),
            r.spec_instance_12() == self.spec_instance_12(),
            r.spec_instance_13() == self.spec_instance_13(),
            r.spec_instance_14() == self.spec_instance_14(),
            r.spec_instance_15() == self.spec_instance_15(),
    {
        let mut r = self;
        r.set_instance_9(value);
        r
    }

    pub fn instance_10(&self) -> (r: bool)
        ensures
            r == self.spec_instance_10(),
    {
        field_u16(self.0, 10, 1) == 1
    }

    pub fn set_instance_10(&mut self, value: bool)
        ensures
            final(self).spec_raw() == spec_with_field_u16(old(self).spec_raw(), 10, 1, (if value { 1u16 } else { 0u16 })),
            final(self).spec_instance_10() == value,
            final(self).spec_instance_0() == old(self).spec_instance_0(),
            final(self).spec_instance_1() == old(self).spec_instance_1(),
            final(self).spec_instance_2() == old(self).spec_instance_2(),
            final(self).spec_instance_3() == old(self).spec_instance_3(),
            final(self).spec_instance_4() == old(self).spec_instance_4(),
            final(self).spec_instance_5() == old(self).spec_instance_5(),
            final(self).spec_instance_6() == old(self).spec_instance_6(),
            final(self).spec_instance_7() == old(self).spec_instance_7(),
            final(self).spec_instance_8() == old(self).spec_instance_8(),
            final(self).spec_instance_9() == old(self).spec_instance_9(),
            final(self).spec_instance_11() == old(self).spec_instance_11(),
            final(self).spec_instance_12() == old(self).spec_instance_12(),
            final(self).spec_instance_13() == old(self).spec_instance_13(),
            final(self).spec_instance_14() == old(self).spec_instance_14(),
            final(self).spec_instance_15() == old(self).spec_instance_15(),
    {
        let x: u16 = if value { 1 } else { 0 };
        let ghost old_raw = self.0;
        proof {
            lemma_shift_table_u16();
            lemma_with_field_same_u16(old_raw, 10, 1, x);
            lemma_with_field_other_u16(old_raw, 10, 1, x, 0, 1);
            lemma_with_field_other_u16(old_raw, 10, 1, x, 1, 1);
            lemma_with_field_other_u16(old_raw, 10, 1, x, 2, 1);
            lemma_with_field_other_u16(old_raw, 10, 1, x, 3, 1);
            lemma_with_field_other_u16(old_raw, 10, 1, x, 4, 1);
            lemma_with_field_other_u16(old_raw, 10, 1, x, 5, 1);
            lemma_with_field_other_u16(old_raw, 10, 1, x, 6, 1);
            lemma_with_field_other_u16(old_raw, 10, 1, x, 7, 1);
            lemma_with_field_other_u16(old_raw, 10, 1, x, 8, 1);
            lemma_with_field_other_u16(old_raw, 10, 1, x, 9, 1);
            lemma_with_field_other_u16(old_raw, 10, 1, x, 11, 1);
            lemma_with_field_other_u16(old_raw, 10, 1, x, 12, 1);
            lemma_with_field_other_u16(old_raw, 10, 1, x, 13, 1);
            lemma_with_field_other_u16(old_raw, 10, 1, x, 14, 1);
            lemma_with_field_other_u16(old_raw, 10, 1, x, 15, 1);
        }
        self.0 = with_field_u16(self.0, 10, 1, x);
    }

    pub fn with_instance_10(self, value: bool) -> (r: Self)
        ensures
            r.spec_raw() == spec_with_field_u16(self.spec_raw(), 10, 1, (if value { 1u16 } else { 0u16 })),
            r.spec_instance_10() == value,
            r.spec_instance_0() == self.spec_instance_0(),
            r.spec_instance_1() == self.spec_instance_1(),
            r.spec_instance_2() == self.spec_instance_2(),
            r.spec_instance_3() == self.spec_instance_3(),
            r.spec_instance_4() == self.spec_instance_4(),
            r.spec_instance_5() == self.spec_instance_5(),
            r.spec_instance_6() == self.spec_instance_6(),
            r.spec_instance_7() == self.spec_instance_7(),
            r.spec_instance_8() == self.spec_instance_8(),
            r.spec_instance_9() == self.spec_instance_9(),
            r.spec_instance_11() == self.spec_instance_11(),
            r.spec_instance_12() == self.spec_instance_12(),
            r.spec_instance_13() == self.spec_instance_13(),
            r.spec_instance_14() == self.spec_instance_14(),
            r.spec_instance_15() == self.spec_instance_15(),
    {
        let mut r = self;
        r.set_instance_10(value);
        r
    }

    pub fn instance_11(&self) -> (r: bool)
        ensures
            r == self.spec_instance_11(),
    {
        field_u16(self.0, 11, 1) == 1
    }

    pub fn set_instance_11(&mut self, value: bool)
        ensures
            final(self).spec_raw() == spec_with_field_u16(old(self).spec_raw(), 11, 1, (if value { 1u16 } else { 0u16 })),
            final(self).spec_instance_11() == value,
            final(self).spec_instance_0() == old(self).spec_instance_0(),
            final(self).spec_instance_1() == old(self).spec_instance_1(),
            final(self).spec_instance_2() == old(self).spec_instance_2(),
            final(self).spec_instance_3() == old(self).spec_instance_3(),
            final(self).spec_instance_4() == old(self).spec_instance_4(),
            final(self).spec_instance_5() == old(self).spec_instance_5(),
            final(self).spec_instance_6() == old(self).spec_instance_6(),
            final(self).spec_instance_7() == old(self).spec_instance_7(),
            final(self).spec_instance_8() == old(self).spec_instance_8(),
            final(self).spec_instance_9() == old(self).spec_instance_9(),
            final(self).spec_instance_10() == old(self).spec_instance_10(),
            final(self).spec_instance_12() == old(self).spec_instance_12(),
            final(self).spec_instance_13() == old(self).spec_instance_13(),
            final(self).spec_instance_14() == old(self).spec_instance_14(),
            final(self).spec_instance_15() == old(self).spec_instance_15(),
    {
        let x: u16 = if value { 1 } else { 0 };
        let ghost old_raw = self.0;
        proof {
            lemma_shift_table_u16();
            lemma_with_field_same_u16(old_raw, 11, 1, x);
            lemma_with_field_other_u16(old_raw, 11, 1, x, 0, 1);
            lemma_with_field_other_u16(old_raw, 11, 1, x, 1, 1);
            lemma_with_field_other_u16(old_raw, 11, 1, x, 2, 1);
            lemma_with_field_other_u16(old_raw, 11, 1, x, 3, 1);
            lemma_with_field_other_u16(old_raw, 11, 1, x, 4, 1);
            lemma_with_field_other_u16(old_raw, 11, 1, x, 5, 1);
            lemma_with_field_other_u16(old_raw, 11, 1, x, 6, 1);
            lemma_with_field_other_u16(old_raw, 11, 1, x, 7, 1);
            lemma_with_field_other_u16(old_raw, 11, 1, x, 8, 1);
            lemma_with_field_other_u16(old_raw, 11, 1, x, 9, 1);
            lemma_with_field_other_u16(old_raw, 11, 1, x, 10, 1);
            lemma_with_field_other_u16(old_raw, 11, 1, x, 12, 1);
            lemma_with_field_other_u16(old_raw, 11, 1, x, 13, 1);
            lemma_with_field_other_u16(old_raw, 11, 1, x, 14, 1);
            lemma_with_field_other_u16(old_raw, 11, 1, x, 15, 1);
        }
        self.0 = with_field_u16(self.0, 11, 1, x);
    }

    pub fn with_instance_11(self, value: bool) -> (r: Self)
        ensures
            r.spec_raw() == spec_with_field_u16(self.spec_raw(), 11, 1, (if value { 1u16 } else { 0u16 })),
            r.spec_instance_11() == value,
            r.spec_instance_0() == self.spec_instance_0(),
            r.spec_instance_1() == self.spec_instance_1(),
            r.spec_instance_2() == self.spec_instance_2(),
            r.spec_instance_3() == self.spec_instance_3(),
            r.spec_instance_4() == self.spec_instance_4(),
            r.spec_instance_5() == self.spec_instance_5(),
            r.spec_instance_6() == self.spec_instance_6(),
            r.spec_instance_7() == self.spec_instance_7(),
            r.spec_instance_8() == self.spec_instance_8(),
            r.spec_instance_9() == self.spec_instance_9(),
            r.spec_instance_10() == self.spec_instance_10(),
            r.spec_instance_12() == self.spec_instance_12(),
            r.spec_instance_13() == self.spec_instance_13(),
            r.spec_instance_14() == self.spec_instance_14(),
            r.spec_instance_15() == self.spec_instance_15(),
    {
        let mut r = self;
        r.set_instance_11(value);
        r
    }

    pub fn instance_12(&self) -> (r: bool)
        ensures
            r == self.spec_instance_12(),
    {
        field_u16(self.0, 12, 1) == 1
    }

    pub fn set_instance_12(&mut self, value: bool)
        ensures
            final(self).spec_raw() == spec_with_field_u16(old(self).spec_raw(), 12, 1, (if value { 1u16 } else { 0u16 })),
            final(self).spec_instance_12() == value,
            final(self).spec_instance_0() == old(self).spec_instance_0(),
            final(self).spec_instance_1() == old(self).spec_instance_1(),
            final(self).spec_instance_2() == old(self).spec_instance_2(),
            final(self).spec_instance_3() == old(self).spec_instance_3(),
            final(self).spec_instance_4() == old(self).spec_instance_4(),
            final(self).spec_instance_5() == old(self).spec_instance_5(),
            final(self).spec_instance_6() == old(self).spec_instance_6(),
            final(self).spec_instance_7() == old(self).spec_instance_7(),
            final(self).spec_instance_8() == old(self).spec_instance_8(),
            final(self).spec_instance_9() == old(self).spec_instance_9(),
            final(self).spec_instance_10() == old(self).spec_instance_10(),
            final(self).spec_instance_11() == old(self).spec_instance_11(),
            final(self).spec_instance_13() == old(self).spec_instance_13(),
            final(self).spec_instance_14() == old(self).spec_instance_14(),
            final(self).spec_instance_15() == old(self).spec_instance_15(),
    {
        let x: u16 = if value { 1 } else { 0 };
        let ghost old_raw = self.0;
        proof {
            lemma_shift_table_u16();
            lemma_with_field_same_u16(old_raw, 12, 1, x);
            lemma_with_field_other_u16(old_raw, 12, 1, x, 0, 1);
            lemma_with_field_other_u16(old_raw, 12, 1, x, 1, 1);
            lemma_with_field_other_u16(old_raw, 12, 1, x, 2, 1);
            lemma_with_field_other_u16(old_raw, 12, 1, x, 3, 1);
            lemma_with_field_other_u16(old_raw, 12, 1, x, 4, 1);
            lemma_with_field_other_u16(old_raw, 12, 1, x, 5, 1);
            lemma_with_field_other_u16(old_raw, 12, 1, x, 6, 1);
            lemma_with_field_other_u16(old_raw, 12, 1, x, 7, 1);
            lemma_with_field_other_u16(old_raw, 12, 1, x, 8, 1);
            lemma_with_field_other_u16(old_raw, 12, 1, x, 9, 1);
            lemma_with_field_other_u16(old_raw, 12, 1, x, 10, 1);
            lemma_with_field_other_u16(old_raw, 12, 1, x, 11, 1);
            lemma_with_field_other_u16(old_raw, 12, 1, x, 13, 1);
            lemma_with_field_other_u16(old_raw, 12, 1, x, 14, 1);
            lemma_with_field_other_u16(old_raw, 12, 1, x, 15, 1);
        }
        self.0 = with_field_u16(self.0, 12, 1, x);
    }

    pub fn with_instance_12(self, value: bool) -> (r: Self)
        ensures
            r.spec_raw() == spec_with_field_u16(self.spec_raw(), 12, 1, (if value { 1u16 } else { 0u16 })),
            r.spec_instance_12() == value,
            r.spec_instance_0() == self.spec_instance_0(),
            r.spec_instance_1() == self.spec_instance_1(),
            r.spec_instance_2() == self.spec_instance_2(),
            r.spec_instance_3() == self.spec_instance_3(),
            r.spec_instance_4() == self.spec_instance_4(),
            r.spec_instance_5() == self.spec_instance_5(),
            r.spec_instance_6() == self.spec_instance_6(),
            r.spec_instance_7() == self.spec_instance_7(),
            r.spec_instance_8() == self.spec_instance_8(),
            r.spec_instance_9() == self.spec_instance_9(),
            r.spec_instance_10() == self.spec_instance_10(),
            r.spec_instance_11() == self.spec_instance_11(),
            r.spec_instance_13() == self.spec_instance_13(),
            r.spec_instance_14() == self.spec_instance_14(),
            r.spec_instance_15() == self.spec_instance_15(),
    {
        let mut r = self;
        r.set_instance_12(value);
        r
    }

    pub fn instance_13(&self) -> (r: bool)
        ensures
            r == self.spec_instance_13(),
    {
        field_u16(self.0, 13, 1) == 1
    }

    pub fn set_instance_13(&mut self, value: bool)
        ensures
            final(self).spec_raw() == spec_with_field_u16(old(self).spec_raw(), 13, 1, (if value { 1u16 } else { 0u16 })),
            final(self).spec_instance_13() == value,
            final(self).spec_instance_0() == old(self).spec_instance_0(),
            final(self).spec_instance_1() == old(self).spec_instance_1(),
            final(self).spec_instance_2() == old(self).spec_instance_2(),
            final(self).spec_instance_3() == old(self).spec_instance_3(),
            final(self).spec_instance_4() == old(self).spec_instance_4(),
            final(self).spec_instance_5() == old(self).spec_instance_5(),
            final(self).spec_instance_6() == old(self).spec_instance_6(),
            final(self).spec_instance_7() == old(self).spec_instance_7(),
            final(self).spec_instance_8() == old(self).spec_instance_8(),
            final(self).spec_instance_9() == old(self).spec_instance_9(),
            final(self).spec_instance_10() == old(self).spec_instance_10(),
            final(self).spec_instance_11() == old(self).spec_instance_11(),
            final(self).spec_instance_12() == old(self).spec_instance_12(),
            final(self).spec_instance_14() == old(self).spec_instance_14(),
            final(self).spec_instance_15() == old(self).spec_instance_15(),
    {
        let x: u16 = if value { 1 } else { 0 };
        let ghost old_raw = self.0;
        proof {
            lemma_shift_table_u16();
            lemma_with_field_same_u16(old_raw, 13, 1, x);
            lemma_with_field_other_u16(old_raw, 13, 1, x, 0, 1);
            lemma_with_field_other_u16(old_raw, 13, 1, x, 1, 1);
            lemma_with_field_other_u16(old_raw, 13, 1, x, 2, 1);
            lemma_with_field_other_u16(old_raw, 13, 1, x, 3, 1);
            lemma_with_field_other_u16(old_raw, 13, 1, x, 4, 1);
            lemma_with_field_other_u16(old_raw, 13, 1, x, 5, 1);
            lemma_with_field_other_u16(old_raw, 13, 1, x, 6, 1);
            lemma_with_field_other_u16(old_raw, 13, 1, x, 7, 1);
            lemma_with_field_other_u16(old_raw, 13, 1, x, 8, 1);
            lemma_with_field_other_u16(old_raw, 13, 1, x, 9, 1);
            lemma_with_field_other_u16(old_raw, 13, 1, x, 10, 1);
            lemma_with_field_other_u16(old_raw, 13, 1, x, 11, 1);
            lemma_with_field_other_u16(old_raw, 13, 1, x, 12, 1);
            lemma_with_field_other_u16(old_raw, 13, 1, x, 14, 1);
            lemma_with_field_other_u16(old_raw, 13, 1, x, 15, 1);
        }
        self.0 = with_field_u16(self.0, 13, 1, x);
    }

    pub fn with_instance_13(self, value: bool) -> (r: Self)
        ensures
            r.spec_raw() == spec_with_field_u16(self.spec_raw(), 13, 1, (if value { 1u16 } else { 0u16 })),
            r.spec_instance_13() == value,
            r.spec_instance_0() == self.spec_instance_0(),
            r.spec_instance_1() == self.spec_instance_1(),
            r.spec_instance_2() == self.spec_instance_2(),
            r.spec_instance_3() == self.spec_instance_3(),
            r.spec_instance_4() == self.spec_instance_4(),
            r.spec_instance_5() == self.spec_instance_5(),
            r.spec_instance_6() == self.spec_instance_6(),
            r.spec_instance_7() == self.spec_instance_7(),
            r.spec_instance_8() == self.spec_instance_8(),
            r.spec_instance_9() == self.spec_instance_9(),
            r.spec_instance_10() == self.spec_instance_10(),
            r.spec_instance_11() == self.spec_instance_11(),
            r.spec_instance_12() == self.spec_instance_12(),
            r.spec_instance_14() == self.spec_instance_14(),
            r.spec_instance_15() == self.spec_instance_15(),
    {
        let mut r = self;
        r.set_instance_13(value);
        r
    }

    pub fn instance_14(&self) -> (r: bool)
        ensures
            r == self.spec_instance_14(),
    {
        field_u16(self.0, 14, 1) == 1
    }

    pub fn set_instance_14(&mut self, value: bool)
        ensures
            final(self).spec_raw() == spec_with_field_u16(old(self).spec_raw(), 14, 1, (if value { 1u16 } else { 0u16 })),
            final(self).spec_instance_14() == value,
            final(self).spec_instance_0() == old(self).spec_instance_0(),
            final(self).spec_instance_1() == old(self).spec_instance_1(),
            final(self).spec_instance_2() == old(self).spec_instance_2(),
            final(self).spec_instance_3() == old(self).spec_instance_3(),
            final(self).spec_instance_4() == old(self).spec_instance_4(),
            final(self).spec_instance_5() == old(self).spec_instance_5(),
            final(self).spec_instance_6() == old(self).spec_instance_6(),
            final(self).spec_instance_7() == old(self).spec_instance_7(),
            final(self).spec_instance_8() == old(self).spec_instance_8(),
            final(self).spec_instance_9() == old(self).spec_instance_9(),
            final(self).spec_instance_10() == old(self).spec_instance_10(),
            final(self).spec_instance_11() == old(self).spec_instance_11(),
            final(self).spec_instance_12() == old(self).spec_instance_12(),
            final(self).spec_instance_13() == old(self).spec_instance_13(),
            final(self).spec_instance_15() == old(self).spec_instance_15(),
    {
        let x: u16 = if value { 1 } else { 0 };
        let ghost old_raw = self.0;
        proof {
            lemma_shift_table_u16();
            lemma_with_field_same_u16(old_raw, 14, 1, x);
            lemma_with_field_other_u16(old_raw, 14, 1, x, 0, 1);
            lemma_with_field_other_u16(old_raw, 14, 1, x, 1, 1);
            lemma_with_field_other_u16(old_raw, 14, 1, x, 2, 1);
            lemma_with_field_other_u16(old_raw, 14, 1, x, 3, 1);
            lemma_with_field_other_u16(old_raw, 14, 1, x, 4, 1);
            lemma_with_field_other_u16(old_raw, 14, 1, x, 5, 1);
            lemma_with_field_other_u16(old_raw, 14, 1, x, 6, 1);
            lemma_with_field_other_u16(old_raw, 14, 1, x, 7, 1);
            lemma_with_field_other_u16(old_raw, 14, 1, x, 8, 1);
            lemma_with_field_other_u16(old_raw, 14, 1, x, 9, 1);
            lemma_with_field_other_u16(old_raw, 14, 1, x, 10, 1);
            lemma_with_field_other_u16(old_raw, 14, 1, x, 11, 1);
            lemma_with_field_other_u16(old_raw, 14, 1, x, 12, 1);
            lemma_with_field_other_u16(old_raw, 14, 1, x, 13, 1);
            lemma_with_field_other_u16(old_raw, 14, 1, x, 15, 1);
        }
        self.0 = with_field_u16(self.0, 14, 1, x);
    }

    pub fn with_instance_14(self, value: bool) -> (r: Self)
        ensures
            r.spec_raw() == spec_with_field_u16(self.spec_raw(), 14, 1, (if value { 1u16 } else { 0u16 })),
            r.spec_instance_14() == value,
            r.spec_instance_0() == self.spec_instance_0(),
            r.spec_instance_1() == self.spec_instance_1(),
            r.spec_instance_2() == self.spec_instance_2(),
            r.spec_instance_3() == self.spec_instance_3(),
            r.spec_instance_4() == self.spec_instance_4(),
            r.spec_instance_5() == self.spec_instance_5(),
            r.spec_instance_6() == self.spec_instance_6(),
            r.spec_instance_7() == self.spec_instance_7(),
            r.spec_instance_8() == self.spec_instance_8(),
            r.spec_instance_9() == self.spec_instance_9(),
            r.spec_instance_10() == self.spec_instance_10(),
            r.spec_instance_11() == self.spec_instance_11(),
            r.spec_instance_12() == self.spec_instance_12(),
            r.spec_instance_13() == self.spec_instance_13(),
            r.spec_instance_15() == self.spec_instance_15(),
    {
        let mut r = self;
        r.set_instance_14(value);
        r
    }

    pub fn instance_15(&self) -> (r: bool)
        ensures
            r == self.spec_instance_15(),
    {
        field_u16(self.0, 15, 1) == 1
    }

    pub fn set_instance_15(&mut self, value: bool)
        ensures
            final(self).spec_raw() == spec_with_field_u16(old(self).spec_raw(), 15, 1, (if value { 1u16 } else { 0u16 })),
            final(self).spec_instance_15() == value,
            final(self).spec_instance_0() == old(self).spec_instance_0(),
            final(self).spec_instance_1() == old(self).spec_instance_1(),
            final(self).spec_instance_2() == old(self).spec_instance_2(),
            final(self).spec_instance_3() == old(self).spec_instance_3(),
            final(self).spec_instance_4() == old(self).spec_instance_4(),
            final(self).spec_instance_5() == old(self).spec_instance_5(),
            final(self).spec_instance_6() == old(self).spec_instance_6(),
            final(self).spec_instance_7() == old(self).spec_instance_7(),
            final(self).spec_instance_8() == old(self).spec_instance_8(),
            final(self).spec_instance_9() == old(self).spec_instance_9(),
            final(self).spec_instance_10() == old(self).spec_instance_10(),
            final(self).spec_instance_11() == old(self).spec_instance_11(),
            final(self).spec_instance_12() == old(self).spec_instance_12(),
            final(self).spec_instance_13() == old(self).spec_instance_13(),
            final(self).spec_instance_14() == old(self).spec_instance_14(),
    {
        let x: u16 = if value { 1 } else { 0 };
        let ghost old_raw = self.0;
        proof {
            lemma_shift_table_u16();
            lemma_with_field_same_u16(old_raw, 15, 1, x);
            lemma_with_field_other_u16(old_raw, 15, 1, x, 0, 1);
            lemma_with_field_other_u16(old_raw, 15, 1, x, 1, 1);
            lemma_with_field_other_u16(old_raw, 15, 1, x, 2, 1);
            lemma_with_field_other_u16(old_raw, 15, 1, x, 3, 1);
            lemma_with_field_other_u16(old_raw, 15, 1, x, 4, 1);
            lemma_with_field_other_u16(old_raw, 15, 1, x, 5, 1);
            lemma_with_field_other_u16(old_raw, 15, 1, x, 6, 1);
            lemma_with_field_other_u16(old_raw, 15, 1, x, 7, 1);
            lemma_with_field_other_u16(old_raw, 15, 1, x, 8, 1);
            lemma_with_field_other_u16(old_raw, 15, 1, x, 9, 1);
            lemma_with_field_other_u16(old_raw, 15, 1, x, 10, 1);
            lemma_with_field_other_u16(old_raw, 15, 1, x, 11, 1);
            lemma_with_field_other_u16(old_raw, 15, 1, x, 12, 1);
            lemma_with_field_other_u16(old_raw, 15, 1, x, 13, 1);
            lemma_with_field_other_u16(old_raw, 15, 1, x, 14, 1);
        }
        self.0 = with_field_u16(self.0, 15, 1, x);
    }

    pub fn with_instance_15(self, value: bool) -> (r: Self)
        ensures
            r.spec_raw() == spec_with_field_u16(self.spec_raw(), 15, 1, (if value { 1u16 } else { 0u16 })),
            r.spec_instance_15() == value,
            r.spec_instance_0() == self.spec_instance_0(),
            r.spec_instance_1() == self.spec_instance_1(),
            r.spec_instance_2() == self.spec_instance_2(),
            r.spec_instance_3() == self.spec_instance_3(),
            r.spec_instance_4() == self.spec_instance_4(),
            r.spec_instance_5() == self.spec_instance_5(),
            r.spec_instance_6() == self.spec_instance_6(),
            r.spec_instance_7() == self.spec_instance_7(),
            r.spec_instance_8() == self.spec_instance_8(),
            r.spec_instance_9() == self.spec_instance_9(),
            r.spec_instance_10() == self.spec_instance_10(),
            r.spec_instance_11() == self.spec_instance_11(),
            r.spec_instance_12() == self.spec_instance_12(),
            r.spec_instance_13() == self.spec_instance_13(),
            r.spec_instance_14() == self.spec_instance_14(),
    {
        let mut r = self;
        r.set_instance_15(value);
        r
    }

    /// The bits that have a meaning; the others are reserved.
    pub const VALID_BITS: u64 = 0xffff;

    /// Whether VALUE leaves all reserved bits clear.
    pub fn all_reserved_bits_are_unused(value: u64) -> (r: bool)
        ensures
            r == (value & !0xffffu64 == 0),
    {
        value & !Self::VALID_BITS == 0
    }

    pub fn from_u64(value: u64) -> (r: Option<Self>)
        ensures
            r is Some <==> (value & !0xffffu64 == 0 && value <= 0xffff),
            r matches Some(x) ==> x.spec_raw() == value,
    {
        if Self::all_reserved_bits_are_unused(value) {
            if value <= 0xffff {
                Some(BoardInstances(value as u16))
            } else {
                None
            }
        } else {
            None
        }
    }

    pub fn from_i64(value: i64) -> (r: Option<Self>)
        ensures
            r is Some <==> (value >= 0 && (value as u64) & !0xffffu64 == 0 && value <= 0xffff),
            r matches Some(x) ==> x.spec_raw() == value,
    {
        if value >= 0 {
            Self::from_u64(value as u64)
        } else {
            None
        }
    }

    pub fn to_u64(&self) -> (r: Option<u64>)
        ensures
            r == Some(self.spec_raw() as u64),
    {
        Some(self.0 as u64)
    }

    pub fn to_i64(&self) -> (r: Option<i64>)
        ensures
            r == Some(self.spec_raw() as i64),
    {
        Some(self.0 as i64)
    }

}

/// The bit of PriorityLevels that stands for LEVEL.
pub open spec fn spec_priority_bit(level: PriorityLevel) -> u8 {
    match level {
        PriorityLevel::HardForce => 0,
        PriorityLevel::High => 1,
        PriorityLevel::Medium => 2,
        PriorityLevel::EventLogging => 3,
        PriorityLevel::Low => 4,
        PriorityLevel::Normal => 5,
    }
}

impl Default for PriorityLevels {
    fn default() -> (r: Self)
        ensures
            r.spec_raw() == 0x20,
    {
        let r = Self::new().with_normal(true);
        proof {
            lemma_shift_table_u8();
        }
        proof {
            lemma_single_bit_of_zero_u8(5);
        }
        r
    }
}

impl PriorityLevels {
    /// The priority levels that hold exactly LEVEL.
    pub fn from_level(level: PriorityLevel) -> (r: Self)
        ensures
            r.spec_raw() == (1u8 << spec_priority_bit(level)),
            r.spec_hard_force() == (level == PriorityLevel::HardForce),
            r.spec_high() == (level == PriorityLevel::High),
            r.spec_medium() == (level == PriorityLevel::Medium),
            r.spec_event_logging() == (level == PriorityLevel::EventLogging),
            r.spec_low() == (level == PriorityLevel::Low),
            r.spec_normal() == (level == PriorityLevel::Normal),
            r.spec__reserved_1() == 0,
    {
        let mut result = Self::new();
        proof {
            lemma_zero_fields_u8();
        }
        match level {
            PriorityLevel::HardForce => {
                result.set_hard_force(true);
            },
            PriorityLevel::High => {
                result.set_high(true);
            },
            PriorityLevel::Medium => {
                result.set_medium(true);
            },
            PriorityLevel::EventLogging => {
                result.set_event_logging(true);
            },
            PriorityLevel::Low => {
                result.set_low(true);
            },
            PriorityLevel::Normal => {
                result.set_normal(true);
            },
        }
        proof {
            lemma_single_bit_u8();
        }
        result
    }
}

proof fn lemma_zero_fields_u8()
    ensures
        forall|offset: u8, width: u8| 0 < width < 8 && offset + width <= 8 ==> #[trigger] spec_field_u8(0, offset, width) == 0,
{
    assert forall|offset: u8, width: u8| 0 < width < 8 && offset + width <= 8 implies #[trigger] spec_field_u8(0, offset, width) == 0 by {
        lemma_field_of_zero_u8(offset, width);
    }
}

proof fn lemma_field_of_zero_u8(offset: u8, width: u8)
    by (bit_vector)
    requires
        0 < width < 8,
        offset + width <= 8,
    ensures
        spec_field_u8(0, offset, width) == 0,
{
}

proof fn lemma_single_bit_u8()
    ensures
        forall|i: u8| i < 8 ==> #[trigger] spec_with_field_u8(0, i, 1, 1) == (1u8 << i),
{
    assert forall|i: u8| i < 8 implies #[trigger] spec_with_field_u8(0, i, 1, 1) == (1u8 << i) by {
        lemma_single_bit_of_zero_u8(i);
    }
}

proof fn lemma_single_bit_of_zero_u8(i: u8)
    by (bit_vector)
    requires
        i < 8,
    ensures
        spec_with_field_u8(0, i, 1, 1) == (1u8 << i),
{
}

impl Default for BoardInstances {
    fn default() -> (r: Self)
        ensures
            r.spec_raw() == 0,
    {
        Self::new()
    }
}

/// The board instances that hold exactly instance I.
pub open spec fn spec_single_instance(i: u8) -> u16 {
    1u16 << (i as u16)
}

impl BoardInstances {
    /// All sixteen board instances.
    pub fn all() -> (r: Self)
        ensures
            r.spec_raw() == 0xffff,
    {
        let mut result = Self::new();
        result.set_instance_0(true);
        result.set_instance_1(true);
        result.set_instance_2(true);
        result.set_instance_3(true);
        result.set_instance_4(true);
        result.set_instance_5(true);
        result.set_instance_6(true);
        result.set_instance_7(true);
        result.set_instance_8(true);
        result.set_instance_9(true);
        result.set_instance_10(true);
        result.set_instance_11(true);
        result.set_instance_12(true);
        result.set_instance_13(true);
        result.set_instance_14(true);
        result.set_instance_15(true);
        proof {
            lemma_all_instances(result.spec_raw());
        }
        result
    }

    /// The board instances that hold exactly INSTANCE; an error for an instance beyond 15.
    pub fn from_instance(instance: BoardInstance) -> (r: Result<Self>)
        ensures
            instance < 16 ==> (r matches Ok(x) && x.spec_raw() == spec_single_instance(instance)),
            instance >= 16 ==> r == Err::<Self, Error>(Error::EntryTypeMismatch),
    {
        let mut result = Self::new();
        match instance {
            0 => result.set_instance_0(true),
            1 => result.set_instance_1(true),
            2 => result.set_instance_2(true),
            3 => result.set_instance_3(true),
            4 => result.set_instance_4(true),
            5 => result.set_instance_5(true),
            6 => result.set_instance_6(true),
            7 => result.set_instance_7(true),
            8 => result.set_instance_8(true),
            9 => result.set_instance_9(true),
            10 => result.set_instance_10(true),
            11 => result.set_instance_11(true),
            12 => result.set_instance_12(true),
            13 => result.set_instance_13(true),
            14 => result.set_instance_14(true),
            15 => result.set_instance_15(true),
            _ => {
                return Err(Error::EntryTypeMismatch);
            },
        }
        proof {
            lemma_single_instance(instance as u16);
        }
        Ok(result)
    }
}

proof fn lemma_single_instance(i: u16)
    by (bit_vector)
    requires
        i < 16,
    ensures
        spec_with_field_u16(0, i, 1, 1) == (1u16 << i),
{
}

proof fn lemma_all_instances(raw: u16)
    by (bit_vector)
    requires
        spec_field_u16(raw, 0, 1) == 1,
        spec_field_u16(raw, 1, 1) == 1,
        spec_field_u16(raw, 2, 1) == 1,
        spec_field_u16(raw, 3, 1) == 1,
        spec_field_u16(raw, 4, 1) == 1,
        spec_field_u16(raw, 5, 1) == 1,
        spec_field_u16(raw, 6, 1) == 1,
        spec_field_u16(raw, 7, 1) == 1,
        spec_field_u16(raw, 8, 1) == 1,
        spec_field_u16(raw, 9, 1) == 1,
        spec_field_u16(raw, 10, 1) == 1,
        spec_field_u16(raw, 11, 1) == 1,
        spec_field_u16(raw, 12, 1) == 1,
        spec_field_u16(raw, 13, 1) == 1,
        spec_field_u16(raw, 14, 1) == 1,
        spec_field_u16(raw, 15, 1) == 1,
    ensures
        raw == 0xffff,
{
}

/// A board instance number.
pub type BoardInstance = u8;

} // verus!
