use crate::bits::{field_u8, field_u16, lemma_masked_bound_u64, lemma_shift_table_u8, lemma_shift_table_u16, lemma_with_field_other_u8, lemma_with_field_other_u16, lemma_with_field_same_u8, lemma_with_field_same_u16, spec_field_u8, spec_field_u16, spec_with_field_u8, spec_with_field_u16, with_field_u8, with_field_u16};
use crate::le::{append_bytes, le_bytes_u16, le_bytes_u32, lemma_auto_spec_u16_to_from_le_bytes, lemma_auto_spec_u32_to_from_le_bytes, lemma_auto_spec_u64_to_from_le_bytes, spec_u16_from_le_bytes, spec_u16_to_le_bytes, spec_u32_from_le_bytes, spec_u32_to_le_bytes, u16_from_le_bytes, u32_from_le_bytes};
use crate::ondisk::collection::{take_header_from_collection, ByteLayout, ElementAsBytes, SequenceElementAsBytes, SequenceElementFromBytes};
use crate::ondisk::compat::EntryCompatible;
use crate::ondisk::ids::{EntryId, MemoryEntryId};
use crate::types::{Error, Result};
use vstd::prelude::*;
use vstd::slice::slice_subrange;

verus! {

/// The channels that an override applies to (one bit each).
#[derive(Debug, Clone, Copy, PartialEq, Eq, Structural)]
pub struct ChannelIdsSelection(u8);

impl ChannelIdsSelection {
    /// The packed bits.
    pub closed spec fn spec_raw(self) -> u8 {
        self.0
    }

    /// The value with the given packed bits.
    pub closed spec fn spec_from_raw(raw: u8) -> Self {
        ChannelIdsSelection(raw)
    }

    /// The packed bits determine the value, and any packed bits make a value.
    pub proof fn lemma_raw(x: Self, raw: u8)
        ensures
            Self::spec_from_raw(raw).spec_raw() == raw,
            Self::spec_from_raw(x.spec_raw()) == x,
    {
    }

    pub open spec fn spec_a(self) -> bool {
        spec_field_u8(self.spec_raw(), 0, 1) == 1
    }

    pub open spec fn spec_b(self) -> bool {
        spec_field_u8(self.spec_raw(), 1, 1) == 1
    }

    pub open spec fn spec_c(self) -> bool {
        spec_field_u8(self.spec_raw(), 2, 1) == 1
    }

    pub open spec fn spec_d(self) -> bool {
        spec_field_u8(self.spec_raw(), 3, 1) == 1
    }

    pub open spec fn spec_e(self) -> bool {
        spec_field_u8(self.spec_raw(), 4, 1) == 1
    }

    pub open spec fn spec_f(self) -> bool {
        spec_field_u8(self.spec_raw(), 5, 1) == 1
    }

    pub open spec fn spec_g(self) -> bool {
        spec_field_u8(self.spec_raw(), 6, 1) == 1
    }

    pub open spec fn spec_h(self) -> bool {
        spec_field_u8(self.spec_raw(), 7, 1) == 1
    }

    /// All bits clear.
    pub fn new() -> (r: Self)
        ensures
            r.spec_raw() == 0,
    {
        ChannelIdsSelection(0)
    }

    /// The value with the given packed bits.
    pub fn from_raw(raw: u8) -> (r: Self)
        ensures
            r.spec_raw() == raw,
            r == Self::spec_from_raw(raw),
    {
        ChannelIdsSelection(raw)
    }

    /// The packed bits.
    pub fn into_raw(self) -> (r: u8)
        ensures
            r == self.spec_raw(),
    {
        self.0
    }

    pub fn a(&self) -> (r: bool)
        ensures
            r == self.spec_a(),
    {
        field_u8(self.0, 0, 1) == 1
    }

    pub fn set_a(&mut self, value: bool)
        ensures
            final(self).spec_raw() == spec_with_field_u8(old(self).spec_raw(), 0, 1, (if value { 1u8 } else { 0u8 })),
            final(self).spec_a() == value,
            final(self).spec_b() == old(self).spec_b(),
            final(self).spec_c() == old(self).spec_c(),
            final(self).spec_d() == old(self).spec_d(),
            final(self).spec_e() == old(self).spec_e(),
            final(self).spec_f() == old(self).spec_f(),
            final(self).spec_g() == old(self).spec_g(),
            final(self).spec_h() == old(self).spec_h(),
    {
        let x: u8 = if value { 1 } else { 0 };
        let ghost old_raw = self.0;
        proof {
            lemma_shift_table_u8();
            lemma_with_field_same_u8(old_raw, 0, 1, x);
            lemma_with_field_other_u8(old_raw, 0, 1, x, 1, 1);
            lemma_with_field_other_u8(old_raw, 0, 1, x, 2, 1);
            lemma_with_field_other_u8(old_raw, 0, 1, x, 3, 1);
            lemma_with_field_other_u8(old_raw, 0, 1, x, 4, 1);
            lemma_with_field_other_u8(old_raw, 0, 1, x, 5, 1);
            lemma_with_field_other_u8(old_raw, 0, 1, x, 6, 1);
            lemma_with_field_other_u8(old_raw, 0, 1, x, 7, 1);
        }
        self.0 = with_field_u8(self.0, 0, 1, x);
    }

    pub fn with_a(self, value: bool) -> (r: Self)
        ensures
            r.spec_raw() == spec_with_field_u8(self.spec_raw(), 0, 1, (if value { 1u8 } else { 0u8 })),
            r.spec_a() == value,
            r.spec_b() == self.spec_b(),
            r.spec_c() == self.spec_c(),
            r.spec_d() == self.spec_d(),
            r.spec_e() == self.spec_e(),
            r.spec_f() == self.spec_f(),
            r.spec_g() == self.spec_g(),
            r.spec_h() == self.spec_h(),
    {
        let mut r = self;
        r.set_a(value);
        r
    }

    pub fn b(&self) -> (r: bool)
        ensures
            r == self.spec_b(),
    {
        field_u8(self.0, 1, 1) == 1
    }

    pub fn set_b(&mut self, value: bool)
        ensures
            final(self).spec_raw() == spec_with_field_u8(old(self).spec_raw(), 1, 1, (if value { 1u8 } else { 0u8 })),
            final(self).spec_b() == value,
            final(self).spec_a() == old(self).spec_a(),
            final(self).spec_c() == old(self).spec_c(),
            final(self).spec_d() == old(self).spec_d(),
            final(self).spec_e() == old(self).spec_e(),
            final(self).spec_f() == old(self).spec_f(),
            final(self).spec_g() == old(self).spec_g(),
            final(self).spec_h() == old(self).spec_h(),
    {
        let x: u8 = if value { 1 } else { 0 };
        let ghost old_raw = self.0;
        proof {
            lemma_shift_table_u8();
            lemma_with_field_same_u8(old_raw, 1, 1, x);
            lemma_with_field_other_u8(old_raw, 1, 1, x, 0, 1);
            lemma_with_field_other_u8(old_raw, 1, 1, x, 2, 1);
            lemma_with_field_other_u8(old_raw, 1, 1, x, 3, 1);
            lemma_with_field_other_u8(old_raw, 1, 1, x, 4, 1);
            lemma_with_field_other_u8(old_raw, 1, 1, x, 5, 1);
            lemma_with_field_other_u8(old_raw, 1, 1, x, 6, 1);
            lemma_with_field_other_u8(old_raw, 1, 1, x, 7, 1);
        }
        self.0 = with_field_u8(self.0, 1, 1, x);
    }

    pub fn with_b(self, value: bool) -> (r: Self)
        ensures
            r.spec_raw() == spec_with_field_u8(self.spec_raw(), 1, 1, (if value { 1u8 } else { 0u8 })),
            r.spec_b() == value,
            r.spec_a() == self.spec_a(),
            r.spec_c() == self.spec_c(),
            r.spec_d() == self.spec_d(),
            r.spec_e() == self.spec_e(),
            r.spec_f() == self.spec_f(),
            r.spec_g() == self.spec_g(),
            r.spec_h() == self.spec_h(),
    {
        let mut r = self;
        r.set_b(value);
        r
    }

    pub fn c(&self) -> (r: bool)
        ensures
            r == self.spec_c(),
    {
        field_u8(self.0, 2, 1) == 1
    }

    pub fn set_c(&mut self, value: bool)
        ensures
            final(self).spec_raw() == spec_with_field_u8(old(self).spec_raw(), 2, 1, (if value { 1u8 } else { 0u8 })),
            final(self).spec_c() == value,
            final(self).spec_a() == old(self).spec_a(),
            final(self).spec_b() == old(self).spec_b(),
            final(self).spec_d() == old(self).spec_d(),
            final(self).spec_e() == old(self).spec_e(),
            final(self).spec_f() == old(self).spec_f(),
            final(self).spec_g() == old(self).spec_g(),
            final(self).spec_h() == old(self).spec_h(),
    {
        let x: u8 = if value { 1 } else { 0 };
        let ghost old_raw = self.0;
        proof {
            lemma_shift_table_u8();
            lemma_with_field_same_u8(old_raw, 2, 1, x);
            lemma_with_field_other_u8(old_raw, 2, 1, x, 0, 1);
            lemma_with_field_other_u8(old_raw, 2, 1, x, 1, 1);
            lemma_with_field_other_u8(old_raw, 2, 1, x, 3, 1);
            lemma_with_field_other_u8(old_raw, 2, 1, x, 4, 1);
            lemma_with_field_other_u8(old_raw, 2, 1, x, 5, 1);
            lemma_with_field_other_u8(old_raw, 2, 1, x, 6, 1);
            lemma_with_field_other_u8(old_raw, 2, 1, x, 7, 1);
        }
        self.0 = with_field_u8(self.0, 2, 1, x);
    }

    pub fn with_c(self, value: bool) -> (r: Self)
        ensures
            r.spec_raw() == spec_with_field_u8(self.spec_raw(), 2, 1, (if value { 1u8 } else { 0u8 })),
            r.spec_c() == value,
            r.spec_a() == self.spec_a(),
            r.spec_b() == self.spec_b(),
            r.spec_d() == self.spec_d(),
            r.spec_e() == self.spec_e(),
            r.spec_f() == self.spec_f(),
            r.spec_g() == self.spec_g(),
            r.spec_h() == self.spec_h(),
    {
        let mut r = self;
        r.set_c(value);
        r
    }

    pub fn d(&self) -> (r: bool)
        ensures
            r == self.spec_d(),
    {
        field_u8(self.0, 3, 1) == 1
    }

    pub fn set_d(&mut self, value: bool)
        ensures
            final(self).spec_raw() == spec_with_field_u8(old(self).spec_raw(), 3, 1, (if value { 1u8 } else { 0u8 })),
            final(self).spec_d() == value,
            final(self).spec_a() == old(self).spec_a(),
            final(self).spec_b() == old(self).spec_b(),
            final(self).spec_c() == old(self).spec_c(),
            final(self).spec_e() == old(self).spec_e(),
            final(self).spec_f() == old(self).spec_f(),
            final(self).spec_g() == old(self).spec_g(),
            final(self).spec_h() == old(self).spec_h(),
    {
        let x: u8 = if value { 1 } else { 0 };
        let ghost old_raw = self.0;
        proof {
            lemma_shift_table_u8();
            lemma_with_field_same_u8(old_raw, 3, 1, x);
            lemma_with_field_other_u8(old_raw, 3, 1, x, 0, 1);
            lemma_with_field_other_u8(old_raw, 3, 1, x, 1, 1);
            lemma_with_field_other_u8(old_raw, 3, 1, x, 2, 1);
            lemma_with_field_other_u8(old_raw, 3, 1, x, 4, 1);
            lemma_with_field_other_u8(old_raw, 3, 1, x, 5, 1);
            lemma_with_field_other_u8(old_raw, 3, 1, x, 6, 1);
            lemma_with_field_other_u8(old_raw, 3, 1, x, 7, 1);
        }
        self.0 = with_field_u8(self.0, 3, 1, x);
    }

    pub fn with_d(self, value: bool) -> (r: Self)
        ensures
            r.spec_raw() == spec_with_field_u8(self.spec_raw(), 3, 1, (if value { 1u8 } else { 0u8 })),
            r.spec_d() == value,
            r.spec_a() == self.spec_a(),
            r.spec_b() == self.spec_b(),
            r.spec_c() == self.spec_c(),
            r.spec_e() == self.spec_e(),
            r.spec_f() == self.spec_f(),
            r.spec_g() == self.spec_g(),
            r.spec_h() == self.spec_h(),
    {
        let mut r = self;
        r.set_d(value);
        r
    }

    pub fn e(&self) -> (r: bool)
        ensures
            r == self.spec_e(),
    {
        field_u8(self.0, 4, 1) == 1
    }

    pub fn set_e(&mut self, value: bool)
        ensures
            final(self).spec_raw() == spec_with_field_u8(old(self).spec_raw(), 4, 1, (if value { 1u8 } else { 0u8 })),
            final(self).spec_e() == value,
            final(self).spec_a() == old(self).spec_a(),
            final(self).spec_b() == old(self).spec_b(),
            final(self).spec_c() == old(self).spec_c(),
            final(self).spec_d() == old(self).spec_d(),
            final(self).spec_f() == old(self).spec_f(),
            final(self).spec_g() == old(self).spec_g(),
            final(self).spec_h() == old(self).spec_h(),
    {
        let x: u8 = if value { 1 } else { 0 };
        let ghost old_raw = self.0;
        proof {
            lemma_shift_table_u8();
            lemma_with_field_same_u8(old_raw, 4, 1, x);
            lemma_with_field_other_u8(old_raw, 4, 1, x, 0, 1);
            lemma_with_field_other_u8(old_raw, 4, 1, x, 1, 1);
            lemma_with_field_other_u8(old_raw, 4, 1, x, 2, 1);
            lemma_with_field_other_u8(old_raw, 4, 1, x, 3, 1);
            lemma_with_field_other_u8(old_raw, 4, 1, x, 5, 1);
            lemma_with_field_other_u8(old_raw, 4, 1, x, 6, 1);
            lemma_with_field_other_u8(old_raw, 4, 1, x, 7, 1);
        }
        self.0 = with_field_u8(self.0, 4, 1, x);
    }

    pub fn with_e(self, value: bool) -> (r: Self)
        ensures
            r.spec_raw() == spec_with_field_u8(self.spec_raw(), 4, 1, (if value { 1u8 } else { 0u8 })),
            r.spec_e() == value,
            r.spec_a() == self.spec_a(),
            r.spec_b() == self.spec_b(),
            r.spec_c() == self.spec_c(),
            r.spec_d() == self.spec_d(),
            r.spec_f() == self.spec_f(),
            r.spec_g() == self.spec_g(),
            r.spec_h() == self.spec_h(),
    {
        let mut r = self;
        r.set_e(value);
        r
    }

    pub fn f(&self) -> (r: bool)
        ensures
            r == self.spec_f(),
    {
        field_u8(self.0, 5, 1) == 1
    }

    pub fn set_f(&mut self, value: bool)
        ensures
            final(self).spec_raw() == spec_with_field_u8(old(self).spec_raw(), 5, 1, (if value { 1u8 } else { 0u8 })),
            final(self).spec_f() == value,
            final(self).spec_a() == old(self).spec_a(),
            final(self).spec_b() == old(self).spec_b(),
            final(self).spec_c() == old(self).spec_c(),
            final(self).spec_d() == old(self).spec_d(),
            final(self).spec_e() == old(self).spec_e(),
            final(self).spec_g() == old(self).spec_g(),
            final(self).spec_h() == old(self).spec_h(),
    {
        let x: u8 = if value { 1 } else { 0 };
        let ghost old_raw = self.0;
        proof {
            lemma_shift_table_u8();
            lemma_with_field_same_u8(old_raw, 5, 1, x);
            lemma_with_field_other_u8(old_raw, 5, 1, x, 0, 1);
            lemma_with_field_other_u8(old_raw, 5, 1, x, 1, 1);
            lemma_with_field_other_u8(old_raw, 5, 1, x, 2, 1);
            lemma_with_field_other_u8(old_raw, 5, 1, x, 3, 1);
            lemma_with_field_other_u8(old_raw, 5, 1, x, 4, 1);
            lemma_with_field_other_u8(old_raw, 5, 1, x, 6, 1);
            lemma_with_field_other_u8(old_raw, 5, 1, x, 7, 1);
        }
        self.0 = with_field_u8(self.0, 5, 1, x);
    }

    pub fn with_f(self, value: bool) -> (r: Self)
        ensures
            r.spec_raw() == spec_with_field_u8(self.spec_raw(), 5, 1, (if value { 1u8 } else { 0u8 })),
            r.spec_f() == value,
            r.spec_a() == self.spec_a(),
            r.spec_b() == self.spec_b(),
            r.spec_c() == self.spec_c(),
            r.spec_d() == self.spec_d(),
            r.spec_e() == self.spec_e(),
            r.spec_g() == self.spec_g(),
            r.spec_h() == self.spec_h(),
    {
        let mut r = self;
        r.set_f(value);
        r
    }

    pub fn g(&self) -> (r: bool)
        ensures
            r == self.spec_g(),
    {
        field_u8(self.0, 6, 1) == 1
    }

    pub fn set_g(&mut self, value: bool)
        ensures
            final(self).spec_raw() == spec_with_field_u8(old(self).spec_raw(), 6, 1, (if value { 1u8 } else { 0u8 })),
            final(self).spec_g() == value,
            final(self).spec_a() == old(self).spec_a(),
            final(self).spec_b() == old(self).spec_b(),
            final(self).spec_c() == old(self).spec_c(),
            final(self).spec_d() == old(self).spec_d(),
            final(self).spec_e() == old(self).spec_e(),
            final(self).spec_f() == old(self).spec_f(),
            final(self).spec_h() == old(self).spec_h(),
    {
        let x: u8 = if value { 1 } else { 0 };
        let ghost old_raw = self.0;
        proof {
            lemma_shift_table_u8();
            lemma_with_field_same_u8(old_raw, 6, 1, x);
            lemma_with_field_other_u8(old_raw, 6, 1, x, 0, 1);
            lemma_with_field_other_u8(old_raw, 6, 1, x, 1, 1);
            lemma_with_field_other_u8(old_raw, 6, 1, x, 2, 1);
            lemma_with_field_other_u8(old_raw, 6, 1, x, 3, 1);
            lemma_with_field_other_u8(old_raw, 6, 1, x, 4, 1);
            lemma_with_field_other_u8(old_raw, 6, 1, x, 5, 1);
            lemma_with_field_other_u8(old_raw, 6, 1, x, 7, 1);
        }
        self.0 = with_field_u8(self.0, 6, 1, x);
    }

    pub fn with_g(self, value: bool) -> (r: Self)
        ensures
            r.spec_raw() == spec_with_field_u8(self.spec_raw(), 6, 1, (if value { 1u8 } else { 0u8 })),
            r.spec_g() == value,
            r.spec_a() == self.spec_a(),
            r.spec_b() == self.spec_b(),
            r.spec_c() == self.spec_c(),
            r.spec_d() == self.spec_d(),
            r.spec_e() == self.spec_e(),
            r.spec_f() == self.spec_f(),
            r.spec_h() == self.spec_h(),
    {
        let mut r = self;
        r.set_g(value);
        r
    }

    pub fn h(&self) -> (r: bool)
        ensures
            r == self.spec_h(),
    {
        field_u8(self.0, 7, 1) == 1
    }

    pub fn set_h(&mut self, value: bool)
        ensures
            final(self).spec_raw() == spec_with_field_u8(old(self).spec_raw(), 7, 1, (if value { 1u8 } else { 0u8 })),
            final(self).spec_h() == value,
            final(self).spec_a() == old(self).spec_a(),
            final(self).spec_b() == old(self).spec_b(),
            final(self).spec_c() == old(self).spec_c(),
            final(self).spec_d() == old(self).spec_d(),
            final(self).spec_e() == old(self).spec_e(),
            final(self).spec_f() == old(self).spec_f(),
            final(self).spec_g() == old(self).spec_g(),
    {
        let x: u8 = if value { 1 } else { 0 };
        let ghost old_raw = self.0;
        proof {
            lemma_shift_table_u8();
            lemma_with_field_same_u8(old_raw, 7, 1, x);
            lemma_with_field_other_u8(old_raw, 7, 1, x, 0, 1);
            lemma_with_field_other_u8(old_raw, 7, 1, x, 1, 1);
            lemma_with_field_other_u8(old_raw, 7, 1, x, 2, 1);
            lemma_with_field_other_u8(old_raw, 7, 1, x, 3, 1);
            lemma_with_field_other_u8(old_raw, 7, 1, x, 4, 1);
            lemma_with_field_other_u8(old_raw, 7, 1, x, 5, 1);
            lemma_with_field_other_u8(old_raw, 7, 1, x, 6, 1);
        }
        self.0 = with_field_u8(self.0, 7, 1, x);
    }

    pub fn with_h(self, value: bool) -> (r: Self)
        ensures
            r.spec_raw() == spec_with_field_u8(self.spec_raw(), 7, 1, (if value { 1u8 } else { 0u8 })),
            r.spec_h() == value,
            r.spec_a() == self.spec_a(),
            r.spec_b() == self.spec_b(),
            r.spec_c() == self.spec_c(),
            r.spec_d() == self.spec_d(),
            r.spec_e() == self.spec_e(),
            r.spec_f() == self.spec_f(),
            r.spec_g() == self.spec_g(),
    {
        let mut r = self;
        r.set_h(value);
        r
    }

    /// The bits that have a meaning; the others are reserved.
    pub const VALID_BITS: u64 = 0xff;

    /// Whether VALUE leaves all reserved bits clear.
    pub fn all_reserved_bits_are_unused(value: u64) -> (r: bool)
        ensures
            r == (value & !0xffu64 == 0),
    {
        value & !Self::VALID_BITS == 0
    }

    pub fn from_u64(value: u64) -> (r: Option<Self>)
        ensures
            r is Some <==> (value & !0xffu64 == 0 && value <= 0xff),
            r matches Some(x) ==> x.spec_raw() == value,
    {
        if Self::all_reserved_bits_are_unused(value) {
            if value <= 0xff {
                Some(ChannelIdsSelection(value as u8))
            } else {
                None
            }
        } else {
            None
        }
    }

    pub fn from_i64(value: i64) -> (r: Option<Self>)
        ensures
            r is Some <==> (value >= 0 && (value as u64) & !0xffu64 == 0 && value <= 0xff),
            r matches Some(x) ==> x.spec_raw() == value,
    {
        if value >= 0 {
            Self::from_u64(value as u64)
        } else {
            None
        }
    }

    pub fn to_u64(&self) -> (r: Option<u64>)
        ensures
            r == Some(self.spec_raw() as u64),
    {
        Some(self.0 as u64)
    }

    pub fn to_i64(&self) -> (r: Option<i64>)
        ensures
            r == Some(self.spec_raw() as i64),
    {
        Some(self.0 as i64)
    }

}

/// The channels that an override applies to: any channel (stored as 0xFF) or a selection.
#[derive(Debug, Clone, Copy, PartialEq, Eq, Structural)]
pub enum ChannelIds {
    Any,
    Specific(ChannelIdsSelection),
}

impl ChannelIds {
    /// The number that stands for this value.
    pub open spec fn spec_to_u64(self) -> u64 {
        match self {
            ChannelIds::Any => 0xff,
            ChannelIds::Specific(ids) => ids.spec_raw() as u64,
        }
    }

    /// Whether this value has a number: a selection of all eight channels would be read
    /// as "any".
    pub open spec fn spec_has_number(self) -> bool {
        match self {
            ChannelIds::Specific(ids) => ids.spec_raw() != 0xff,
            _ => true,
        }
    }

    /// The value that VALUE stands for, if any.
    pub open spec fn spec_from_u64(value: u64) -> Option<ChannelIds> {
        if value == 0xff {
            Some(ChannelIds::Any)
        } else if value < 0xff {
            Some(ChannelIds::Specific(ChannelIdsSelection::spec_from_raw(value as u8)))
        } else {
            None
        }
    }

    pub fn from_u64(raw_value: u64) -> (r: Option<ChannelIds>)
        ensures
            r == ChannelIds::spec_from_u64(raw_value),
    {
        if raw_value == 0xff {
            Some(Self::Any)
        } else if raw_value < 0xff {
            Some(Self::Specific(ChannelIdsSelection::from_raw(raw_value as u8)))
        } else {
            None
        }
    }

    pub fn from_i64(raw_value: i64) -> (r: Option<ChannelIds>)
        ensures
            r == (if raw_value >= 0 { ChannelIds::spec_from_u64(raw_value as u64) } else { None }),
    {
        if raw_value >= 0 {
            Self::from_u64(raw_value as u64)
        } else {
            None
        }
    }

    pub fn to_u64(&self) -> (r: Option<u64>)
        requires
            self.spec_has_number(),
        ensures
            r == Some(self.spec_to_u64()),
    {
        match self {
            Self::Any => Some(0xff),
            Self::Specific(ids) => ids.to_u64(),
        }
    }

    pub fn to_i64(&self) -> (r: Option<i64>)
        requires
            self.spec_has_number(),
        ensures
            r == Some(self.spec_to_u64() as i64),
    {
        match self {
            Self::Any => Some(0xff),
            Self::Specific(ids) => ids.to_i64(),
        }
    }
}

/// A channel selection is read back from its own number, and a number that is read as a
/// value is that value's number.
pub proof fn lemma_channel_ids_roundtrip(x: ChannelIds, value: u64)
    ensures
        x.spec_has_number() ==> ChannelIds::spec_from_u64(x.spec_to_u64()) == Some(x),
        ChannelIds::spec_from_u64(value) matches Some(y) ==> y.spec_has_number() && y.spec_to_u64() == value,
{
    if let ChannelIds::Specific(ids) = x {
        ChannelIdsSelection::lemma_raw(ids, ids.spec_raw());
    }
    if value < 0xff {
        ChannelIdsSelection::lemma_raw(ChannelIdsSelection::spec_from_raw(value as u8), value as u8);
    }
}

/// The sockets that an override applies to (one bit each).
#[derive(Debug, Clone, Copy, PartialEq, Eq, Structural)]
pub struct SocketIds(u8);

impl SocketIds {
    /// The packed bits.
    pub closed spec fn spec_raw(self) -> u8 {
        self.0
    }

    /// The value with the given packed bits.
    pub closed spec fn spec_from_raw(raw: u8) -> Self {
        SocketIds(raw)
    }

    /// The packed bits determine the value, and any packed bits make a value.
    pub proof fn lemma_raw(x: Self, raw: u8)
        ensures
            Self::spec_from_raw(raw).spec_raw() == raw,
            Self::spec_from_raw(x.spec_raw()) == x,
    {
    }

    pub open spec fn spec_socket_0(self) -> bool {
        spec_field_u8(self.spec_raw(), 0, 1) == 1
    }

    pub open spec fn spec_socket_1(self) -> bool {
        spec_field_u8(self.spec_raw(), 1, 1) == 1
    }

    pub open spec fn spec_socket_2(self) -> bool {
        spec_field_u8(self.spec_raw(), 2, 1) == 1
    }

    pub open spec fn spec_socket_3(self) -> bool {
        spec_field_u8(self.spec_raw(), 3, 1) == 1
    }

    pub open spec fn spec_socket_4(self) -> bool {
        spec_field_u8(self.spec_raw(), 4, 1) == 1
    }

    pub open spec fn spec_socket_5(self) -> bool {
        spec_field_u8(self.spec_raw(), 5, 1) == 1
    }

    pub open spec fn spec_socket_6(self) -> bool {
        spec_field_u8(self.spec_raw(), 6, 1) == 1
    }

    pub open spec fn spec_socket_7(self) -> bool {
        spec_field_u8(self.spec_raw(), 7, 1) == 1
    }

    /// All bits clear.
    pub fn new() -> (r: Self)
        ensures
            r.spec_raw() == 0,
    {
        SocketIds(0)
    }

    /// The value with the given packed bits.
    pub fn from_raw(raw: u8) -> (r: Self)
        ensures
            r.spec_raw() == raw,
            r == Self::spec_from_raw(raw),
    {
        SocketIds(raw)
    }

    /// The packed bits.
    pub fn into_raw(self) -> (r: u8)
        ensures
            r == self.spec_raw(),
    {
        self.0
    }

    pub fn socket_0(&self) -> (r: bool)
        ensures
            r == self.spec_socket_0(),
    {
        field_u8(self.0, 0, 1) == 1
    }

    pub fn set_socket_0(&mut self, value: bool)
        ensures
            final(self).spec_raw() == spec_with_field_u8(old(self).spec_raw(), 0, 1, (if value { 1u8 } else { 0u8 })),
            final(self).spec_socket_0() == value,
            final(self).spec_socket_1() == old(self).spec_socket_1(),
            final(self).spec_socket_2() == old(self).spec_socket_2(),
            final(self).spec_socket_3() == old(self).spec_socket_3(),
            final(self).spec_socket_4() == old(self).spec_socket_4(),
            final(self).spec_socket_5() == old(self).spec_socket_5(),
            final(self).spec_socket_6() == old(self).spec_socket_6(),
            final(self).spec_socket_7() == old(self).spec_socket_7(),
    {
        let x: u8 = if value { 1 } else { 0 };
        let ghost old_raw = self.0;
        proof {
            lemma_shift_table_u8();
            lemma_with_field_same_u8(old_raw, 0, 1, x);
            lemma_with_field_other_u8(old_raw, 0, 1, x, 1, 1);
            lemma_with_field_other_u8(old_raw, 0, 1, x, 2, 1);
            lemma_with_field_other_u8(old_raw, 0, 1, x, 3, 1);
            lemma_with_field_other_u8(old_raw, 0, 1, x, 4, 1);
            lemma_with_field_other_u8(old_raw, 0, 1, x, 5, 1);
            lemma_with_field_other_u8(old_raw, 0, 1, x, 6, 1);
            lemma_with_field_other_u8(old_raw, 0, 1, x, 7, 1);
        }
        self.0 = with_field_u8(self.0, 0, 1, x);
    }

    pub fn with_socket_0(self, value: bool) -> (r: Self)
        ensures
            r.spec_raw() == spec_with_field_u8(self.spec_raw(), 0, 1, (if value { 1u8 } else { 0u8 })),
            r.spec_socket_0() == value,
            r.spec_socket_1() == self.spec_socket_1(),
            r.spec_socket_2() == self.spec_socket_2(),
            r.spec_socket_3() == self.spec_socket_3(),
            r.spec_socket_4() == self.spec_socket_4(),
            r.spec_socket_5() == self.spec_socket_5(),
            r.spec_socket_6() == self.spec_socket_6(),
            r.spec_socket_7() == self.spec_socket_7(),
    {
        let mut r = self;
        r.set_socket_0(value);
        r
    }

    pub fn socket_1(&self) -> (r: bool)
        ensures
            r == self.spec_socket_1(),
    {
        field_u8(self.0, 1, 1) == 1
    }

    pub fn set_socket_1(&mut self, value: bool)
        ensures
            final(self).spec_raw() == spec_with_field_u8(old(self).spec_raw(), 1, 1, (if value { 1u8 } else { 0u8 })),
            final(self).spec_socket_1() == value,
            final(self).spec_socket_0() == old(self).spec_socket_0(),
            final(self).spec_socket_2() == old(self).spec_socket_2(),
            final(self).spec_socket_3() == old(self).spec_socket_3(),
            final(self).spec_socket_4() == old(self).spec_socket_4(),
            final(self).spec_socket_5() == old(self).spec_socket_5(),
            final(self).spec_socket_6() == old(self).spec_socket_6(),
            final(self).spec_socket_7() == old(self).spec_socket_7(),
    {
        let x: u8 = if value { 1 } else { 0 };
        let ghost old_raw = self.0;
        proof {
            lemma_shift_table_u8();
            lemma_with_field_same_u8(old_raw, 1, 1, x);
            lemma_with_field_other_u8(old_raw, 1, 1, x, 0, 1);
            lemma_with_field_other_u8(old_raw, 1, 1, x, 2, 1);
            lemma_with_field_other_u8(old_raw, 1, 1, x, 3, 1);
            lemma_with_field_other_u8(old_raw, 1, 1, x, 4, 1);
            lemma_with_field_other_u8(old_raw, 1, 1, x, 5, 1);
            lemma_with_field_other_u8(old_raw, 1, 1, x, 6, 1);
            lemma_with_field_other_u8(old_raw, 1, 1, x, 7, 1);
        }
        self.0 = with_field_u8(self.0, 1, 1, x);
    }

    pub fn with_socket_1(self, value: bool) -> (r: Self)
        ensures
            r.spec_raw() == spec_with_field_u8(self.spec_raw(), 1, 1, (if value { 1u8 } else { 0u8 })),
            r.spec_socket_1() == value,
            r.spec_socket_0() == self.spec_socket_0(),
            r.spec_socket_2() == self.spec_socket_2(),
            r.spec_socket_3() == self.spec_socket_3(),
            r.spec_socket_4() == self.spec_socket_4(),
            r.spec_socket_5() == self.spec_socket_5(),
            r.spec_socket_6() == self.spec_socket_6(),
            r.spec_socket_7() == self.spec_socket_7(),
    {
        let mut r = self;
        r.set_socket_1(value);
        r
    }

    pub fn socket_2(&self) -> (r: bool)
        ensures
            r == self.spec_socket_2(),
    {
        field_u8(self.0, 2, 1) == 1
    }

    pub fn set_socket_2(&mut self, value: bool)
        ensures
            final(self).spec_raw() == spec_with_field_u8(old(self).spec_raw(), 2, 1, (if value { 1u8 } else { 0u8 })),
            final(self).spec_socket_2() == value,
            final(self).spec_socket_0() == old(self).spec_socket_0(),
            final(self).spec_socket_1() == old(self).spec_socket_1(),
            final(self).spec_socket_3() == old(self).spec_socket_3(),
            final(self).spec_socket_4() == old(self).spec_socket_4(),
            final(self).spec_socket_5() == old(self).spec_socket_5(),
            final(self).spec_socket_6() == old(self).spec_socket_6(),
            final(self).spec_socket_7() == old(self).spec_socket_7(),
    {
        let x: u8 = if value { 1 } else { 0 };
        let ghost old_raw = self.0;
        proof {
            lemma_shift_table_u8();
            lemma_with_field_same_u8(old_raw, 2, 1, x);
            lemma_with_field_other_u8(old_raw, 2, 1, x, 0, 1);
            lemma_with_field_other_u8(old_raw, 2, 1, x, 1, 1);
            lemma_with_field_other_u8(old_raw, 2, 1, x, 3, 1);
            lemma_with_field_other_u8(old_raw, 2, 1, x, 4, 1);
            lemma_with_field_other_u8(old_raw, 2, 1, x, 5, 1);
            lemma_with_field_other_u8(old_raw, 2, 1, x, 6, 1);
            lemma_with_field_other_u8(old_raw, 2, 1, x, 7, 1);
        }
        self.0 = with_field_u8(self.0, 2, 1, x);
    }

    pub fn with_socket_2(self, value: bool) -> (r: Self)
        ensures
            r.spec_raw() == spec_with_field_u8(self.spec_raw(), 2, 1, (if value { 1u8 } else { 0u8 })),
            r.spec_socket_2() == value,
            r.spec_socket_0() == self.spec_socket_0(),
            r.spec_socket_1() == self.spec_socket_1(),
            r.spec_socket_3() == self.spec_socket_3(),
            r.spec_socket_4() == self.spec_socket_4(),
            r.spec_socket_5() == self.spec_socket_5(),
            r.spec_socket_6() == self.spec_socket_6(),
            r.spec_socket_7() == self.spec_socket_7(),
    {
        let mut r = self;
        r.set_socket_2(value);
        r
    }

    pub fn socket_3(&self) -> (r: bool)
        ensures
            r == self.spec_socket_3(),
    {
        field_u8(self.0, 3, 1) == 1
    }

    pub fn set_socket_3(&mut self, value: bool)
        ensures
            final(self).spec_raw() == spec_with_field_u8(old(self).spec_raw(), 3, 1, (if value { 1u8 } else { 0u8 })),
            final(self).spec_socket_3() == value,
            final(self).spec_socket_0() == old(self).spec_socket_0(),
            final(self).spec_socket_1() == old(self).spec_socket_1(),
            final(self).spec_socket_2() == old(self).spec_socket_2(),
            final(self).spec_socket_4() == old(self).spec_socket_4(),
            final(self).spec_socket_5() == old(self).spec_socket_5(),
            final(self).spec_socket_6() == old(self).spec_socket_6(),
            final(self).spec_socket_7() == old(self).spec_socket_7(),
    {
        let x: u8 = if value { 1 } else { 0 };
        let ghost old_raw = self.0;
        proof {
            lemma_shift_table_u8();
            lemma_with_field_same_u8(old_raw, 3, 1, x);
            lemma_with_field_other_u8(old_raw, 3, 1, x, 0, 1);
            lemma_with_field_other_u8(old_raw, 3, 1, x, 1, 1);
            lemma_with_field_other_u8(old_raw, 3, 1, x, 2, 1);
            lemma_with_field_other_u8(old_raw, 3, 1, x, 4, 1);
            lemma_with_field_other_u8(old_raw, 3, 1, x, 5, 1);
            lemma_with_field_other_u8(old_raw, 3, 1, x, 6, 1);
            lemma_with_field_other_u8(old_raw, 3, 1, x, 7, 1);
        }
        self.0 = with_field_u8(self.0, 3, 1, x);
    }

    pub fn with_socket_3(self, value: bool) -> (r: Self)
        ensures
            r.spec_raw() == spec_with_field_u8(self.spec_raw(), 3, 1, (if value { 1u8 } else { 0u8 })),
            r.spec_socket_3() == value,
            r.spec_socket_0() == self.spec_socket_0(),
            r.spec_socket_1() == self.spec_socket_1(),
            r.spec_socket_2() == self.spec_socket_2(),
            r.spec_socket_4() == self.spec_socket_4(),
            r.spec_socket_5() == self.spec_socket_5(),
            r.spec_socket_6() == self.spec_socket_6(),
            r.spec_socket_7() == self.spec_socket_7(),
    {
        let mut r = self;
        r.set_socket_3(value);
        r
    }

    pub fn socket_4(&self) -> (r: bool)
        ensures
            r == self.spec_socket_4(),
    {
        field_u8(self.0, 4, 1) == 1
    }

    pub fn set_socket_4(&mut self, value: bool)
        ensures
            final(self).spec_raw() == spec_with_field_u8(old(self).spec_raw(), 4, 1, (if value { 1u8 } else { 0u8 })),
            final(self).spec_socket_4() == value,
            final(self).spec_socket_0() == old(self).spec_socket_0(),
            final(self).spec_socket_1() == old(self).spec_socket_1(),
            final(self).spec_socket_2() == old(self).spec_socket_2(),
            final(self).spec_socket_3() == old(self).spec_socket_3(),
            final(self).spec_socket_5() == old(self).spec_socket_5(),
            final(self).spec_socket_6() == old(self).spec_socket_6(),
            final(self).spec_socket_7() == old(self).spec_socket_7(),
    {
        let x: u8 = if value { 1 } else { 0 };
        let ghost old_raw = self.0;
        proof {
            lemma_shift_table_u8();
            lemma_with_field_same_u8(old_raw, 4, 1, x);
            lemma_with_field_other_u8(old_raw, 4, 1, x, 0, 1);
            lemma_with_field_other_u8(old_raw, 4, 1, x, 1, 1);
            lemma_with_field_other_u8(old_raw, 4, 1, x, 2, 1);
            lemma_with_field_other_u8(old_raw, 4, 1, x, 3, 1);
            lemma_with_field_other_u8(old_raw, 4, 1, x, 5, 1);
            lemma_with_field_other_u8(old_raw, 4, 1, x, 6, 1);
            lemma_with_field_other_u8(old_raw, 4, 1, x, 7, 1);
        }
        self.0 = with_field_u8(self.0, 4, 1, x);
    }

    pub fn with_socket_4(self, value: bool) -> (r: Self)
        ensures
            r.spec_raw() == spec_with_field_u8(self.spec_raw(), 4, 1, (if value { 1u8 } else { 0u8 })),
            r.spec_socket_4() == value,
            r.spec_socket_0() == self.spec_socket_0(),
            r.spec_socket_1() == self.spec_socket_1(),
            r.spec_socket_2() == self.spec_socket_2(),
            r.spec_socket_3() == self.spec_socket_3(),
            r.spec_socket_5() == self.spec_socket_5(),
            r.spec_socket_6() == self.spec_socket_6(),
            r.spec_socket_7() == self.spec_socket_7(),
    {
        let mut r = self;
        r.set_socket_4(value);
        r
    }

    pub fn socket_5(&self) -> (r: bool)
        ensures
            r == self.spec_socket_5(),
    {
        field_u8(self.0, 5, 1) == 1
    }

    pub fn set_socket_5(&mut self, value: bool)
        ensures
            final(self).spec_raw() == spec_with_field_u8(old(self).spec_raw(), 5, 1, (if value { 1u8 } else { 0u8 })),
            final(self).spec_socket_5() == value,
            final(self).spec_socket_0() == old(self).spec_socket_0(),
            final(self).spec_socket_1() == old(self).spec_socket_1(),
            final(self).spec_socket_2() == old(self).spec_socket_2(),
            final(self).spec_socket_3() == old(self).spec_socket_3(),
            final(self).spec_socket_4() == old(self).spec_socket_4(),
            final(self).spec_socket_6() == old(self).spec_socket_6(),
            final(self).spec_socket_7() == old(self).spec_socket_7(),
    {
        let x: u8 = if value { 1 } else { 0 };
        let ghost old_raw = self.0;
        proof {
            lemma_shift_table_u8();
            lemma_with_field_same_u8(old_raw, 5, 1, x);
            lemma_with_field_other_u8(old_raw, 5, 1, x, 0, 1);
            lemma_with_field_other_u8(old_raw, 5, 1, x, 1, 1);
            lemma_with_field_other_u8(old_raw, 5, 1, x, 2, 1);
            lemma_with_field_other_u8(old_raw, 5, 1, x, 3, 1);
            lemma_with_field_other_u8(old_raw, 5, 1, x, 4, 1);
            lemma_with_field_other_u8(old_raw, 5, 1, x, 6, 1);
            lemma_with_field_other_u8(old_raw, 5, 1, x, 7, 1);
        }
        self.0 = with_field_u8(self.0, 5, 1, x);
    }

    pub fn with_socket_5(self, value: bool) -> (r: Self)
        ensures
            r.spec_raw() == spec_with_field_u8(self.spec_raw(), 5, 1, (if value { 1u8 } else { 0u8 })),
            r.spec_socket_5() == value,
            r.spec_socket_0() == self.spec_socket_0(),
            r.spec_socket_1() == self.spec_socket_1(),
            r.spec_socket_2() == self.spec_socket_2(),
            r.spec_socket_3() == self.spec_socket_3(),
            r.spec_socket_4() == self.spec_socket_4(),
            r.spec_socket_6() == self.spec_socket_6(),
            r.spec_socket_7() == self.spec_socket_7(),
    {
        let mut r = self;
        r.set_socket_5(value);
        r
    }

    pub fn socket_6(&self) -> (r: bool)
        ensures
            r == self.spec_socket_6(),
    {
        field_u8(self.0, 6, 1) == 1
    }

    pub fn set_socket_6(&mut self, value: bool)
        ensures
            final(self).spec_raw() == spec_with_field_u8(old(self).spec_raw(), 6, 1, (if value { 1u8 } else { 0u8 })),
            final(self).spec_socket_6() == value,
            final(self).spec_socket_0() == old(self).spec_socket_0(),
            final(self).spec_socket_1() == old(self).spec_socket_1(),
            final(self).spec_socket_2() == old(self).spec_socket_2(),
            final(self).spec_socket_3() == old(self).spec_socket_3(),
            final(self).spec_socket_4() == old(self).spec_socket_4(),
            final(self).spec_socket_5() == old(self).spec_socket_5(),
            final(self).spec_socket_7() == old(self).spec_socket_7(),
    {
        let x: u8 = if value { 1 } else { 0 };
        let ghost old_raw = self.0;
        proof {
            lemma_shift_table_u8();
            lemma_with_field_same_u8(old_raw, 6, 1, x);
            lemma_with_field_other_u8(old_raw, 6, 1, x, 0, 1);
            lemma_with_field_other_u8(old_raw, 6, 1, x, 1, 1);
            lemma_with_field_other_u8(old_raw, 6, 1, x, 2, 1);
            lemma_with_field_other_u8(old_raw, 6, 1, x, 3, 1);
            lemma_with_field_other_u8(old_raw, 6, 1, x, 4, 1);
            lemma_with_field_other_u8(old_raw, 6, 1, x, 5, 1);
            lemma_with_field_other_u8(old_raw, 6, 1, x, 7, 1);
        }
        self.0 = with_field_u8(self.0, 6, 1, x);
    }

    pub fn with_socket_6(self, value: bool) -> (r: Self)
        ensures
            r.spec_raw() == spec_with_field_u8(self.spec_raw(), 6, 1, (if value { 1u8 } else { 0u8 })),
            r.spec_socket_6() == value,
            r.spec_socket_0() == self.spec_socket_0(),
            r.spec_socket_1() == self.spec_socket_1(),
            r.spec_socket_2() == self.spec_socket_2(),
            r.spec_socket_3() == self.spec_socket_3(),
            r.spec_socket_4() == self.spec_socket_4(),
            r.spec_socket_5() == self.spec_socket_5(),
            r.spec_socket_7() == self.spec_socket_7(),
    {
        let mut r = self;
        r.set_socket_6(value);
        r
    }

    pub fn socket_7(&self) -> (r: bool)
        ensures
            r == self.spec_socket_7(),
    {
        field_u8(self.0, 7, 1) == 1
    }

    pub fn set_socket_7(&mut self, value: bool)
        ensures
            final(self).spec_raw() == spec_with_field_u8(old(self).spec_raw(), 7, 1, (if value { 1u8 } else { 0u8 })),
            final(self).spec_socket_7() == value,
            final(self).spec_socket_0() == old(self).spec_socket_0(),
            final(self).spec_socket_1() == old(self).spec_socket_1(),
            final(self).spec_socket_2() == old(self).spec_socket_2(),
            final(self).spec_socket_3() == old(self).spec_socket_3(),
            final(self).spec_socket_4() == old(self).spec_socket_4(),
            final(self).spec_socket_5() == old(self).spec_socket_5(),
            final(self).spec_socket_6() == old(self).spec_socket_6(),
    {
        let x: u8 = if value { 1 } else { 0 };
        let ghost old_raw = self.0;
        proof {
            lemma_shift_table_u8();
            lemma_with_field_same_u8(old_raw, 7, 1, x);
            lemma_with_field_other_u8(old_raw, 7, 1, x, 0, 1);
            lemma_with_field_other_u8(old_raw, 7, 1, x, 1, 1);
            lemma_with_field_other_u8(old_raw, 7, 1, x, 2, 1);
            lemma_with_field_other_u8(old_raw, 7, 1, x, 3, 1);
            lemma_with_field_other_u8(old_raw, 7, 1, x, 4, 1);
            lemma_with_field_other_u8(old_raw, 7, 1, x, 5, 1);
            lemma_with_field_other_u8(old_raw, 7, 1, x, 6, 1);
        }
        self.0 = with_field_u8(self.0, 7, 1, x);
    }

    pub fn with_socket_7(self, value: bool) -> (r: Self)
        ensures
            r.spec_raw() == spec_with_field_u8(self.spec_raw(), 7, 1, (if value { 1u8 } else { 0u8 })),
            r.spec_socket_7() == value,
            r.spec_socket_0() == self.spec_socket_0(),
            r.spec_socket_1() == self.spec_socket_1(),
            r.spec_socket_2() == self.spec_socket_2(),
            r.spec_socket_3() == self.spec_socket_3(),
            r.spec_socket_4() == self.spec_socket_4(),
            r.spec_socket_5() == self.spec_socket_5(),
            r.spec_socket_6() == self.spec_socket_6(),
    {
        let mut r = self;
        r.set_socket_7(value);
        r
    }

    /// The bits that have a meaning; the others are reserved.
    pub const VALID_BITS: u64 = 0xff;

    /// Whether VALUE leaves all reserved bits clear.
    pub fn all_reserved_bits_are_unused(value: u64) -> (r: bool)
        ensures
            r == (value & !0xffu64 == 0),
    {
        value & !Self::VALID_BITS == 0
    }

    pub fn from_u64(value: u64) -> (r: Option<Self>)
        ensures
            r is Some <==> (value & !0xffu64 == 0 && value <= 0xff),
            r matches Some(x) ==> x.spec_raw() == value,
    {
        if Self::all_reserved_bits_are_unused(value) {
            if value <= 0xff {
                Some(SocketIds(value as u8))
            } else {
                None
            }
        } else {
            None
        }
    }

    pub fn from_i64(value: i64) -> (r: Option<Self>)
        ensures
            r is Some <==> (value >= 0 && (value as u64) & !0xffu64 == 0 && value <= 0xff),
            r matches Some(x) ==> x.spec_raw() == value,
    {
        if value >= 0 {
            Self::from_u64(value as u64)
        } else {
            None
        }
    }

    pub fn to_u64(&self) -> (r: Option<u64>)
        ensures
            r == Some(self.spec_raw() as u64),
    {
        Some(self.0 as u64)
    }

    pub fn to_i64(&self) -> (r: Option<i64>)
        ensures
            r == Some(self.spec_raw() as i64),
    {
        Some(self.0 as i64)
    }

}

impl SocketIds {
    /// All sockets.
    pub fn all() -> (r: SocketIds)
        ensures
            r.spec_raw() == 0xff,
    {
        SocketIds(0xff)
    }
}

/// The DIMM slots that an override applies to (one bit each).
#[derive(Debug, Clone, Copy, PartialEq, Eq, Structural)]
pub struct DimmSlotsSelection(u8);

impl DimmSlotsSelection {
    /// The packed bits.
    pub closed spec fn spec_raw(self) -> u8 {
        self.0
    }

    /// The value with the given packed bits.
    pub closed spec fn spec_from_raw(raw: u8) -> Self {
        DimmSlotsSelection(raw)
    }

    /// The packed bits determine the value, and any packed bits make a value.
    pub proof fn lemma_raw(x: Self, raw: u8)
        ensures
            Self::spec_from_raw(raw).spec_raw() == raw,
            Self::spec_from_raw(x.spec_raw()) == x,
    {
    }

    pub open spec fn spec_dimm_slot_0(self) -> bool {
        spec_field_u8(self.spec_raw(), 0, 1) == 1
    }

    pub open spec fn spec_dimm_slot_1(self) -> bool {
        spec_field_u8(self.spec_raw(), 1, 1) == 1
    }

    pub open spec fn spec_dimm_slot_2(self) -> bool {
        spec_field_u8(self.spec_raw(), 2, 1) == 1
    }

    pub open spec fn spec_dimm_slot_3(self) -> bool {
        spec_field_u8(self.spec_raw(), 3, 1) == 1
    }

    /// All bits clear.
    pub fn new() -> (r: Self)
        ensures
            r.spec_raw() == 0,
    {
        DimmSlotsSelection(0)
    }

    /// The value with the given packed bits.
    pub fn from_raw(raw: u8) -> (r: Self)
        ensures
            r.spec_raw() == raw,
            r == Self::spec_from_raw(raw),
    {
        DimmSlotsSelection(raw)
    }

    /// The packed bits.
    pub fn into_raw(self) -> (r: u8)
        ensures
            r == self.spec_raw(),
    {
        self.0
    }

    pub fn dimm_slot_0(&self) -> (r: bool)
        ensures
            r == self.spec_dimm_slot_0(),
    {
        field_u8(self.0, 0, 1) == 1
    }

    pub fn set_dimm_slot_0(&mut self, value: bool)
        ensures
            final(self).spec_raw() == spec_with_field_u8(old(self).spec_raw(), 0, 1, (if value { 1u8 } else { 0u8 })),
            final(self).spec_dimm_slot_0() == value,
            final(self).spec_dimm_slot_1() == old(self).spec_dimm_slot_1(),
            final(self).spec_dimm_slot_2() == old(self).spec_dimm_slot_2(),
            final(self).spec_dimm_slot_3() == old(self).spec_dimm_slot_3(),
    {
        let x: u8 = if value { 1 } else { 0 };
        let ghost old_raw = self.0;
        proof {
            lemma_shift_table_u8();
            lemma_with_field_same_u8(old_raw, 0, 1, x);
            lemma_with_field_other_u8(old_raw, 0, 1, x, 1, 1);
            lemma_with_field_other_u8(old_raw, 0, 1, x, 2, 1);
            lemma_with_field_other_u8(old_raw, 0, 1, x, 3, 1);
        }
        self.0 = with_field_u8(self.0, 0, 1, x);
    }

    pub fn with_dimm_slot_0(self, value: bool) -> (r: Self)
        ensures
            r.spec_raw() == spec_with_field_u8(self.spec_raw(), 0, 1, (if value { 1u8 } else { 0u8 })),
            r.spec_dimm_slot_0() == value,
            r.spec_dimm_slot_1() == self.spec_dimm_slot_1(),
            r.spec_dimm_slot_2() == self.spec_dimm_slot_2(),
            r.spec_dimm_slot_3() == self.spec_dimm_slot_3(),
    {
        let mut r = self;
        r.set_dimm_slot_0(value);
        r
    }

    pub fn dimm_slot_1(&self) -> (r: bool)
        ensures
            r == self.spec_dimm_slot_1(),
    {
        field_u8(self.0, 1, 1) == 1
    }

    pub fn set_dimm_slot_1(&mut self, value: bool)
        ensures
            final(self).spec_raw() == spec_with_field_u8(old(self).spec_raw(), 1, 1, (if value { 1u8 } else { 0u8 })),
            final(self).spec_dimm_slot_1() == value,
            final(self).spec_dimm_slot_0() == old(self).spec_dimm_slot_0(),
            final(self).spec_dimm_slot_2() == old(self).spec_dimm_slot_2(),
            final(self).spec_dimm_slot_3() == old(self).spec_dimm_slot_3(),
    {
        let x: u8 = if value { 1 } else { 0 };
        let ghost old_raw = self.0;
        proof {
            lemma_shift_table_u8();
            lemma_with_field_same_u8(old_raw, 1, 1, x);
            lemma_with_field_other_u8(old_raw, 1, 1, x, 0, 1);
            lemma_with_field_other_u8(old_raw, 1, 1, x, 2, 1);
            lemma_with_field_other_u8(old_raw, 1, 1, x, 3, 1);
        }
        self.0 = with_field_u8(self.0, 1, 1, x);
    }

    pub fn with_dimm_slot_1(self, value: bool) -> (r: Self)
        ensures
            r.spec_raw() == spec_with_field_u8(self.spec_raw(), 1, 1, (if value { 1u8 } else { 0u8 })),
            r.spec_dimm_slot_1() == value,
            r.spec_dimm_slot_0() == self.spec_dimm_slot_0(),
            r.spec_dimm_slot_2() == self.spec_dimm_slot_2(),
            r.spec_dimm_slot_3() == self.spec_dimm_slot_3(),
    {
        let mut r = self;
        r.set_dimm_slot_1(value);
        r
    }

    pub fn dimm_slot_2(&self) -> (r: bool)
        ensures
            r == self.spec_dimm_slot_2(),
    {
        field_u8(self.0, 2, 1) == 1
    }

    pub fn set_dimm_slot_2(&mut self, value: bool)
        ensures
            final(self).spec_raw() == spec_with_field_u8(old(self).spec_raw(), 2, 1, (if value { 1u8 } else { 0u8 })),
            final(self).spec_dimm_slot_2() == value,
            final(self).spec_dimm_slot_0() == old(self).spec_dimm_slot_0(),
            final(self).spec_dimm_slot_1() == old(self).spec_dimm_slot_1(),
            final(self).spec_dimm_slot_3() == old(self).spec_dimm_slot_3(),
    {
        let x: u8 = if value { 1 } else { 0 };
        let ghost old_raw = self.0;
        proof {
            lemma_shift_table_u8();
            lemma_with_field_same_u8(old_raw, 2, 1, x);
            lemma_with_field_other_u8(old_raw, 2, 1, x, 0, 1);
            lemma_with_field_other_u8(old_raw, 2, 1, x, 1, 1);
            lemma_with_field_other_u8(old_raw, 2, 1, x, 3, 1);
        }
        self.0 = with_field_u8(self.0, 2, 1, x);
    }

    pub fn with_dimm_slot_2(self, value: bool) -> (r: Self)
        ensures
            r.spec_raw() == spec_with_field_u8(self.spec_raw(), 2, 1, (if value { 1u8 } else { 0u8 })),
            r.spec_dimm_slot_2() == value,
            r.spec_dimm_slot_0() == self.spec_dimm_slot_0(),
            r.spec_dimm_slot_1() == self.spec_dimm_slot_1(),
            r.spec_dimm_slot_3() == self.spec_dimm_slot_3(),
    {
        let mut r = self;
        r.set_dimm_slot_2(value);
        r
    }

    pub fn dimm_slot_3(&self) -> (r: bool)
        ensures
            r == self.spec_dimm_slot_3(),
    {
        field_u8(self.0, 3, 1) == 1
    }

    pub fn set_dimm_slot_3(&mut self, value: bool)
        ensures
            final(self).spec_raw() == spec_with_field_u8(old(self).spec_raw(), 3, 1, (if value { 1u8 } else { 0u8 })),
            final(self).spec_dimm_slot_3() == value,
            final(self).spec_dimm_slot_0() == old(self).spec_dimm_slot_0(),
            final(self).spec_dimm_slot_1() == old(self).spec_dimm_slot_1(),
            final(self).spec_dimm_slot_2() == old(self).spec_dimm_slot_2(),
    {
        let x: u8 = if value { 1 } else { 0 };
        let ghost old_raw = self.0;
        proof {
            lemma_shift_table_u8();
            lemma_with_field_same_u8(old_raw, 3, 1, x);
            lemma_with_field_other_u8(old_raw, 3, 1, x, 0, 1);
            lemma_with_field_other_u8(old_raw, 3, 1, x, 1, 1);
            lemma_with_field_other_u8(old_raw, 3, 1, x, 2, 1);
        }
        self.0 = with_field_u8(self.0, 3, 1, x);
    }

    pub fn with_dimm_slot_3(self, value: bool) -> (r: Self)
        ensures
            r.spec_raw() == spec_with_field_u8(self.spec_raw(), 3, 1, (if value { 1u8 } else { 0u8 })),
            r.spec_dimm_slot_3() == value,
            r.spec_dimm_slot_0() == self.spec_dimm_slot_0(),
            r.spec_dimm_slot_1() == self.spec_dimm_slot_1(),
            r.spec_dimm_slot_2() == self.spec_dimm_slot_2(),
    {
        let mut r = self;
        r.set_dimm_slot_3(value);
        r
    }

    /// The bits that have a meaning; the others are reserved.
    pub const VALID_BITS: u64 = 0xf;

    /// Whether VALUE leaves all reserved bits clear.
    pub fn all_reserved_bits_are_unused(value: u64) -> (r: bool)
        ensures
            r == (value & !0xfu64 == 0),
    {
        value & !Self::VALID_BITS == 0
    }

    pub fn from_u64(value: u64) -> (r: Option<Self>)
        ensures
            r is Some <==> (value & !0xfu64 == 0 && value <= 0xff),
            r matches Some(x) ==> x.spec_raw() == value,
    {
        if Self::all_reserved_bits_are_unused(value) {
            if value <= 0xff {
                Some(DimmSlotsSelection(value as u8))
            } else {
                None
            }
        } else {
            None
        }
    }

    pub fn from_i64(value: i64) -> (r: Option<Self>)
        ensures
            r is Some <==> (value >= 0 && (value as u64) & !0xfu64 == 0 && value <= 0xff),
            r matches Some(x) ==> x.spec_raw() == value,
    {
        if value >= 0 {
            Self::from_u64(value as u64)
        } else {
            None
        }
    }

    pub fn to_u64(&self) -> (r: Option<u64>)
        ensures
            r == Some(self.spec_raw() as u64),
    {
        Some(self.0 as u64)
    }

    pub fn to_i64(&self) -> (r: Option<i64>)
        ensures
            r == Some(self.spec_raw() as i64),
    {
        Some(self.0 as i64)
    }

}

/// The DIMM slots that an override applies to: any slot (stored as 0xFF) or a selection.
#[derive(Debug, Clone, Copy, PartialEq, Eq, Structural)]
pub enum DimmSlots {
    Any,
    Specific(DimmSlotsSelection),
}

impl DimmSlots {
    /// The number that stands for this value.
    pub open spec fn spec_to_u64(self) -> u64 {
        match self {
            DimmSlots::Any => 0xff,
            DimmSlots::Specific(slots) => slots.spec_raw() as u64,
        }
    }

    /// Whether this value has a number: a selection stored as 0xFF would be read as "any".
    pub open spec fn spec_has_number(self) -> bool {
        match self {
            DimmSlots::Specific(slots) => slots.spec_raw() != 0xff,
            _ => true,
        }
    }

    /// The value that VALUE stands for, if any.
    pub open spec fn spec_from_u64(value: u64) -> Option<DimmSlots> {
        if value == 0xff {
            Some(DimmSlots::Any)
        } else if value < 16 {
            Some(DimmSlots::Specific(DimmSlotsSelection::spec_from_raw(value as u8)))
        } else {
            None
        }
    }

    pub fn from_u64(raw_value: u64) -> (r: Option<DimmSlots>)
        ensures
            r == DimmSlots::spec_from_u64(raw_value),
    {
        if raw_value == 0xff {
            Some(Self::Any)
        } else if raw_value < 16 {
            Some(Self::Specific(DimmSlotsSelection::from_raw(raw_value as u8)))
        } else {
            None
        }
    }

    pub fn from_i64(raw_value: i64) -> (r: Option<DimmSlots>)
        ensures
            r == (if raw_value >= 0 { DimmSlots::spec_from_u64(raw_value as u64) } else { None }),
    {
        if raw_value >= 0 {
            Self::from_u64(raw_value as u64)
        } else {
            None
        }
    }

    pub fn to_u64(&self) -> (r: Option<u64>)
        requires
            self.spec_has_number(),
        ensures
            r == Some(self.spec_to_u64()),
    {
        match self {
            Self::Any => Some(0xff),
            Self::Specific(slots) => slots.to_u64(),
        }
    }

    pub fn to_i64(&self) -> (r: Option<i64>)
        requires
            self.spec_has_number(),
        ensures
            r == Some(self.spec_to_u64() as i64),
    {
        match self {
            Self::Any => Some(0xff),
            Self::Specific(slots) => slots.to_i64(),
        }
    }
}

/// A number that is read as a slot selection is that selection's number, and a selection
/// of slots 0 to 3 only is read back from its own number.
pub proof fn lemma_dimm_slots_roundtrip(x: DimmSlots, value: u64)
    ensures
        (x matches DimmSlots::Specific(s) ==> s.spec_raw() < 16) ==> DimmSlots::spec_from_u64(x.spec_to_u64()) == Some(x),
        DimmSlots::spec_from_u64(value) matches Some(y) ==> y.spec_has_number() && y.spec_to_u64() == value,
{
    if let DimmSlots::Specific(s) = x {
        DimmSlotsSelection::lemma_raw(s, s.spec_raw());
    }
    if value < 16 {
        DimmSlotsSelection::lemma_raw(DimmSlotsSelection::spec_from_raw(value as u8), value as u8);
    }
}

/// The channels that an override applies to, for up to twelve channels (one bit each).
#[derive(Debug, Clone, Copy, PartialEq, Eq, Structural)]
pub struct ChannelIdsSelection12(u16);

impl ChannelIdsSelection12 {
    /// The packed bits.
    pub closed spec fn spec_raw(self) -> u16 {
        self.0
    }

    /// The value with the given packed bits.
    pub closed spec fn spec_from_raw(raw: u16) -> Self {
        ChannelIdsSelection12(raw)
    }

    /// The packed bits determine the value, and any packed bits make a value.
    pub proof fn lemma_raw(x: Self, raw: u16)
        ensures
            Self::spec_from_raw(raw).spec_raw() == raw,
            Self::spec_from_raw(x.spec_raw()) == x,
    {
    }

    pub open spec fn spec_a(self) -> bool {
        spec_field_u16(self.spec_raw(), 0, 1) == 1
    }

    pub open spec fn spec_b(self) -> bool {
        spec_field_u16(self.spec_raw(), 1, 1) == 1
    }

    pub open spec fn spec_c(self) -> bool {
        spec_field_u16(self.spec_raw(), 2, 1) == 1
    }

    pub open spec fn spec_d(self) -> bool {
        spec_field_u16(self.spec_raw(), 3, 1) == 1
    }

    pub open spec fn spec_e(self) -> bool {
        spec_field_u16(self.spec_raw(), 4, 1) == 1
    }

    pub open spec fn spec_f(self) -> bool {
        spec_field_u16(self.spec_raw(), 5, 1) == 1
    }

    pub open spec fn spec_g(self) -> bool {
        spec_field_u16(self.spec_raw(), 6, 1) == 1
    }

    pub open spec fn spec_h(self) -> bool {
        spec_field_u16(self.spec_raw(), 7, 1) == 1
    }

    pub open spec fn spec_i(self) -> bool {
        spec_field_u16(self.spec_raw(), 8, 1) == 1
    }

    pub open spec fn spec_j(self) -> bool {
        spec_field_u16(self.spec_raw(), 9, 1) == 1
    }

    pub open spec fn spec_k(self) -> bool {
        spec_field_u16(self.spec_raw(), 10, 1) == 1
    }

    pub open spec fn spec_l(self) -> bool {
        spec_field_u16(self.spec_raw(), 11, 1) == 1
    }

    /// All bits clear.
    pub fn new() -> (r: Self)
        ensures
            r.spec_raw() == 0,
    {
        ChannelIdsSelection12(0)
    }

    /// The value with the given packed bits.
    pub fn from_raw(raw: u16) -> (r: Self)
        ensures
            r.spec_raw() == raw,
            r == Self::spec_from_raw(raw),
    {
        ChannelIdsSelection12(raw)
    }

    /// The packed bits.
    pub fn into_raw(self) -> (r: u16)
        ensures
            r == self.spec_raw(),
    {
        self.0
    }

    pub fn a(&self) -> (r: bool)
        ensures
            r == self.spec_a(),
    {
        field_u16(self.0, 0, 1) == 1
    }

    pub fn set_a(&mut self, value: bool)
        ensures
            final(self).spec_raw() == spec_with_field_u16(old(self).spec_raw(), 0, 1, (if value { 1u16 } else { 0u16 })),
            final(self).spec_a() == value,
            final(self).spec_b() == old(self).spec_b(),
            final(self).spec_c() == old(self).spec_c(),
            final(self).spec_d() == old(self).spec_d(),
            final(self).spec_e() == old(self).spec_e(),
            final(self).spec_f() == old(self).spec_f(),
            final(self).spec_g() == old(self).spec_g(),
            final(self).spec_h() == old(self).spec_h(),
            final(self).spec_i() == old(self).spec_i(),
            final(self).spec_j() == old(self).spec_j(),
            final(self).spec_k() == old(self).spec_k(),
            final(self).spec_l() == old(self).spec_l(),
    {
        let x: u16 = if value { 1 } else { 0 };
        let ghost old_raw = self.0;
        proof {
            lemma_shift_table_u16();
            lemma_with_field_same_u16(old_raw, 0, 1, x);
            lemma_with_field_other_u16(old_raw, 0, 1, x, 1, 1);
            lemma_with_field_other_u16(old_raw, 0, 1, x, 2, 1);
            lemma_with_field_other_u16(old_raw, 0, 1, x, 3, 1);
            lemma_with_field_other_u16(old_raw, 0, 1, x, 4, 1);
            lemma_with_field_other_u16(old_raw, 0, 1, x, 5, 1);
            lemma_with_field_other_u16(old_raw, 0, 1, x, 6, 1);
            lemma_with_field_other_u16(old_raw, 0, 1, x, 7, 1);
            lemma_with_field_other_u16(old_raw, 0, 1, x, 8, 1);
            lemma_with_field_other_u16(old_raw, 0, 1, x, 9, 1);
            lemma_with_field_other_u16(old_raw, 0, 1, x, 10, 1);
            lemma_with_field_other_u16(old_raw, 0, 1, x, 11, 1);
        }
        self.0 = with_field_u16(self.0, 0, 1, x);
    }

    pub fn with_a(self, value: bool) -> (r: Self)
        ensures
            r.spec_raw() == spec_with_field_u16(self.spec_raw(), 0, 1, (if value { 1u16 } else { 0u16 })),
            r.spec_a() == value,
            r.spec_b() == self.spec_b(),
            r.spec_c() == self.spec_c(),
            r.spec_d() == self.spec_d(),
            r.spec_e() == self.spec_e(),
            r.spec_f() == self.spec_f(),
            r.spec_g() == self.spec_g(),
            r.spec_h() == self.spec_h(),
            r.spec_i() == self.spec_i(),
            r.spec_j() == self.spec_j(),
            r.spec_k() == self.spec_k(),
            r.spec_l() == self.spec_l(),
    {
        let mut r = self;
        r.set_a(value);
        r
    }

    pub fn b(&self) -> (r: bool)
        ensures
            r == self.spec_b(),
    {
        field_u16(self.0, 1, 1) == 1
    }

    pub fn set_b(&mut self, value: bool)
        ensures
            final(self).spec_raw() == spec_with_field_u16(old(self).spec_raw(), 1, 1, (if value { 1u16 } else { 0u16 })),
            final(self).spec_b() == value,
            final(self).spec_a() == old(self).spec_a(),
            final(self).spec_c() == old(self).spec_c(),
            final(self).spec_d() == old(self).spec_d(),
            final(self).spec_e() == old(self).spec_e(),
            final(self).spec_f() == old(self).spec_f(),
            final(self).spec_g() == old(self).spec_g(),
            final(self).spec_h() == old(self).spec_h(),
            final(self).spec_i() == old(self).spec_i(),
            final(self).spec_j() == old(self).spec_j(),
            final(self).spec_k() == old(self).spec_k(),
            final(self).spec_l() == old(self).spec_l(),
    {
        let x: u16 = if value { 1 } else { 0 };
        let ghost old_raw = self.0;
        proof {
            lemma_shift_table_u16();
            lemma_with_field_same_u16(old_raw, 1, 1, x);
            lemma_with_field_other_u16(old_raw, 1, 1, x, 0, 1);
            lemma_with_field_other_u16(old_raw, 1, 1, x, 2, 1);
            lemma_with_field_other_u16(old_raw, 1, 1, x, 3, 1);
            lemma_with_field_other_u16(old_raw, 1, 1, x, 4, 1);
            lemma_with_field_other_u16(old_raw, 1, 1, x, 5, 1);
            lemma_with_field_other_u16(old_raw, 1, 1, x, 6, 1);
            lemma_with_field_other_u16(old_raw, 1, 1, x, 7, 1);
            lemma_with_field_other_u16(old_raw, 1, 1, x, 8, 1);
            lemma_with_field_other_u16(old_raw, 1, 1, x, 9, 1);
            lemma_with_field_other_u16(old_raw, 1, 1, x, 10, 1);
            lemma_with_field_other_u16(old_raw, 1, 1, x, 11, 1);
        }
        self.0 = with_field_u16(self.0, 1, 1, x);
    }

    pub fn with_b(self, value: bool) -> (r: Self)
        ensures
            r.spec_raw() == spec_with_field_u16(self.spec_raw(), 1, 1, (if value { 1u16 } else { 0u16 })),
            r.spec_b() == value,
            r.spec_a() == self.spec_a(),
            r.spec_c() == self.spec_c(),
            r.spec_d() == self.spec_d(),
            r.spec_e() == self.spec_e(),
            r.spec_f() == self.spec_f(),
            r.spec_g() == self.spec_g(),
            r.spec_h() == self.spec_h(),
            r.spec_i() == self.spec_i(),
            r.spec_j() == self.spec_j(),
            r.spec_k() == self.spec_k(),
            r.spec_l() == self.spec_l(),
    {
        let mut r = self;
        r.set_b(value);
        r
    }

    pub fn c(&self) -> (r: bool)
        ensures
            r == self.spec_c(),
    {
        field_u16(self.0, 2, 1) == 1
    }

    pub fn set_c(&mut self, value: bool)
        ensures
            final(self).spec_raw() == spec_with_field_u16(old(self).spec_raw(), 2, 1, (if value { 1u16 } else { 0u16 })),
            final(self).spec_c() == value,
            final(self).spec_a() == old(self).spec_a(),
            final(self).spec_b() == old(self).spec_b(),
            final(self).spec_d() == old(self).spec_d(),
            final(self).spec_e() == old(self).spec_e(),
            final(self).spec_f() == old(self).spec_f(),
            final(self).spec_g() == old(self).spec_g(),
            final(self).spec_h() == old(self).spec_h(),
            final(self).spec_i() == old(self).spec_i(),
            final(self).spec_j() == old(self).spec_j(),
            final(self).spec_k() == old(self).spec_k(),
            final(self).spec_l() == old(self).spec_l(),
    {
        let x: u16 = if value { 1 } else { 0 };
        let ghost old_raw = self.0;
        proof {
            lemma_shift_table_u16();
            lemma_with_field_same_u16(old_raw, 2, 1, x);
            lemma_with_field_other_u16(old_raw, 2, 1, x, 0, 1);
            lemma_with_field_other_u16(old_raw, 2, 1, x, 1, 1);
            lemma_with_field_other_u16(old_raw, 2, 1, x, 3, 1);
            lemma_with_field_other_u16(old_raw, 2, 1, x, 4, 1);
            lemma_with_field_other_u16(old_raw, 2, 1, x, 5, 1);
            lemma_with_field_other_u16(old_raw, 2, 1, x, 6, 1);
            lemma_with_field_other_u16(old_raw, 2, 1, x, 7, 1);
            lemma_with_field_other_u16(old_raw, 2, 1, x, 8, 1);
            lemma_with_field_other_u16(old_raw, 2, 1, x, 9, 1);
            lemma_with_field_other_u16(old_raw, 2, 1, x, 10, 1);
            lemma_with_field_other_u16(old_raw, 2, 1, x, 11, 1);
        }
        self.0 = with_field_u16(self.0, 2, 1, x);
    }

    pub fn with_c(self, value: bool) -> (r: Self)
        ensures
            r.spec_raw() == spec_with_field_u16(self.spec_raw(), 2, 1, (if value { 1u16 } else { 0u16 })),
            r.spec_c() == value,
            r.spec_a() == self.spec_a(),
            r.spec_b() == self.spec_b(),
            r.spec_d() == self.spec_d(),
            r.spec_e() == self.spec_e(),
            r.spec_f() == self.spec_f(),
            r.spec_g() == self.spec_g(),
            r.spec_h() == self.spec_h(),
            r.spec_i() == self.spec_i(),
            r.spec_j() == self.spec_j(),
            r.spec_k() == self.spec_k(),
            r.spec_l() == self.spec_l(),
    {
        let mut r = self;
        r.set_c(value);
        r
    }

    pub fn d(&self) -> (r: bool)
        ensures
            r == self.spec_d(),
    {
        field_u16(self.0, 3, 1) == 1
    }

    pub fn set_d(&mut self, value: bool)
        ensures
            final(self).spec_raw() == spec_with_field_u16(old(self).spec_raw(), 3, 1, (if value { 1u16 } else { 0u16 })),
            final(self).spec_d() == value,
            final(self).spec_a() == old(self).spec_a(),
            final(self).spec_b() == old(self).spec_b(),
            final(self).spec_c() == old(self).spec_c(),
            final(self).spec_e() == old(self).spec_e(),
            final(self).spec_f() == old(self).spec_f(),
            final(self).spec_g() == old(self).spec_g(),
            final(self).spec_h() == old(self).spec_h(),
            final(self).spec_i() == old(self).spec_i(),
            final(self).spec_j() == old(self).spec_j(),
            final(self).spec_k() == old(self).spec_k(),
            final(self).spec_l() == old(self).spec_l(),
    {
        let x: u16 = if value { 1 } else { 0 };
        let ghost old_raw = self.0;
        proof {
            lemma_shift_table_u16();
            lemma_with_field_same_u16(old_raw, 3, 1, x);
            lemma_with_field_other_u16(old_raw, 3, 1, x, 0, 1);
            lemma_with_field_other_u16(old_raw, 3, 1, x, 1, 1);
            lemma_with_field_other_u16(old_raw, 3, 1, x, 2, 1);
            lemma_with_field_other_u16(old_raw, 3, 1, x, 4, 1);
            lemma_with_field_other_u16(old_raw, 3, 1, x, 5, 1);
            lemma_with_field_other_u16(old_raw, 3, 1, x, 6, 1);
            lemma_with_field_other_u16(old_raw, 3, 1, x, 7, 1);
            lemma_with_field_other_u16(old_raw, 3, 1, x, 8, 1);
            lemma_with_field_other_u16(old_raw, 3, 1, x, 9, 1);
            lemma_with_field_other_u16(old_raw, 3, 1, x, 10, 1);
            lemma_with_field_other_u16(old_raw, 3, 1, x, 11, 1);
        }
        self.0 = with_field_u16(self.0, 3, 1, x);
    }

    pub fn with_d(self, value: bool) -> (r: Self)
        ensures
            r.spec_raw() == spec_with_field_u16(self.spec_raw(), 3, 1, (if value { 1u16 } else { 0u16 })),
            r.spec_d() == value,
            r.spec_a() == self.spec_a(),
            r.spec_b() == self.spec_b(),
            r.spec_c() == self.spec_c(),
            r.spec_e() == self.spec_e(),
            r.spec_f() == self.spec_f(),
            r.spec_g() == self.spec_g(),
            r.spec_h() == self.spec_h(),
            r.spec_i() == self.spec_i(),
            r.spec_j() == self.spec_j(),
            r.spec_k() == self.spec_k(),
            r.spec_l() == self.spec_l(),
    {
        let mut r = self;
        r.set_d(value);
        r
    }

    pub fn e(&self) -> (r: bool)
        ensures
            r == self.spec_e(),
    {
        field_u16(self.0, 4, 1) == 1
    }

    pub fn set_e(&mut self, value: bool)
        ensures
            final(self).spec_raw() == spec_with_field_u16(old(self).spec_raw(), 4, 1, (if value { 1u16 } else { 0u16 })),
            final(self).spec_e() == value,
            final(self).spec_a() == old(self).spec_a(),
            final(self).spec_b() == old(self).spec_b(),
            final(self).spec_c() == old(self).spec_c(),
            final(self).spec_d() == old(self).spec_d(),
            final(self).spec_f() == old(self).spec_f(),
            final(self).spec_g() == old(self).spec_g(),
            final(self).spec_h() == old(self).spec_h(),
            final(self).spec_i() == old(self).spec_i(),
            final(self).spec_j() == old(self).spec_j(),
            final(self).spec_k() == old(self).spec_k(),
            final(self).spec_l() == old(self).spec_l(),
    {
        let x: u16 = if value { 1 } else { 0 };
        let ghost old_raw = self.0;
        proof {
            lemma_shift_table_u16();
            lemma_with_field_same_u16(old_raw, 4, 1, x);
            lemma_with_field_other_u16(old_raw, 4, 1, x, 0, 1);
            lemma_with_field_other_u16(old_raw, 4, 1, x, 1, 1);
            lemma_with_field_other_u16(old_raw, 4, 1, x, 2, 1);
            lemma_with_field_other_u16(old_raw, 4, 1, x, 3, 1);
            lemma_with_field_other_u16(old_raw, 4, 1, x, 5, 1);
            lemma_with_field_other_u16(old_raw, 4, 1, x, 6, 1);
            lemma_with_field_other_u16(old_raw, 4, 1, x, 7, 1);
            lemma_with_field_other_u16(old_raw, 4, 1, x, 8, 1);
            lemma_with_field_other_u16(old_raw, 4, 1, x, 9, 1);
            lemma_with_field_other_u16(old_raw, 4, 1, x, 10, 1);
            lemma_with_field_other_u16(old_raw, 4, 1, x, 11, 1);
        }
        self.0 = with_field_u16(self.0, 4, 1, x);
    }

    pub fn with_e(self, value: bool) -> (r: Self)
        ensures
            r.spec_raw() == spec_with_field_u16(self.spec_raw(), 4, 1, (if value { 1u16 } else { 0u16 })),
            r.spec_e() == value,
            r.spec_a() == self.spec_a(),
            r.spec_b() == self.spec_b(),
            r.spec_c() == self.spec_c(),
            r.spec_d() == self.spec_d(),
            r.spec_f() == self.spec_f(),
            r.spec_g() == self.spec_g(),
            r.spec_h() == self.spec_h(),
            r.spec_i() == self.spec_i(),
            r.spec_j() == self.spec_j(),
            r.spec_k() == self.spec_k(),
            r.spec_l() == self.spec_l(),
    {
        let mut r = self;
        r.set_e(value);
        r
    }

    pub fn f(&self) -> (r: bool)
        ensures
            r == self.spec_f(),
    {
        field_u16(self.0, 5, 1) == 1
    }

    pub fn set_f(&mut self, value: bool)
        ensures
            final(self).spec_raw() == spec_with_field_u16(old(self).spec_raw(), 5, 1, (if value { 1u16 } else { 0u16 })),
            final(self).spec_f() == value,
            final(self).spec_a() == old(self).spec_a(),
            final(self).spec_b() == old(self).spec_b(),
            final(self).spec_c() == old(self).spec_c(),
            final(self).spec_d() == old(self).spec_d(),
            final(self).spec_e() == old(self).spec_e(),
            final(self).spec_g() == old(self).spec_g(),
            final(self).spec_h() == old(self).spec_h(),
            final(self).spec_i() == old(self).spec_i(),
            final(self).spec_j() == old(self).spec_j(),
            final(self).spec_k() == old(self).spec_k(),
            final(self).spec_l() == old(self).spec_l(),
    {
        let x: u16 = if value { 1 } else { 0 };
        let ghost old_raw = self.0;
        proof {
            lemma_shift_table_u16();
            lemma_with_field_same_u16(old_raw, 5, 1, x);
            lemma_with_field_other_u16(old_raw, 5, 1, x, 0, 1);
            lemma_with_field_other_u16(old_raw, 5, 1, x, 1, 1);
            lemma_with_field_other_u16(old_raw, 5, 1, x, 2, 1);
            lemma_with_field_other_u16(old_raw, 5, 1, x, 3, 1);
            lemma_with_field_other_u16(old_raw, 5, 1, x, 4, 1);
            lemma_with_field_other_u16(old_raw, 5, 1, x, 6, 1);
            lemma_with_field_other_u16(old_raw, 5, 1, x, 7, 1);
            lemma_with_field_other_u16(old_raw, 5, 1, x, 8, 1);
            lemma_with_field_other_u16(old_raw, 5, 1, x, 9, 1);
            lemma_with_field_other_u16(old_raw, 5, 1, x, 10, 1);
            lemma_with_field_other_u16(old_raw, 5, 1, x, 11, 1);
        }
        self.0 = with_field_u16(self.0, 5, 1, x);
    }

    pub fn with_f(self, value: bool) -> (r: Self)
        ensures
            r.spec_raw() == spec_with_field_u16(self.spec_raw(), 5, 1, (if value { 1u16 } else { 0u16 })),
            r.spec_f() == value,
            r.spec_a() == self.spec_a(),
            r.spec_b() == self.spec_b(),
            r.spec_c() == self.spec_c(),
            r.spec_d() == self.spec_d(),
            r.spec_e() == self.spec_e(),
            r.spec_g() == self.spec_g(),
            r.spec_h() == self.spec_h(),
            r.spec_i() == self.spec_i(),
            r.spec_j() == self.spec_j(),
            r.spec_k() == self.spec_k(),
            r.spec_l() == self.spec_l(),
    {
        let mut r = self;
        r.set_f(value);
        r
    }

    pub fn g(&self) -> (r: bool)
        ensures
            r == self.spec_g(),
    {
        field_u16(self.0, 6, 1) == 1
    }

    pub fn set_g(&mut self, value: bool)
        ensures
            final(self).spec_raw() == spec_with_field_u16(old(self).spec_raw(), 6, 1, (if value { 1u16 } else { 0u16 })),
            final(self).spec_g() == value,
            final(self).spec_a() == old(self).spec_a(),
            final(self).spec_b() == old(self).spec_b(),
            final(self).spec_c() == old(self).spec_c(),
            final(self).spec_d() == old(self).spec_d(),
            final(self).spec_e() == old(self).spec_e(),
            final(self).spec_f() == old(self).spec_f(),
            final(self).spec_h() == old(self).spec_h(),
            final(self).spec_i() == old(self).spec_i(),
            final(self).spec_j() == old(self).spec_j(),
            final(self).spec_k() == old(self).spec_k(),
            final(self).spec_l() == old(self).spec_l(),
    {
        let x: u16 = if value { 1 } else { 0 };
        let ghost old_raw = self.0;
        proof {
            lemma_shift_table_u16();
            lemma_with_field_same_u16(old_raw, 6, 1, x);
            lemma_with_field_other_u16(old_raw, 6, 1, x, 0, 1);
            lemma_with_field_other_u16(old_raw, 6, 1, x, 1, 1);
            lemma_with_field_other_u16(old_raw, 6, 1, x, 2, 1);
            lemma_with_field_other_u16(old_raw, 6, 1, x, 3, 1);
            lemma_with_field_other_u16(old_raw, 6, 1, x, 4, 1);
            lemma_with_field_other_u16(old_raw, 6, 1, x, 5, 1);
            lemma_with_field_other_u16(old_raw, 6, 1, x, 7, 1);
            lemma_with_field_other_u16(old_raw, 6, 1, x, 8, 1);
            lemma_with_field_other_u16(old_raw, 6, 1, x, 9, 1);
            lemma_with_field_other_u16(old_raw, 6, 1, x, 10, 1);
            lemma_with_field_other_u16(old_raw, 6, 1, x, 11, 1);
        }
        self.0 = with_field_u16(self.0, 6, 1, x);
    }

    pub fn with_g(self, value: bool) -> (r: Self)
        ensures
            r.spec_raw() == spec_with_field_u16(self.spec_raw(), 6, 1, (if value { 1u16 } else { 0u16 })),
            r.spec_g() == value,
            r.spec_a() == self.spec_a(),
            r.spec_b() == self.spec_b(),
            r.spec_c() == self.spec_c(),
            r.spec_d() == self.spec_d(),
            r.spec_e() == self.spec_e(),
            r.spec_f() == self.spec_f(),
            r.spec_h() == self.spec_h(),
            r.spec_i() == self.spec_i(),
            r.spec_j() == self.spec_j(),
            r.spec_k() == self.spec_k(),
            r.spec_l() == self.spec_l(),
    {
        let mut r = self;
        r.set_g(value);
        r
    }

    pub fn h(&self) -> (r: bool)
        ensures
            r == self.spec_h(),
    {
        field_u16(self.0, 7, 1) == 1
    }

    pub fn set_h(&mut self, value: bool)
        ensures
            final(self).spec_raw() == spec_with_field_u16(old(self).spec_raw(), 7, 1, (if value { 1u16 } else { 0u16 })),
            final(self).spec_h() == value,
            final(self).spec_a() == old(self).spec_a(),
            final(self).spec_b() == old(self).spec_b(),
            final(self).spec_c() == old(self).spec_c(),
            final(self).spec_d() == old(self).spec_d(),
            final(self).spec_e() == old(self).spec_e(),
            final(self).spec_f() == old(self).spec_f(),
            final(self).spec_g() == old(self).spec_g(),
            final(self).spec_i() == old(self).spec_i(),
            final(self).spec_j() == old(self).spec_j(),
            final(self).spec_k() == old(self).spec_k(),
            final(self).spec_l() == old(self).spec_l(),
    {
        let x: u16 = if value { 1 } else { 0 };
        let ghost old_raw = self.0;
        proof {
            lemma_shift_table_u16();
            lemma_with_field_same_u16(old_raw, 7, 1, x);
            lemma_with_field_other_u16(old_raw, 7, 1, x, 0, 1);
            lemma_with_field_other_u16(old_raw, 7, 1, x, 1, 1);
            lemma_with_field_other_u16(old_raw, 7, 1, x, 2, 1);
            lemma_with_field_other_u16(old_raw, 7, 1, x, 3, 1);
            lemma_with_field_other_u16(old_raw, 7, 1, x, 4, 1);
            lemma_with_field_other_u16(old_raw, 7, 1, x, 5, 1);
            lemma_with_field_other_u16(old_raw, 7, 1, x, 6, 1);
            lemma_with_field_other_u16(old_raw, 7, 1, x, 8, 1);
            lemma_with_field_other_u16(old_raw, 7, 1, x, 9, 1);
            lemma_with_field_other_u16(old_raw, 7, 1, x, 10, 1);
            lemma_with_field_other_u16(old_raw, 7, 1, x, 11, 1);
        }
        self.0 = with_field_u16(self.0, 7, 1, x);
    }

    pub fn with_h(self, value: bool) -> (r: Self)
        ensures
            r.spec_raw() == spec_with_field_u16(self.spec_raw(), 7, 1, (if value { 1u16 } else { 0u16 })),
            r.spec_h() == value,
            r.spec_a() == self.spec_a(),
            r.spec_b() == self.spec_b(),
            r.spec_c() == self.spec_c(),
            r.spec_d() == self.spec_d(),
            r.spec_e() == self.spec_e(),
            r.spec_f() == self.spec_f(),
            r.spec_g() == self.spec_g(),
            r.spec_i() == self.spec_i(),
            r.spec_j() == self.spec_j(),
            r.spec_k() == self.spec_k(),
            r.spec_l() == self.spec_l(),
    {
        let mut r = self;
        r.set_h(value);
        r
    }

    pub fn i(&self) -> (r: bool)
        ensures
            r == self.spec_i(),
    {
        field_u16(self.0, 8, 1) == 1
    }

    pub fn set_i(&mut self, value: bool)
        ensures
            final(self).spec_raw() == spec_with_field_u16(old(self).spec_raw(), 8, 1, (if value { 1u16 } else { 0u16 })),
            final(self).spec_i() == value,
            final(self).spec_a() == old(self).spec_a(),
            final(self).spec_b() == old(self).spec_b(),
            final(self).spec_c() == old(self).spec_c(),
            final(self).spec_d() == old(self).spec_d(),
            final(self).spec_e() == old(self).spec_e(),
            final(self).spec_f() == old(self).spec_f(),
            final(self).spec_g() == old(self).spec_g(),
            final(self).spec_h() == old(self).spec_h(),
            final(self).spec_j() == old(self).spec_j(),
            final(self).spec_k() == old(self).spec_k(),
            final(self).spec_l() == old(self).spec_l(),
    {
        let x: u16 = if value { 1 } else { 0 };
        let ghost old_raw = self.0;
        proof {
            lemma_shift_table_u16();
            lemma_with_field_same_u16(old_raw, 8, 1, x);
            lemma_with_field_other_u16(old_raw, 8, 1, x, 0, 1);
            lemma_with_field_other_u16(old_raw, 8, 1, x, 1, 1);
            lemma_with_field_other_u16(old_raw, 8, 1, x, 2, 1);
            lemma_with_field_other_u16(old_raw, 8, 1, x, 3, 1);
            lemma_with_field_other_u16(old_raw, 8, 1, x, 4, 1);
            lemma_with_field_other_u16(old_raw, 8, 1, x, 5, 1);
            lemma_with_field_other_u16(old_raw, 8, 1, x, 6, 1);
            lemma_with_field_other_u16(old_raw, 8, 1, x, 7, 1);
            lemma_with_field_other_u16(old_raw, 8, 1, x, 9, 1);
            lemma_with_field_other_u16(old_raw, 8, 1, x, 10, 1);
            lemma_with_field_other_u16(old_raw, 8, 1, x, 11, 1);
        }
        self.0 = with_field_u16(self.0, 8, 1, x);
    }

    pub fn with_i(self, value: bool) -> (r: Self)
        ensures
            r.spec_raw() == spec_with_field_u16(self.spec_raw(), 8, 1, (if value { 1u16 } else { 0u16 })),
            r.spec_i() == value,
            r.spec_a() == self.spec_a(),
            r.spec_b() == self.spec_b(),
            r.spec_c() == self.spec_c(),
            r.spec_d() == self.spec_d(),
            r.spec_e() == self.spec_e(),
            r.spec_f() == self.spec_f(),
            r.spec_g() == self.spec_g(),
            r.spec_h() == self.spec_h(),
            r.spec_j() == self.spec_j(),
            r.spec_k() == self.spec_k(),
            r.spec_l() == self.spec_l(),
    {
        let mut r = self;
        r.set_i(value);
        r
    }

    pub fn j(&self) -> (r: bool)
        ensures
            r == self.spec_j(),
    {
        field_u16(self.0, 9, 1) == 1
    }

    pub fn set_j(&mut self, value: bool)
        ensures
            final(self).spec_raw() == spec_with_field_u16(old(self).spec_raw(), 9, 1, (if value { 1u16 } else { 0u16 })),
            final(self).spec_j() == value,
            final(self).spec_a() == old(self).spec_a(),
            final(self).spec_b() == old(self).spec_b(),
            final(self).spec_c() == old(self).spec_c(),
            final(self).spec_d() == old(self).spec_d(),
            final(self).spec_e() == old(self).spec_e(),
            final(self).spec_f() == old(self).spec_f(),
            final(self).spec_g() == old(self).spec_g(),
            final(self).spec_h() == old(self).spec_h(),
            final(self).spec_i() == old(self).spec_i(),
            final(self).spec_k() == old(self).spec_k(),
            final(self).spec_l() == old(self).spec_l(),
    {
        let x: u16 = if value { 1 } else { 0 };
        let ghost old_raw = self.0;
        proof {
            lemma_shift_table_u16();
            lemma_with_field_same_u16(old_raw, 9, 1, x);
            lemma_with_field_other_u16(old_raw, 9, 1, x, 0, 1);
            lemma_with_field_other_u16(old_raw, 9, 1, x, 1, 1);
            lemma_with_field_other_u16(old_raw, 9, 1, x, 2, 1);
            lemma_with_field_other_u16(old_raw, 9, 1, x, 3, 1);
            lemma_with_field_other_u16(old_raw, 9, 1, x, 4, 1);
            lemma_with_field_other_u16(old_raw, 9, 1, x, 5, 1);
            lemma_with_field_other_u16(old_raw, 9, 1, x, 6, 1);
            lemma_with_field_other_u16(old_raw, 9, 1, x, 7, 1);
            lemma_with_field_other_u16(old_raw, 9, 1, x, 8, 1);
            lemma_with_field_other_u16(old_raw, 9, 1, x, 10, 1);
            lemma_with_field_other_u16(old_raw, 9, 1, x, 11, 1);
        }
        self.0 = with_field_u16(self.0, 9, 1, x);
    }

    pub fn with_j(self, value: bool) -> (r: Self)
        ensures
            r.spec_raw() == spec_with_field_u16(self.spec_raw(), 9, 1, (if value { 1u16 } else { 0u16 })),
            r.spec_j() == value,
            r.spec_a() == self.spec_a(),
            r.spec_b() == self.spec_b(),
            r.spec_c() == self.spec_c(),
            r.spec_d() == self.spec_d(),
            r.spec_e() == self.spec_e(),
            r.spec_f() == self.spec_f(),
            r.spec_g() == self.spec_g(),
            r.spec_h() == self.spec_h(),
            r.spec_i() == self.spec_i(),
            r.spec_k() == self.spec_k(),
            r.spec_l() == self.spec_l(),
    {
        let mut r = self;
        r.set_j(value);
        r
    }

    pub fn k(&self) -> (r: bool)
        ensures
            r == self.spec_k(),
    {
        field_u16(self.0, 10, 1) == 1
    }

    pub fn set_k(&mut self, value: bool)
        ensures
            final(self).spec_raw() == spec_with_field_u16(old(self).spec_raw(), 10, 1, (if value { 1u16 } else { 0u16 })),
            final(self).spec_k() == value,
            final(self).spec_a() == old(self).spec_a(),
            final(self).spec_b() == old(self).spec_b(),
            final(self).spec_c() == old(self).spec_c(),
            final(self).spec_d() == old(self).spec_d(),
            final(self).spec_e() == old(self).spec_e(),
            final(self).spec_f() == old(self).spec_f(),
            final(self).spec_g() == old(self).spec_g(),
            final(self).spec_h() == old(self).spec_h(),
            final(self).spec_i() == old(self).spec_i(),
            final(self).spec_j() == old(self).spec_j(),
            final(self).spec_l() == old(self).spec_l(),
    {
        let x: u16 = if value { 1 } else { 0 };
        let ghost old_raw = self.0;
        proof {
            lemma_shift_table_u16();
            lemma_with_field_same_u16(old_raw, 10, 1, x);
            lemma_with_field_other_u16(old_raw, 10, 1, x, 0, 1);
            lemma_with_field_other_u16(old_raw, 10, 1, x, 1, 1);
            lemma_with_field_other_u16(old_raw, 10, 1, x, 2, 1);
            lemma_with_field_other_u16(old_raw, 10, 1, x, 3, 1);
            lemma_with_field_other_u16(old_raw, 10, 1, x, 4, 1);
            lemma_with_field_other_u16(old_raw, 10, 1, x, 5, 1);
            lemma_with_field_other_u16(old_raw, 10, 1, x, 6, 1);
            lemma_with_field_other_u16(old_raw, 10, 1, x, 7, 1);
            lemma_with_field_other_u16(old_raw, 10, 1, x, 8, 1);
            lemma_with_field_other_u16(old_raw, 10, 1, x, 9, 1);
            lemma_with_field_other_u16(old_raw, 10, 1, x, 11, 1);
        }
        self.0 = with_field_u16(self.0, 10, 1, x);
    }

    pub fn with_k(self, value: bool) -> (r: Self)
        ensures
            r.spec_raw() == spec_with_field_u16(self.spec_raw(), 10, 1, (if value { 1u16 } else { 0u16 })),
            r.spec_k() == value,
            r.spec_a() == self.spec_a(),
            r.spec_b() == self.spec_b(),
            r.spec_c() == self.spec_c(),
            r.spec_d() == self.spec_d(),
            r.spec_e() == self.spec_e(),
            r.spec_f() == self.spec_f(),
            r.spec_g() == self.spec_g(),
            r.spec_h() == self.spec_h(),
            r.spec_i() == self.spec_i(),
            r.spec_j() == self.spec_j(),
            r.spec_l() == self.spec_l(),
    {
        let mut r = self;
        r.set_k(value);
        r
    }

    pub fn l(&self) -> (r: bool)
        ensures
            r == self.spec_l(),
    {
        field_u16(self.0, 11, 1) == 1
    }

    pub fn set_l(&mut self, value: bool)
        ensures
            final(self).spec_raw() == spec_with_field_u16(old(self).spec_raw(), 11, 1, (if value { 1u16 } else { 0u16 })),
            final(self).spec_l() == value,
            final(self).spec_a() == old(self).spec_a(),
            final(self).spec_b() == old(self).spec_b(),
            final(self).spec_c() == old(self).spec_c(),
            final(self).spec_d() == old(self).spec_d(),
            final(self).spec_e() == old(self).spec_e(),
            final(self).spec_f() == old(self).spec_f(),
            final(self).spec_g() == old(self).spec_g(),
            final(self).spec_h() == old(self).spec_h(),
            final(self).spec_i() == old(self).spec_i(),
            final(self).spec_j() == old(self).spec_j(),
            final(self).spec_k() == old(self).spec_k(),
    {
        let x: u16 = if value { 1 } else { 0 };
        let ghost old_raw = self.0;
        proof {
            lemma_shift_table_u16();
            lemma_with_field_same_u16(old_raw, 11, 1, x);
            lemma_with_field_other_u16(old_raw, 11, 1, x, 0, 1);
            lemma_with_field_other_u16(old_raw, 11, 1, x, 1, 1);
            lemma_with_field_other_u16(old_raw, 11, 1, x, 2, 1);
            lemma_with_field_other_u16(old_raw, 11, 1, x, 3, 1);
            lemma_with_field_other_u16(old_raw, 11, 1, x, 4, 1);
            lemma_with_field_other_u16(old_raw, 11, 1, x, 5, 1);
            lemma_with_field_other_u16(old_raw, 11, 1, x, 6, 1);
            lemma_with_field_other_u16(old_raw, 11, 1, x, 7, 1);
            lemma_with_field_other_u16(old_raw, 11, 1, x, 8, 1);
            lemma_with_field_other_u16(old_raw, 11, 1, x, 9, 1);
            lemma_with_field_other_u16(old_raw, 11, 1, x, 10, 1);
        }
        self.0 = with_field_u16(self.0, 11, 1, x);
    }

    pub fn with_l(self, value: bool) -> (r: Self)
        ensures
            r.spec_raw() == spec_with_field_u16(self.spec_raw(), 11, 1, (if value { 1u16 } else { 0u16 })),
            r.spec_l() == value,
            r.spec_a() == self.spec_a(),
            r.spec_b() == self.spec_b(),
            r.spec_c() == self.spec_c(),
            r.spec_d() == self.spec_d(),
            r.spec_e() == self.spec_e(),
            r.spec_f() == self.spec_f(),
            r.spec_g() == self.spec_g(),
            r.spec_h() == self.spec_h(),
            r.spec_i() == self.spec_i(),
            r.spec_j() == self.spec_j(),
            r.spec_k() == self.spec_k(),
    {
        let mut r = self;
        r.set_l(value);
        r
    }

    /// The bits that have a meaning; the others are reserved.
    pub const VALID_BITS: u64 = 0xfff;

    /// Whether VALUE leaves all reserved bits clear.
    pub fn all_reserved_bits_are_unused(value: u64) -> (r: bool)
        ensures
            r == (value & !0xfffu64 == 0),
    {
        value & !Self::VALID_BITS == 0
    }

    pub fn from_u64(value: u64) -> (r: Option<Self>)
        ensures
            r is Some <==> (value & !0xfffu64 == 0 && value <= 0xffff),
            r matches Some(x) ==> x.spec_raw() == value,
    {
        if Self::all_reserved_bits_are_unused(value) {
            if value <= 0xffff {
                Some(ChannelIdsSelection12(value as u16))
            } else {
                None
            }
        } else {
            None
        }
    }

    pub fn from_i64(value: i64) -> (r: Option<Self>)
        ensures
            r is Some <==> (value >= 0 && (value as u64) & !0xfffu64 == 0 && value <= 0xffff),
            r matches Some(x) ==> x.spec_raw() == value,
    {
        if value >= 0 {
            Self::from_u64(value as u64)
        } else {
            None
        }
    }

    pub fn to_u64(&self) -> (r: Option<u64>)
        ensures
            r == Some(self.spec_raw() as u64),
    {
        Some(self.0 as u64)
    }

    pub fn to_i64(&self) -> (r: Option<i64>)
        ensures
            r == Some(self.spec_raw() as i64),
    {
        Some(self.0 as i64)
    }

}

/// The type and the size of the override that PREFIX starts with: the type is the first
/// byte, and the second byte is the size of what follows these two bytes.
pub open spec fn spec_tagged_skip_step(entry_id: EntryId, prefix: Seq<u8>) -> Option<(u16, usize)> {
    if entry_id == EntryId::Memory(MemoryEntryId::PlatformSpecificOverride) && prefix.len() >= 2 {
        Some((prefix[0] as u16, (prefix[1] + 2) as usize))
    } else {
        None
    }
}

fn tagged_skip_step(entry_id: EntryId, prefix: &[u8]) -> (r: Option<(u16, usize)>)
    ensures
        r == spec_tagged_skip_step(entry_id, prefix@),
{
    match entry_id {
        EntryId::Memory(MemoryEntryId::PlatformSpecificOverride) => {
            if prefix.len() >= 2 {
                let type_ = prefix[0] as u16;
                let size = (prefix[1] as usize) + 2;
                Some((type_, size))
            } else {
                None
            }
        },
        _ => None,
    }
}

/// Like spec_tagged_skip_step, but a zero byte (with which entries are padded) is skipped
/// on its own, as type 0.
pub open spec fn spec_element_skip_step(entry_id: EntryId, prefix: Seq<u8>) -> Option<(u16, usize)> {
    if entry_id == EntryId::Memory(MemoryEntryId::PlatformSpecificOverride) && prefix.len() > 0 && prefix[0] == 0 {
        Some((0u16, 1usize))
    } else {
        spec_tagged_skip_step(entry_id, prefix)
    }
}

fn element_skip_step(entry_id: EntryId, prefix: &[u8]) -> (r: Option<(u16, usize)>)
    ensures
        r == spec_element_skip_step(entry_id, prefix@),
{
    match entry_id {
        EntryId::Memory(MemoryEntryId::PlatformSpecificOverride) => {
            if prefix.len() > 0 && prefix[0] == 0 {
                return Some((0, 1));
            }
            tagged_skip_step(entry_id, prefix)
        },
        _ => None,
    }
}

/// The CKE tristate map: for each CKE pin of the CPU package, the CKE pins of the memory ranks.
#[allow(non_camel_case_types)]
#[derive(Debug, Clone, Copy)]
pub struct CkeTristateMap {
    pub(crate) type_: u8,
    pub(crate) payload_size: u8,
    pub(crate) sockets: u8,
    pub(crate) channels: u8,
    pub(crate) dimms: u8,
    pub connections: [u8; 4],
}

impl CkeTristateMap {
    pub closed spec fn spec_type_(self) -> u8 {
        self.type_
    }

    pub closed spec fn spec_payload_size(self) -> u8 {
        self.payload_size
    }

    pub closed spec fn spec_sockets(self) -> u8 {
        self.sockets
    }

    pub closed spec fn spec_channels(self) -> u8 {
        self.channels
    }

    pub closed spec fn spec_dimms(self) -> u8 {
        self.dimms
    }

    pub closed spec fn spec_connections(self) -> [u8; 4] {
        self.connections
    }

    pub fn type_(&self) -> (r: Result<u8>)
        ensures
            r == Ok::<u8, Error>(self.spec_type_()),
    {
        Ok(self.type_)
    }

    pub fn set_type_(&mut self, value: u8)
        ensures
            final(self).spec_type_() == value,
            final(self).spec_payload_size() == old(self).spec_payload_size(),
            final(self).spec_sockets() == old(self).spec_sockets(),
            final(self).spec_channels() == old(self).spec_channels(),
            final(self).spec_dimms() == old(self).spec_dimms(),
            final(self).spec_connections() == old(self).spec_connections(),
    {
        self.type_ = value;
    }

    pub fn sockets(&self) -> (r: Result<SocketIds>)
        ensures
            r is Ok <==> (self.spec_sockets() as u64) & !0xffu64 == 0,
            r matches Ok(b) ==> b.spec_raw() == self.spec_sockets(),
    {
        proof {
            if (self.sockets as u64) & !0xffu64 == 0 {
                lemma_masked_bound_u64(self.sockets as u64, 0xffu64);
            }
        }
        match SocketIds::from_u64(self.sockets as u64) {
            Some(b) => Ok(b),
            None => Err(Error::EntryTypeMismatch),
        }
    }

    pub fn set_sockets(&mut self, value: SocketIds)
        ensures
            final(self).spec_sockets() == value.spec_raw() as u8,
            final(self).spec_type_() == old(self).spec_type_(),
            final(self).spec_payload_size() == old(self).spec_payload_size(),
            final(self).spec_channels() == old(self).spec_channels(),
            final(self).spec_dimms() == old(self).spec_dimms(),
            final(self).spec_connections() == old(self).spec_connections(),
    {
        self.sockets = value.into_raw() as u8;
    }

    pub fn channels(&self) -> (r: Result<ChannelIds>)
        ensures
            r == match ChannelIds::spec_from_u64(self.spec_channels() as u64) {
                Some(e) => Ok::<ChannelIds, Error>(e),
                None => Err(Error::EntryTypeMismatch),
            },
    {
        match ChannelIds::from_u64(self.channels as u64) {
            Some(e) => Ok(e),
            None => Err(Error::EntryTypeMismatch),
        }
    }

    pub fn set_channels(&mut self, value: ChannelIds)
        requires
            value.spec_has_number(),
        ensures
            final(self).spec_channels() == value.spec_to_u64() as u8,
            final(self).spec_type_() == old(self).spec_type_(),
            final(self).spec_payload_size() == old(self).spec_payload_size(),
            final(self).spec_sockets() == old(self).spec_sockets(),
            final(self).spec_dimms() == old(self).spec_dimms(),
            final(self).spec_connections() == old(self).spec_connections(),
    {
        self.channels = value.to_u64().unwrap() as u8;
    }

    pub fn dimms(&self) -> (r: Result<DimmSlots>)
        ensures
            r == match DimmSlots::spec_from_u64(self.spec_dimms() as u64) {
                Some(e) => Ok::<DimmSlots, Error>(e),
                None => Err(Error::EntryTypeMismatch),
            },
    {
        match DimmSlots::from_u64(self.dimms as u64) {
            Some(e) => Ok(e),
            None => Err(Error::EntryTypeMismatch),
        }
    }

    pub fn set_dimms(&mut self, value: DimmSlots)
        requires
            value.spec_has_number(),
        ensures
            final(self).spec_dimms() == value.spec_to_u64() as u8,
            final(self).spec_type_() == old(self).spec_type_(),
            final(self).spec_payload_size() == old(self).spec_payload_size(),
            final(self).spec_sockets() == old(self).spec_sockets(),
            final(self).spec_channels() == old(self).spec_channels(),
            final(self).spec_connections() == old(self).spec_connections(),
    {
        self.dimms = value.to_u64().unwrap() as u8;
    }

}

impl CkeTristateMap {
    /// The bytes that store this value on disk.
    pub closed spec fn spec_bytes(self) -> Seq<u8> {
        seq![self.type_]
            + seq![self.payload_size]
            + seq![self.sockets]
            + seq![self.channels]
            + seq![self.dimms]
            + self.connections@
    }
}

impl ByteLayout for CkeTristateMap {
    open spec fn spec_size() -> nat {
        9
    }

    open spec fn spec_to_bytes(self) -> Seq<u8> {
        self.spec_bytes()
    }

    fn size() -> (r: usize) {
        9
    }

    #[verifier::spinoff_prover]
    fn from_bytes(bytes: &[u8]) -> (r: Self) {
        let type_: u8 = bytes[0];
        let payload_size: u8 = bytes[1];
        let sockets: u8 = bytes[2];
        let channels: u8 = bytes[3];
        let dimms: u8 = bytes[4];
        let connections: [u8; 4] = [bytes[5], bytes[6], bytes[7], bytes[8]];
        let r = CkeTristateMap { type_, payload_size, sockets, channels, dimms, connections };
        proof {
            lemma_auto_spec_u16_to_from_le_bytes();
            lemma_auto_spec_u32_to_from_le_bytes();
            lemma_auto_spec_u64_to_from_le_bytes();
            lemma_cke_tristate_map_bytes_pieces(r);
            assert(bytes@.subrange(5, 9) =~= connections@);
            assert(bytes@.subrange(0, 2) =~= bytes@.subrange(0, 1) + bytes@.subrange(1, 2));
            assert(bytes@.subrange(0, 3) =~= bytes@.subrange(0, 2) + bytes@.subrange(2, 3));
            assert(bytes@.subrange(0, 4) =~= bytes@.subrange(0, 3) + bytes@.subrange(3, 4));
            assert(bytes@.subrange(0, 5) =~= bytes@.subrange(0, 4) + bytes@.subrange(4, 5));
            assert(bytes@.subrange(0, 9) =~= bytes@.subrange(0, 5) + bytes@.subrange(5, 9));
            assert(bytes@.subrange(0, 9) =~= bytes@);
            assert(bytes@ == r.spec_bytes());
        }
        r
    }

    #[verifier::spinoff_prover]
    fn to_bytes(&self) -> (r: Vec<u8>) {
        let mut out: Vec<u8> = Vec::new();
        out.push(self.type_);
        out.push(self.payload_size);
        out.push(self.sockets);
        out.push(self.channels);
        out.push(self.dimms);
        append_bytes(&mut out, &self.connections);
        proof {
            lemma_cke_tristate_map_bytes_pieces(*self);
        }
        out
    }
}

/// How the bytes of a CkeTristateMap split up into its fields.
pub proof fn lemma_cke_tristate_map_bytes_pieces(x: CkeTristateMap)
    ensures
        x.spec_bytes().len() == 9,
        x.spec_bytes()[0] == x.spec_type_(),
        x.spec_bytes()[1] == x.spec_payload_size(),
        x.spec_bytes()[2] == x.spec_sockets(),
        x.spec_bytes()[3] == x.spec_channels(),
        x.spec_bytes()[4] == x.spec_dimms(),
        x.spec_bytes().subrange(5, 9) == x.spec_connections()@,
{
    lemma_auto_spec_u16_to_from_le_bytes();
    lemma_auto_spec_u32_to_from_le_bytes();
    lemma_auto_spec_u64_to_from_le_bytes();
    assert(x.spec_bytes().subrange(5, 9) == x.connections@);
}

/// Two values of CkeTristateMap with the same bytes are the same value.
#[verifier::spinoff_prover]
pub proof fn lemma_cke_tristate_map_bytes_injective(x: CkeTristateMap, y: CkeTristateMap)
    requires
        x.spec_bytes() == y.spec_bytes(),
    ensures
        x == y,
{
    lemma_cke_tristate_map_bytes_pieces(x);
    lemma_cke_tristate_map_bytes_pieces(y);
    lemma_auto_spec_u16_to_from_le_bytes();
    lemma_auto_spec_u32_to_from_le_bytes();
    lemma_auto_spec_u64_to_from_le_bytes();
    assert(x.type_ == y.type_);
    assert(x.payload_size == y.payload_size);
    assert(x.sockets == y.sockets);
    assert(x.channels == y.channels);
    assert(x.dimms == y.dimms);
    assert(x.connections@ == x.spec_bytes().subrange(5, 9));
    assert(x.connections =~= y.connections);
}

impl CkeTristateMap {
    /// The type tag of this override.
    pub const TAG: u16 = 1;
}

impl Default for CkeTristateMap {
    fn default() -> (r: Self)
        ensures
            r.spec_type_() == 1,
            r.spec_payload_size() == 7,
            r.spec_sockets() == 0xff,
            r.spec_channels() == 0xff,
            r.spec_dimms() == 0xff,
            r.spec_connections() == [0u8, 0u8, 0u8, 0u8],
    {
        CkeTristateMap { type_: 1, payload_size: 7, sockets: 0xff, channels: 0xff, dimms: 0xff, connections: [0; 4] }
    }
}

impl CkeTristateMap {
    /// An override for the given selection; the rest as in the default.
    pub fn new(sockets: SocketIds, channels: ChannelIds, dimms: DimmSlots, connections: [u8; 4]) -> (r: Result<Self>)
        requires
            channels.spec_has_number(),
            dimms.spec_has_number(),
        ensures
            r matches Ok(e) && {
                &&& e.spec_sockets() == sockets.spec_raw()
                &&& e.spec_channels() == channels.spec_to_u64() as u8
                &&& e.spec_dimms() == dimms.spec_to_u64() as u8
                &&& e.spec_connections() == connections
                &&& e.spec_type_() == 1
                &&& e.spec_payload_size() == 7
            },
    {
        let mut result = Self::default();
        result.sockets = sockets.into_raw();
        result.channels = channels.to_u64().unwrap() as u8;
        result.dimms = dimms.to_u64().unwrap() as u8;
        result.connections = connections;
        Ok(result)
    }
}

impl EntryCompatible for CkeTristateMap {
    fn is_entry_compatible(entry_id: EntryId, prefix: &[u8]) -> (r: bool)
        ensures
            r == (entry_id == EntryId::Memory(MemoryEntryId::PlatformSpecificOverride) && prefix@.len() >= 2
                && prefix@[0] == 1 && prefix@[1] + 2 == 9),
    {
        match entry_id {
            EntryId::Memory(MemoryEntryId::PlatformSpecificOverride) => {
                prefix.len() >= 2 && prefix[0] == 1 && prefix[1] as usize + 2 == 9
            },
            _ => false,
        }
    }

    fn skip_step(entry_id: EntryId, prefix: &[u8]) -> (r: Option<(u16, usize)>)
        ensures
            r == spec_tagged_skip_step(entry_id, prefix@),
    {
        tagged_skip_step(entry_id, prefix)
    }
}

impl ElementAsBytes for CkeTristateMap {
    fn element_as_bytes(&self) -> (r: Vec<u8>)
        ensures
            r@ == self.spec_to_bytes(),
    {
        self.to_bytes()
    }
}

impl SequenceElementAsBytes for CkeTristateMap {
    /// The bytes of this override, if its type and size fields are right and the entry is
    /// a platform-specific override entry.
    fn checked_as_bytes(&self, entry_id: EntryId) -> (r: Option<Vec<u8>>)
        ensures
            r is Some <==> (entry_id == EntryId::Memory(MemoryEntryId::PlatformSpecificOverride) && self.spec_type_() == 1
                && self.spec_payload_size() + 2 == 9),
            r matches Some(b) ==> b@ == self.spec_to_bytes(),
    {
        let blob = self.to_bytes();
        proof {
            lemma_cke_tristate_map_bytes_pieces(*self);
        }
        if Self::is_entry_compatible(entry_id, blob.as_slice()) {
            Some(blob)
        } else {
            None
        }
    }
}

/// The ODT tristate map: for each ODT pin of the CPU package, the ODT pins of the memory ranks.
#[allow(non_camel_case_types)]
#[derive(Debug, Clone, Copy)]
pub struct OdtTristateMap {
    pub(crate) type_: u8,
    pub(crate) payload_size: u8,
    pub(crate) sockets: u8,
    pub(crate) channels: u8,
    pub(crate) dimms: u8,
    pub connections: [u8; 4],
}

impl OdtTristateMap {
    pub closed spec fn spec_type_(self) -> u8 {
        self.type_
    }

    pub closed spec fn spec_payload_size(self) -> u8 {
        self.payload_size
    }

    pub closed spec fn spec_sockets(self) -> u8 {
        self.sockets
    }

    pub closed spec fn spec_channels(self) -> u8 {
        self.channels
    }

    pub closed spec fn spec_dimms(self) -> u8 {
        self.dimms
    }

    pub closed spec fn spec_connections(self) -> [u8; 4] {
        self.connections
    }

    pub fn type_(&self) -> (r: Result<u8>)
        ensures
            r == Ok::<u8, Error>(self.spec_type_()),
    {
        Ok(self.type_)
    }

    pub fn set_type_(&mut self, value: u8)
        ensures
            final(self).spec_type_() == value,
            final(self).spec_payload_size() == old(self).spec_payload_size(),
            final(self).spec_sockets() == old(self).spec_sockets(),
            final(self).spec_channels() == old(self).spec_channels(),
            final(self).spec_dimms() == old(self).spec_dimms(),
            final(self).spec_connections() == old(self).spec_connections(),
    {
        self.type_ = value;
    }

    pub fn sockets(&self) -> (r: Result<SocketIds>)
        ensures
            r is Ok <==> (self.spec_sockets() as u64) & !0xffu64 == 0,
            r matches Ok(b) ==> b.spec_raw() == self.spec_sockets(),
    {
        proof {
            if (self.sockets as u64) & !0xffu64 == 0 {
                lemma_masked_bound_u64(self.sockets as u64, 0xffu64);
            }
        }
        match SocketIds::from_u64(self.sockets as u64) {
            Some(b) => Ok(b),
            None => Err(Error::EntryTypeMismatch),
        }
    }

    pub fn set_sockets(&mut self, value: SocketIds)
        ensures
            final(self).spec_sockets() == value.spec_raw() as u8,
            final(self).spec_type_() == old(self).spec_type_(),
            final(self).spec_payload_size() == old(self).spec_payload_size(),
            final(self).spec_channels() == old(self).spec_channels(),
            final(self).spec_dimms() == old(self).spec_dimms(),
            final(self).spec_connections() == old(self).spec_connections(),
    {
        self.sockets = value.into_raw() as u8;
    }

    pub fn channels(&self) -> (r: Result<ChannelIds>)
        ensures
            r == match ChannelIds::spec_from_u64(self.spec_channels() as u64) {
                Some(e) => Ok::<ChannelIds, Error>(e),
                None => Err(Error::EntryTypeMismatch),
            },
    {
        match ChannelIds::from_u64(self.channels as u64) {
            Some(e) => Ok(e),
            None => Err(Error::EntryTypeMismatch),
        }
    }

    pub fn set_channels(&mut self, value: ChannelIds)
        requires
            value.spec_has_number(),
        ensures
            final(self).spec_channels() == value.spec_to_u64() as u8,
            final(self).spec_type_() == old(self).spec_type_(),
            final(self).spec_payload_size() == old(self).spec_payload_size(),
            final(self).spec_sockets() == old(self).spec_sockets(),
            final(self).spec_dimms() == old(self).spec_dimms(),
            final(self).spec_connections() == old(self).spec_connections(),
    {
        self.channels = value.to_u64().unwrap() as u8;
    }

    pub fn dimms(&self) -> (r: Result<DimmSlots>)
        ensures
            r == match DimmSlots::spec_from_u64(self.spec_dimms() as u64) {
                Some(e) => Ok::<DimmSlots, Error>(e),
                None => Err(Error::EntryTypeMismatch),
            },
    {
        match DimmSlots::from_u64(self.dimms as u64) {
            Some(e) => Ok(e),
            None => Err(Error::EntryTypeMismatch),
        }
    }

    pub fn set_dimms(&mut self, value: DimmSlots)
        requires
            value.spec_has_number(),
        ensures
            final(self).spec_dimms() == value.spec_to_u64() as u8,
            final(self).spec_type_() == old(self).spec_type_(),
            final(self).spec_payload_size() == old(self).spec_payload_size(),
            final(self).spec_sockets() == old(self).spec_sockets(),
            final(self).spec_channels() == old(self).spec_channels(),
            final(self).spec_connections() == old(self).spec_connections(),
    {
        self.dimms = value.to_u64().unwrap() as u8;
    }

}

impl OdtTristateMap {
    /// The bytes that store this value on disk.
    pub closed spec fn spec_bytes(self) -> Seq<u8> {
        seq![self.type_]
            + seq![self.payload_size]
            + seq![self.sockets]
            + seq![self.channels]
            + seq![self.dimms]
            + self.connections@
    }
}

impl ByteLayout for OdtTristateMap {
    open spec fn spec_size() -> nat {
        9
    }

    open spec fn spec_to_bytes(self) -> Seq<u8> {
        self.spec_bytes()
    }

    fn size() -> (r: usize) {
        9
    }

    #[verifier::spinoff_prover]
    fn from_bytes(bytes: &[u8]) -> (r: Self) {
        let type_: u8 = bytes[0];
        let payload_size: u8 = bytes[1];
        let sockets: u8 = bytes[2];
        let channels: u8 = bytes[3];
        let dimms: u8 = bytes[4];
        let connections: [u8; 4] = [bytes[5], bytes[6], bytes[7], bytes[8]];
        let r = OdtTristateMap { type_, payload_size, sockets, channels, dimms, connections };
        proof {
            lemma_auto_spec_u16_to_from_le_bytes();
            lemma_auto_spec_u32_to_from_le_bytes();
            lemma_auto_spec_u64_to_from_le_bytes();
            lemma_odt_tristate_map_bytes_pieces(r);
            assert(bytes@.subrange(5, 9) =~= connections@);
            assert(bytes@.subrange(0, 2) =~= bytes@.subrange(0, 1) + bytes@.subrange(1, 2));
            assert(bytes@.subrange(0, 3) =~= bytes@.subrange(0, 2) + bytes@.subrange(2, 3));
            assert(bytes@.subrange(0, 4) =~= bytes@.subrange(0, 3) + bytes@.subrange(3, 4));
            assert(bytes@.subrange(0, 5) =~= bytes@.subrange(0, 4) + bytes@.subrange(4, 5));
            assert(bytes@.subrange(0, 9) =~= bytes@.subrange(0, 5) + bytes@.subrange(5, 9));
            assert(bytes@.subrange(0, 9) =~= bytes@);
            assert(bytes@ == r.spec_bytes());
        }
        r
    }

    #[verifier::spinoff_prover]
    fn to_bytes(&self) -> (r: Vec<u8>) {
        let mut out: Vec<u8> = Vec::new();
        out.push(self.type_);
        out.push(self.payload_size);
        out.push(self.sockets);
        out.push(self.channels);
        out.push(self.dimms);
        append_bytes(&mut out, &self.connections);
        proof {
            lemma_odt_tristate_map_bytes_pieces(*self);
        }
        out
    }
}

/// How the bytes of a OdtTristateMap split up into its fields.
pub proof fn lemma_odt_tristate_map_bytes_pieces(x: OdtTristateMap)
    ensures
        x.spec_bytes().len() == 9,
        x.spec_bytes()[0] == x.spec_type_(),
        x.spec_bytes()[1] == x.spec_payload_size(),
        x.spec_bytes()[2] == x.spec_sockets(),
        x.spec_bytes()[3] == x.spec_channels(),
        x.spec_bytes()[4] == x.spec_dimms(),
        x.spec_bytes().subrange(5, 9) == x.spec_connections()@,
{
    lemma_auto_spec_u16_to_from_le_bytes();
    lemma_auto_spec_u32_to_from_le_bytes();
    lemma_auto_spec_u64_to_from_le_bytes();
    assert(x.spec_bytes().subrange(5, 9) == x.connections@);
}

/// Two values of OdtTristateMap with the same bytes are the same value.
#[verifier::spinoff_prover]
pub proof fn lemma_odt_tristate_map_bytes_injective(x: OdtTristateMap, y: OdtTristateMap)
    requires
        x.spec_bytes() == y.spec_bytes(),
    ensures
        x == y,
{
    lemma_odt_tristate_map_bytes_pieces(x);
    lemma_odt_tristate_map_bytes_pieces(y);
    lemma_auto_spec_u16_to_from_le_bytes();
    lemma_auto_spec_u32_to_from_le_bytes();
    lemma_auto_spec_u64_to_from_le_bytes();
    assert(x.type_ == y.type_);
    assert(x.payload_size == y.payload_size);
    assert(x.sockets == y.sockets);
    assert(x.channels == y.channels);
    assert(x.dimms == y.dimms);
    assert(x.connections@ == x.spec_bytes().subrange(5, 9));
    assert(x.connections =~= y.connections);
}

impl OdtTristateMap {
    /// The type tag of this override.
    pub const TAG: u16 = 2;
}

impl Default for OdtTristateMap {
    fn default() -> (r: Self)
        ensures
            r.spec_type_() == 2,
            r.spec_payload_size() == 7,
            r.spec_sockets() == 0xff,
            r.spec_channels() == 0xff,
            r.spec_dimms() == 0xff,
            r.spec_connections() == [0u8, 0u8, 0u8, 0u8],
    {
        OdtTristateMap { type_: 2, payload_size: 7, sockets: 0xff, channels: 0xff, dimms: 0xff, connections: [0; 4] }
    }
}

impl OdtTristateMap {
    /// An override for the given selection; the rest as in the default.
    pub fn new(sockets: SocketIds, channels: ChannelIds, dimms: DimmSlots, connections: [u8; 4]) -> (r: Result<Self>)
        requires
            channels.spec_has_number(),
            dimms.spec_has_number(),
        ensures
            r matches Ok(e) && {
                &&& e.spec_sockets() == sockets.spec_raw()
                &&& e.spec_channels() == channels.spec_to_u64() as u8
                &&& e.spec_dimms() == dimms.spec_to_u64() as u8
                &&& e.spec_connections() == connections
                &&& e.spec_type_() == 2
                &&& e.spec_payload_size() == 7
            },
    {
        let mut result = Self::default();
        result.sockets = sockets.into_raw();
        result.channels = channels.to_u64().unwrap() as u8;
        result.dimms = dimms.to_u64().unwrap() as u8;
        result.connections = connections;
        Ok(result)
    }
}

impl EntryCompatible for OdtTristateMap {
    fn is_entry_compatible(entry_id: EntryId, prefix: &[u8]) -> (r: bool)
        ensures
            r == (entry_id == EntryId::Memory(MemoryEntryId::PlatformSpecificOverride) && prefix@.len() >= 2
                && prefix@[0] == 2 && prefix@[1] + 2 == 9),
    {
        match entry_id {
            EntryId::Memory(MemoryEntryId::PlatformSpecificOverride) => {
                prefix.len() >= 2 && prefix[0] == 2 && prefix[1] as usize + 2 == 9
            },
            _ => false,
        }
    }

    fn skip_step(entry_id: EntryId, prefix: &[u8]) -> (r: Option<(u16, usize)>)
        ensures
            r == spec_tagged_skip_step(entry_id, prefix@),
    {
        tagged_skip_step(entry_id, prefix)
    }
}

impl ElementAsBytes for OdtTristateMap {
    fn element_as_bytes(&self) -> (r: Vec<u8>)
        ensures
            r@ == self.spec_to_bytes(),
    {
        self.to_bytes()
    }
}

impl SequenceElementAsBytes for OdtTristateMap {
    /// The bytes of this override, if its type and size fields are right and the entry is
    /// a platform-specific override entry.
    fn checked_as_bytes(&self, entry_id: EntryId) -> (r: Option<Vec<u8>>)
        ensures
            r is Some <==> (entry_id == EntryId::Memory(MemoryEntryId::PlatformSpecificOverride) && self.spec_type_() == 2
                && self.spec_payload_size() + 2 == 9),
            r matches Some(b) ==> b@ == self.spec_to_bytes(),
    {
        let blob = self.to_bytes();
        proof {
            lemma_odt_tristate_map_bytes_pieces(*self);
        }
        if Self::is_entry_compatible(entry_id, blob.as_slice()) {
            Some(blob)
        } else {
            None
        }
    }
}

/// The CS tristate map: for each CS pin of the CPU package, the CS pin of the memory ranks.
#[allow(non_camel_case_types)]
#[derive(Debug, Clone, Copy)]
pub struct CsTristateMap {
    pub(crate) type_: u8,
    pub(crate) payload_size: u8,
    pub(crate) sockets: u8,
    pub(crate) channels: u8,
    pub(crate) dimms: u8,
    pub connections: [u8; 8],
}

impl CsTristateMap {
    pub closed spec fn spec_type_(self) -> u8 {
        self.type_
    }

    pub closed spec fn spec_payload_size(self) -> u8 {
        self.payload_size
    }

    pub closed spec fn spec_sockets(self) -> u8 {
        self.sockets
    }

    pub closed spec fn spec_channels(self) -> u8 {
        self.channels
    }

    pub closed spec fn spec_dimms(self) -> u8 {
        self.dimms
    }

    pub closed spec fn spec_connections(self) -> [u8; 8] {
        self.connections
    }

    pub fn type_(&self) -> (r: Result<u8>)
        ensures
            r == Ok::<u8, Error>(self.spec_type_()),
    {
        Ok(self.type_)
    }

    pub fn set_type_(&mut self, value: u8)
        ensures
            final(self).spec_type_() == value,
            final(self).spec_payload_size() == old(self).spec_payload_size(),
            final(self).spec_sockets() == old(self).spec_sockets(),
            final(self).spec_channels() == old(self).spec_channels(),
            final(self).spec_dimms() == old(self).spec_dimms(),
            final(self).spec_connections() == old(self).spec_connections(),
    {
        self.type_ = value;
    }

    pub fn sockets(&self) -> (r: Result<SocketIds>)
        ensures
            r is Ok <==> (self.spec_sockets() as u64) & !0xffu64 == 0,
            r matches Ok(b) ==> b.spec_raw() == self.spec_sockets(),
    {
        proof {
            if (self.sockets as u64) & !0xffu64 == 0 {
                lemma_masked_bound_u64(self.sockets as u64, 0xffu64);
            }
        }
        match SocketIds::from_u64(self.sockets as u64) {
            Some(b) => Ok(b),
            None => Err(Error::EntryTypeMismatch),
        }
    }

    pub fn set_sockets(&mut self, value: SocketIds)
        ensures
            final(self).spec_sockets() == value.spec_raw() as u8,
            final(self).spec_type_() == old(self).spec_type_(),
            final(self).spec_payload_size() == old(self).spec_payload_size(),
            final(self).spec_channels() == old(self).spec_channels(),
            final(self).spec_dimms() == old(self).spec_dimms(),
            final(self).spec_connections() == old(self).spec_connections(),
    {
        self.sockets = value.into_raw() as u8;
    }

    pub fn channels(&self) -> (r: Result<ChannelIds>)
        ensures
            r == match ChannelIds::spec_from_u64(self.spec_channels() as u64) {
                Some(e) => Ok::<ChannelIds, Error>(e),
                None => Err(Error::EntryTypeMismatch),
            },
    {
        match ChannelIds::from_u64(self.channels as u64) {
            Some(e) => Ok(e),
            None => Err(Error::EntryTypeMismatch),
        }
    }

    pub fn set_channels(&mut self, value: ChannelIds)
        requires
            value.spec_has_number(),
        ensures
            final(self).spec_channels() == value.spec_to_u64() as u8,
            final(self).spec_type_() == old(self).spec_type_(),
            final(self).spec_payload_size() == old(self).spec_payload_size(),
            final(self).spec_sockets() == old(self).spec_sockets(),
            final(self).spec_dimms() == old(self).spec_dimms(),
            final(self).spec_connections() == old(self).spec_connections(),
    {
        self.channels = value.to_u64().unwrap() as u8;
    }

    pub fn dimms(&self) -> (r: Result<DimmSlots>)
        ensures
            r == match DimmSlots::spec_from_u64(self.spec_dimms() as u64) {
                Some(e) => Ok::<DimmSlots, Error>(e),
                None => Err(Error::EntryTypeMismatch),
            },
    {
        match DimmSlots::from_u64(self.dimms as u64) {
            Some(e) => Ok(e),
            None => Err(Error::EntryTypeMismatch),
        }
    }

    pub fn set_dimms(&mut self, value: DimmSlots)
        requires
            value.spec_has_number(),
        ensures
            final(self).spec_dimms() == value.spec_to_u64() as u8,
            final(self).spec_type_() == old(self).spec_type_(),
            final(self).spec_payload_size() == old(self).spec_payload_size(),
            final(self).spec_sockets() == old(self).spec_sockets(),
            final(self).spec_channels() == old(self).spec_channels(),
            final(self).spec_connections() == old(self).spec_connections(),
    {
        self.dimms = value.to_u64().unwrap() as u8;
    }

}

impl CsTristateMap {
    /// The bytes that store this value on disk.
    pub closed spec fn spec_bytes(self) -> Seq<u8> {
        seq![self.type_]
            + seq![self.payload_size]
            + seq![self.sockets]
            + seq![self.channels]
            + seq![self.dimms]
            + self.connections@
    }
}

impl ByteLayout for CsTristateMap {
    open spec fn spec_size() -> nat {
        13
    }

    open spec fn spec_to_bytes(self) -> Seq<u8> {
        self.spec_bytes()
    }

    fn size() -> (r: usize) {
        13
    }

    #[verifier::spinoff_prover]
    fn from_bytes(bytes: &[u8]) -> (r: Self) {
        let type_: u8 = bytes[0];
        let payload_size: u8 = bytes[1];
        let sockets: u8 = bytes[2];
        let channels: u8 = bytes[3];
        let dimms: u8 = bytes[4];
        let connections: [u8; 8] = [bytes[5], bytes[6], bytes[7], bytes[8], bytes[9], bytes[10], bytes[11], bytes[12]];
        let r = CsTristateMap { type_, payload_size, sockets, channels, dimms, connections };
        proof {
            lemma_auto_spec_u16_to_from_le_bytes();
            lemma_auto_spec_u32_to_from_le_bytes();
            lemma_auto_spec_u64_to_from_le_bytes();
            lemma_cs_tristate_map_bytes_pieces(r);
            assert(bytes@.subrange(5, 13) =~= connections@);
            assert(bytes@.subrange(0, 2) =~= bytes@.subrange(0, 1) + bytes@.subrange(1, 2));
            assert(bytes@.subrange(0, 3) =~= bytes@.subrange(0, 2) + bytes@.subrange(2, 3));
            assert(bytes@.subrange(0, 4) =~= bytes@.subrange(0, 3) + bytes@.subrange(3, 4));
            assert(bytes@.subrange(0, 5) =~= bytes@.subrange(0, 4) + bytes@.subrange(4, 5));
            assert(bytes@.subrange(0, 13) =~= bytes@.subrange(0, 5) + bytes@.subrange(5, 13));
            assert(bytes@.subrange(0, 13) =~= bytes@);
            assert(bytes@ == r.spec_bytes());
        }
        r
    }

    #[verifier::spinoff_prover]
    fn to_bytes(&self) -> (r: Vec<u8>) {
        let mut out: Vec<u8> = Vec::new();
        out.push(self.type_);
        out.push(self.payload_size);
        out.push(self.sockets);
        out.push(self.channels);
        out.push(self.dimms);
        append_bytes(&mut out, &self.connections);
        proof {
            lemma_cs_tristate_map_bytes_pieces(*self);
        }
        out
    }
}

/// How the bytes of a CsTristateMap split up into its fields.
pub proof fn lemma_cs_tristate_map_bytes_pieces(x: CsTristateMap)
    ensures
        x.spec_bytes().len() == 13,
        x.spec_bytes()[0] == x.spec_type_(),
        x.spec_bytes()[1] == x.spec_payload_size(),
        x.spec_bytes()[2] == x.spec_sockets(),
        x.spec_bytes()[3] == x.spec_channels(),
        x.spec_bytes()[4] == x.spec_dimms(),
        x.spec_bytes().subrange(5, 13) == x.spec_connections()@,
{
    lemma_auto_spec_u16_to_from_le_bytes();
    lemma_auto_spec_u32_to_from_le_bytes();
    lemma_auto_spec_u64_to_from_le_bytes();
    assert(x.spec_bytes().subrange(5, 13) == x.connections@);
}

/// Two values of CsTristateMap with the same bytes are the same value.
#[verifier::spinoff_prover]
pub proof fn lemma_cs_tristate_map_bytes_injective(x: CsTristateMap, y: CsTristateMap)
    requires
        x.spec_bytes() == y.spec_bytes(),
    ensures
        x == y,
{
    lemma_cs_tristate_map_bytes_pieces(x);
    lemma_cs_tristate_map_bytes_pieces(y);
    lemma_auto_spec_u16_to_from_le_bytes();
    lemma_auto_spec_u32_to_from_le_bytes();
    lemma_auto_spec_u64_to_from_le_bytes();
    assert(x.type_ == y.type_);
    assert(x.payload_size == y.payload_size);
    assert(x.sockets == y.sockets);
    assert(x.channels == y.channels);
    assert(x.dimms == y.dimms);
    assert(x.connections@ == x.spec_bytes().subrange(5, 13));
    assert(x.connections =~= y.connections);
}

impl CsTristateMap {
    /// The type tag of this override.
    pub const TAG: u16 = 3;
}

impl Default for CsTristateMap {
    fn default() -> (r: Self)
        ensures
            r.spec_type_() == 3,
            r.spec_payload_size() == 11,
            r.spec_sockets() == 0xff,
            r.spec_channels() == 0xff,
            r.spec_dimms() == 0xff,
            r.spec_connections() == [0u8, 0u8, 0u8, 0u8, 0u8, 0u8, 0u8, 0u8],
    {
        CsTristateMap { type_: 3, payload_size: 11, sockets: 0xff, channels: 0xff, dimms: 0xff, connections: [0; 8] }
    }
}

impl CsTristateMap {
    /// An override for the given selection; the rest as in the default.
    pub fn new(sockets: SocketIds, channels: ChannelIds, dimms: DimmSlots, connections: [u8; 8]) -> (r: Result<Self>)
        requires
            channels.spec_has_number(),
            dimms.spec_has_number(),
        ensures
            r matches Ok(e) && {
                &&& e.spec_sockets() == sockets.spec_raw()
                &&& e.spec_channels() == channels.spec_to_u64() as u8
                &&& e.spec_dimms() == dimms.spec_to_u64() as u8
                &&& e.spec_connections() == connections
                &&& e.spec_type_() == 3
                &&& e.spec_payload_size() == 11
            },
    {
        let mut result = Self::default();
        result.sockets = sockets.into_raw();
        result.channels = channels.to_u64().unwrap() as u8;
        result.dimms = dimms.to_u64().unwrap() as u8;
        result.connections = connections;
        Ok(result)
    }
}

impl EntryCompatible for CsTristateMap {
    fn is_entry_compatible(entry_id: EntryId, prefix: &[u8]) -> (r: bool)
        ensures
            r == (entry_id == EntryId::Memory(MemoryEntryId::PlatformSpecificOverride) && prefix@.len() >= 2
                && prefix@[0] == 3 && prefix@[1] + 2 == 13),
    {
        match entry_id {
            EntryId::Memory(MemoryEntryId::PlatformSpecificOverride) => {
                prefix.len() >= 2 && prefix[0] == 3 && prefix[1] as usize + 2 == 13
            },
            _ => false,
        }
    }

    fn skip_step(entry_id: EntryId, prefix: &[u8]) -> (r: Option<(u16, usize)>)
        ensures
            r == spec_tagged_skip_step(entry_id, prefix@),
    {
        tagged_skip_step(entry_id, prefix)
    }
}

impl ElementAsBytes for CsTristateMap {
    fn element_as_bytes(&self) -> (r: Vec<u8>)
        ensures
            r@ == self.spec_to_bytes(),
    {
        self.to_bytes()
    }
}

impl SequenceElementAsBytes for CsTristateMap {
    /// The bytes of this override, if its type and size fields are right and the entry is
    /// a platform-specific override entry.
    fn checked_as_bytes(&self, entry_id: EntryId) -> (r: Option<Vec<u8>>)
        ensures
            r is Some <==> (entry_id == EntryId::Memory(MemoryEntryId::PlatformSpecificOverride) && self.spec_type_() == 3
                && self.spec_payload_size() + 2 == 13),
            r matches Some(b) ==> b@ == self.spec_to_bytes(),
    {
        let blob = self.to_bytes();
        proof {
            lemma_cs_tristate_map_bytes_pieces(*self);
        }
        if Self::is_entry_compatible(entry_id, blob.as_slice()) {
            Some(blob)
        } else {
            None
        }
    }
}

/// The maximum number of DIMMs per channel.
#[allow(non_camel_case_types)]
#[derive(Debug, Clone, Copy, PartialEq, Eq, Structural)]
pub struct MaxDimmsPerChannel {
    pub(crate) type_: u8,
    pub(crate) payload_size: u8,
    pub(crate) sockets: u8,
    pub(crate) channels: u8,
    pub(crate) dimms: u8,
    pub(crate) value: u8,
}

impl MaxDimmsPerChannel {
    pub closed spec fn spec_type_(self) -> u8 {
        self.type_
    }

    pub closed spec fn spec_payload_size(self) -> u8 {
        self.payload_size
    }

    pub closed spec fn spec_sockets(self) -> u8 {
        self.sockets
    }

    pub closed spec fn spec_channels(self) -> u8 {
        self.channels
    }

    pub closed spec fn spec_dimms(self) -> u8 {
        self.dimms
    }

    pub closed spec fn spec_value(self) -> u8 {
        self.value
    }

    pub fn type_(&self) -> (r: Result<u8>)
        ensures
            r == Ok::<u8, Error>(self.spec_type_()),
    {
        Ok(self.type_)
    }

    pub fn set_type_(&mut self, value: u8)
        ensures
            final(self).spec_type_() == value,
            final(self).spec_payload_size() == old(self).spec_payload_size(),
            final(self).spec_sockets() == old(self).spec_sockets(),
            final(self).spec_channels() == old(self).spec_channels(),
            final(self).spec_dimms() == old(self).spec_dimms(),
            final(self).spec_value() == old(self).spec_value(),
    {
        self.type_ = value;
    }

    pub fn sockets(&self) -> (r: Result<SocketIds>)
        ensures
            r is Ok <==> (self.spec_sockets() as u64) & !0xffu64 == 0,
            r matches Ok(b) ==> b.spec_raw() == self.spec_sockets(),
    {
        proof {
            if (self.sockets as u64) & !0xffu64 == 0 {
                lemma_masked_bound_u64(self.sockets as u64, 0xffu64);
            }
        }
        match SocketIds::from_u64(self.sockets as u64) {
            Some(b) => Ok(b),
            None => Err(Error::EntryTypeMismatch),
        }
    }

    pub fn set_sockets(&mut self, value: SocketIds)
        ensures
            final(self).spec_sockets() == value.spec_raw() as u8,
            final(self).spec_type_() == old(self).spec_type_(),
            final(self).spec_payload_size() == old(self).spec_payload_size(),
            final(self).spec_channels() == old(self).spec_channels(),
            final(self).spec_dimms() == old(self).spec_dimms(),
            final(self).spec_value() == old(self).spec_value(),
    {
        self.sockets = value.into_raw() as u8;
    }

    pub fn channels(&self) -> (r: Result<ChannelIds>)
        ensures
            r == match ChannelIds::spec_from_u64(self.spec_channels() as u64) {
                Some(e) => Ok::<ChannelIds, Error>(e),
                None => Err(Error::EntryTypeMismatch),
            },
    {
        match ChannelIds::from_u64(self.channels as u64) {
            Some(e) => Ok(e),
            None => Err(Error::EntryTypeMismatch),
        }
    }

    pub fn set_channels(&mut self, value: ChannelIds)
        requires
            value.spec_has_number(),
        ensures
            final(self).spec_channels() == value.spec_to_u64() as u8,
            final(self).spec_type_() == old(self).spec_type_(),
            final(self).spec_payload_size() == old(self).spec_payload_size(),
            final(self).spec_sockets() == old(self).spec_sockets(),
            final(self).spec_dimms() == old(self).spec_dimms(),
            final(self).spec_value() == old(self).spec_value(),
    {
        self.channels = value.to_u64().unwrap() as u8;
    }

    pub fn dimms(&self) -> (r: Result<DimmSlots>)
        ensures
            r == match DimmSlots::spec_from_u64(self.spec_dimms() as u64) {
                Some(e) => Ok::<DimmSlots, Error>(e),
                None => Err(Error::EntryTypeMismatch),
            },
    {
        match DimmSlots::from_u64(self.dimms as u64) {
            Some(e) => Ok(e),
            None => Err(Error::EntryTypeMismatch),
        }
    }

    pub fn set_dimms(&mut self, value: DimmSlots)
        requires
            value.spec_has_number(),
        ensures
            final(self).spec_dimms() == value.spec_to_u64() as u8,
            final(self).spec_type_() == old(self).spec_type_(),
            final(self).spec_payload_size() == old(self).spec_payload_size(),
            final(self).spec_sockets() == old(self).spec_sockets(),
            final(self).spec_channels() == old(self).spec_channels(),
            final(self).spec_value() == old(self).spec_value(),
    {
        self.dimms = value.to_u64().unwrap() as u8;
    }

    pub fn value(&self) -> (r: Result<u8>)
        ensures
            r == Ok::<u8, Error>(self.spec_value()),
    {
        Ok(self.value)
    }

    pub fn set_value(&mut self, value: u8)
        ensures
            final(self).spec_value() == value,
            final(self).spec_type_() == old(self).spec_type_(),
            final(self).spec_payload_size() == old(self).spec_payload_size(),
            final(self).spec_sockets() == old(self).spec_sockets(),
            final(self).spec_channels() == old(self).spec_channels(),
            final(self).spec_dimms() == old(self).spec_dimms(),
    {
        self.value = value;
    }

}

impl MaxDimmsPerChannel {
    /// The bytes that store this value on disk.
    pub closed spec fn spec_bytes(self) -> Seq<u8> {
        seq![self.type_]
            + seq![self.payload_size]
            + seq![self.sockets]
            + seq![self.channels]
            + seq![self.dimms]
            + seq![self.value]
    }
}

impl ByteLayout for MaxDimmsPerChannel {
    open spec fn spec_size() -> nat {
        6
    }

    open spec fn spec_to_bytes(self) -> Seq<u8> {
        self.spec_bytes()
    }

    fn size() -> (r: usize) {
        6
    }

    #[verifier::spinoff_prover]
    fn from_bytes(bytes: &[u8]) -> (r: Self) {
        let type_: u8 = bytes[0];
        let payload_size: u8 = bytes[1];
        let sockets: u8 = bytes[2];
        let channels: u8 = bytes[3];
        let dimms: u8 = bytes[4];
        let value: u8 = bytes[5];
        let r = MaxDimmsPerChannel { type_, payload_size, sockets, channels, dimms, value };
        proof {
            lemma_auto_spec_u16_to_from_le_bytes();
            lemma_auto_spec_u32_to_from_le_bytes();
            lemma_auto_spec_u64_to_from_le_bytes();
            lemma_max_dimms_per_channel_bytes_pieces(r);
            assert(bytes@.subrange(0, 2) =~= bytes@.subrange(0, 1) + bytes@.subrange(1, 2));
            assert(bytes@.subrange(0, 3) =~= bytes@.subrange(0, 2) + bytes@.subrange(2, 3));
            assert(bytes@.subrange(0, 4) =~= bytes@.subrange(0, 3) + bytes@.subrange(3, 4));
            assert(bytes@.subrange(0, 5) =~= bytes@.subrange(0, 4) + bytes@.subrange(4, 5));
            assert(bytes@.subrange(0, 6) =~= bytes@.subrange(0, 5) + bytes@.subrange(5, 6));
            assert(bytes@.subrange(0, 6) =~= bytes@);
            assert(bytes@ == r.spec_bytes());
        }
        r
    }

    #[verifier::spinoff_prover]
    fn to_bytes(&self) -> (r: Vec<u8>) {
        let mut out: Vec<u8> = Vec::new();
        out.push(self.type_);
        out.push(self.payload_size);
        out.push(self.sockets);
        out.push(self.channels);
        out.push(self.dimms);
        out.push(self.value);
        proof {
            lemma_max_dimms_per_channel_bytes_pieces(*self);
        }
        out
    }
}

/// How the bytes of a MaxDimmsPerChannel split up into its fields.
pub proof fn lemma_max_dimms_per_channel_bytes_pieces(x: MaxDimmsPerChannel)
    ensures
        x.spec_bytes().len() == 6,
        x.spec_bytes()[0] == x.spec_type_(),
        x.spec_bytes()[1] == x.spec_payload_size(),
        x.spec_bytes()[2] == x.spec_sockets(),
        x.spec_bytes()[3] == x.spec_channels(),
        x.spec_bytes()[4] == x.spec_dimms(),
        x.spec_bytes()[5] == x.spec_value(),
{
    lemma_auto_spec_u16_to_from_le_bytes();
    lemma_auto_spec_u32_to_from_le_bytes();
    lemma_auto_spec_u64_to_from_le_bytes();
}

/// Two values of MaxDimmsPerChannel with the same bytes are the same value.
#[verifier::spinoff_prover]
pub proof fn lemma_max_dimms_per_channel_bytes_injective(x: MaxDimmsPerChannel, y: MaxDimmsPerChannel)
    requires
        x.spec_bytes() == y.spec_bytes(),
    ensures
        x == y,
{
    lemma_max_dimms_per_channel_bytes_pieces(x);
    lemma_max_dimms_per_channel_bytes_pieces(y);
    lemma_auto_spec_u16_to_from_le_bytes();
    lemma_auto_spec_u32_to_from_le_bytes();
    lemma_auto_spec_u64_to_from_le_bytes();
    assert(x.type_ == y.type_);
    assert(x.payload_size == y.payload_size);
    assert(x.sockets == y.sockets);
    assert(x.channels == y.channels);
    assert(x.dimms == y.dimms);
    assert(x.value == y.value);
}

impl MaxDimmsPerChannel {
    /// The type tag of this override.
    pub const TAG: u16 = 4;
}

impl Default for MaxDimmsPerChannel {
    fn default() -> (r: Self)
        ensures
            r.spec_type_() == 4,
            r.spec_payload_size() == 4,
            r.spec_sockets() == 0xff,
            r.spec_channels() == 0xff,
            r.spec_dimms() == 0xff,
            r.spec_value() == 2,
    {
        MaxDimmsPerChannel { type_: 4, payload_size: 4, sockets: 0xff, channels: 0xff, dimms: 0xff, value: 2 }
    }
}

impl MaxDimmsPerChannel {
    /// An override for the given selection; the rest as in the default.
    pub fn new(sockets: SocketIds, channels: ChannelIds, value: u8) -> (r: Result<Self>)
        requires
            channels.spec_has_number(),
        ensures
            r matches Ok(e) && {
                &&& e.spec_sockets() == sockets.spec_raw()
                &&& e.spec_channels() == channels.spec_to_u64() as u8
                &&& e.spec_dimms() == 0xff
                &&& e.spec_value() == value
                &&& e.spec_type_() == 4
                &&& e.spec_payload_size() == 4
            },
    {
        let mut result = Self::default();
        result.sockets = sockets.into_raw();
        result.channels = channels.to_u64().unwrap() as u8;
        result.value = value;
        Ok(result)
    }
}

impl EntryCompatible for MaxDimmsPerChannel {
    fn is_entry_compatible(entry_id: EntryId, prefix: &[u8]) -> (r: bool)
        ensures
            r == (entry_id == EntryId::Memory(MemoryEntryId::PlatformSpecificOverride) && prefix@.len() >= 2
                && prefix@[0] == 4 && prefix@[1] + 2 == 6),
    {
        match entry_id {
            EntryId::Memory(MemoryEntryId::PlatformSpecificOverride) => {
                prefix.len() >= 2 && prefix[0] == 4 && prefix[1] as usize + 2 == 6
            },
            _ => false,
        }
    }

    fn skip_step(entry_id: EntryId, prefix: &[u8]) -> (r: Option<(u16, usize)>)
        ensures
            r == spec_tagged_skip_step(entry_id, prefix@),
    {
        tagged_skip_step(entry_id, prefix)
    }
}

impl ElementAsBytes for MaxDimmsPerChannel {
    fn element_as_bytes(&self) -> (r: Vec<u8>)
        ensures
            r@ == self.spec_to_bytes(),
    {
        self.to_bytes()
    }
}

impl SequenceElementAsBytes for MaxDimmsPerChannel {
    /// The bytes of this override, if its type and size fields are right and the entry is
    /// a platform-specific override entry.
    fn checked_as_bytes(&self, entry_id: EntryId) -> (r: Option<Vec<u8>>)
        ensures
            r is Some <==> (entry_id == EntryId::Memory(MemoryEntryId::PlatformSpecificOverride) && self.spec_type_() == 4
                && self.spec_payload_size() + 2 == 6),
            r matches Some(b) ==> b@ == self.spec_to_bytes(),
    {
        let blob = self.to_bytes();
        proof {
            lemma_max_dimms_per_channel_bytes_pieces(*self);
        }
        if Self::is_entry_compatible(entry_id, blob.as_slice()) {
            Some(blob)
        } else {
            None
        }
    }
}

/// The maximum number of DIMMs per channel (with twelve-channel selection).
#[allow(non_camel_case_types)]
#[derive(Debug, Clone, Copy, PartialEq, Eq, Structural)]
pub struct MaxDimmsPerChannel6 {
    pub(crate) type_: u8,
    pub(crate) payload_size: u8,
    pub(crate) sockets: u8,
    pub(crate) channels: u16,
    pub(crate) dimms: u8,
    pub(crate) value: u8,
    pub(crate) _padding_0: u8,
}

impl MaxDimmsPerChannel6 {
    pub closed spec fn spec_type_(self) -> u8 {
        self.type_
    }

    pub closed spec fn spec_payload_size(self) -> u8 {
        self.payload_size
    }

    pub closed spec fn spec_sockets(self) -> u8 {
        self.sockets
    }

    pub closed spec fn spec_channels(self) -> u16 {
        self.channels
    }

    pub closed spec fn spec_dimms(self) -> u8 {
        self.dimms
    }

    pub closed spec fn spec_value(self) -> u8 {
        self.value
    }

    pub closed spec fn spec__padding_0(self) -> u8 {
        self._padding_0
    }

    pub fn type_(&self) -> (r: Result<u8>)
        ensures
            r == Ok::<u8, Error>(self.spec_type_()),
    {
        Ok(self.type_)
    }

    pub fn set_type_(&mut self, value: u8)
        ensures
            final(self).spec_type_() == value,
            final(self).spec_payload_size() == old(self).spec_payload_size(),
            final(self).spec_sockets() == old(self).spec_sockets(),
            final(self).spec_channels() == old(self).spec_channels(),
            final(self).spec_dimms() == old(self).spec_dimms(),
            final(self).spec_value() == old(self).spec_value(),
            final(self).spec__padding_0() == old(self).spec__padding_0(),
    {
        self.type_ = value;
    }

    pub fn sockets(&self) -> (r: Result<SocketIds>)
        ensures
            r is Ok <==> (self.spec_sockets() as u64) & !0xffu64 == 0,
            r matches Ok(b) ==> b.spec_raw() == self.spec_sockets(),
    {
        proof {
            if (self.sockets as u64) & !0xffu64 == 0 {
                lemma_masked_bound_u64(self.sockets as u64, 0xffu64);
            }
        }
        match SocketIds::from_u64(self.sockets as u64) {
            Some(b) => Ok(b),
            None => Err(Error::EntryTypeMismatch),
        }
    }

    pub fn set_sockets(&mut self, value: SocketIds)
        ensures
            final(self).spec_sockets() == value.spec_raw() as u8,
            final(self).spec_type_() == old(self).spec_type_(),
            final(self).spec_payload_size() == old(self).spec_payload_size(),
            final(self).spec_channels() == old(self).spec_channels(),
            final(self).spec_dimms() == old(self).spec_dimms(),
            final(self).spec_value() == old(self).spec_value(),
            final(self).spec__padding_0() == old(self).spec__padding_0(),
    {
        self.sockets = value.into_raw() as u8;
    }

    pub fn channels(&self) -> (r: Result<ChannelIdsSelection12>)
        ensures
            r is Ok <==> (self.spec_channels() as u64) & !0xfffu64 == 0,
            r matches Ok(b) ==> b.spec_raw() == self.spec_channels(),
    {
        proof {
            if (self.channels as u64) & !0xfffu64 == 0 {
                lemma_masked_bound_u64(self.channels as u64, 0xfffu64);
            }
        }
        match ChannelIdsSelection12::from_u64(self.channels as u64) {
            Some(b) => Ok(b),
            None => Err(Error::EntryTypeMismatch),
        }
    }

    pub fn set_channels(&mut self, value: ChannelIdsSelection12)
        ensures
            final(self).spec_channels() == value.spec_raw() as u16,
            final(self).spec_type_() == old(self).spec_type_(),
            final(self).spec_payload_size() == old(self).spec_payload_size(),
            final(self).spec_sockets() == old(self).spec_sockets(),
            final(self).spec_dimms() == old(self).spec_dimms(),
            final(self).spec_value() == old(self).spec_value(),
            final(self).spec__padding_0() == old(self).spec__padding_0(),
    {
        self.channels = value.into_raw() as u16;
    }

    pub fn dimms(&self) -> (r: Result<DimmSlots>)
        ensures
            r == match DimmSlots::spec_from_u64(self.spec_dimms() as u64) {
                Some(e) => Ok::<DimmSlots, Error>(e),
                None => Err(Error::EntryTypeMismatch),
            },
    {
        match DimmSlots::from_u64(self.dimms as u64) {
            Some(e) => Ok(e),
            None => Err(Error::EntryTypeMismatch),
        }
    }

    pub fn set_dimms(&mut self, value: DimmSlots)
        requires
            value.spec_has_number(),
        ensures
            final(self).spec_dimms() == value.spec_to_u64() as u8,
            final(self).spec_type_() == old(self).spec_type_(),
            final(self).spec_payload_size() == old(self).spec_payload_size(),
            final(self).spec_sockets() == old(self).spec_sockets(),
            final(self).spec_channels() == old(self).spec_channels(),
            final(self).spec_value() == old(self).spec_value(),
            final(self).spec__padding_0() == old(self).spec__padding_0(),
    {
        self.dimms = value.to_u64().unwrap() as u8;
    }

    pub fn value(&self) -> (r: Result<u8>)
        ensures
            r == Ok::<u8, Error>(self.spec_value()),
    {
        Ok(self.value)
    }

    pub fn set_value(&mut self, value: u8)
        ensures
            final(self).spec_value() == value,
            final(self).spec_type_() == old(self).spec_type_(),
            final(self).spec_payload_size() == old(self).spec_payload_size(),
            final(self).spec_sockets() == old(self).spec_sockets(),
            final(self).spec_channels() == old(self).spec_channels(),
            final(self).spec_dimms() == old(self).spec_dimms(),
            final(self).spec__padding_0() == old(self).spec__padding_0(),
    {
        self.value = value;
    }

    pub fn _padding_0(&self) -> (r: Result<u8>)
        ensures
            r == Ok::<u8, Error>(self.spec__padding_0()),
    {
        Ok(self._padding_0)
    }

    pub fn set__padding_0(&mut self, value: u8)
        ensures
            final(self).spec__padding_0() == value,
            final(self).spec_type_() == old(self).spec_type_(),
            final(self).spec_payload_size() == old(self).spec_payload_size(),
            final(self).spec_sockets() == old(self).spec_sockets(),
            final(self).spec_channels() == old(self).spec_channels(),
            final(self).spec_dimms() == old(self).spec_dimms(),
            final(self).spec_value() == old(self).spec_value(),
    {
        self._padding_0 = value;
    }

}

impl MaxDimmsPerChannel6 {
    /// The bytes that store this value on disk.
    pub closed spec fn spec_bytes(self) -> Seq<u8> {
        seq![self.type_]
            + seq![self.payload_size]
            + seq![self.sockets]
            + spec_u16_to_le_bytes(self.channels)
            + seq![self.dimms]
            + seq![self.value]
            + seq![self._padding_0]
    }
}

impl ByteLayout for MaxDimmsPerChannel6 {
    open spec fn spec_size() -> nat {
        8
    }

    open spec fn spec_to_bytes(self) -> Seq<u8> {
        self.spec_bytes()
    }

    fn size() -> (r: usize) {
        8
    }

    #[verifier::spinoff_prover]
    fn from_bytes(bytes: &[u8]) -> (r: Self) {
        let type_: u8 = bytes[0];
        let payload_size: u8 = bytes[1];
        let sockets: u8 = bytes[2];
        let channels: u16 = u16_from_le_bytes(slice_subrange(bytes, 3, 5));
        let dimms: u8 = bytes[5];
        let value: u8 = bytes[6];
        let _padding_0: u8 = bytes[7];
        let r = MaxDimmsPerChannel6 { type_, payload_size, sockets, channels, dimms, value, _padding_0 };
        proof {
            lemma_auto_spec_u16_to_from_le_bytes();
            lemma_auto_spec_u32_to_from_le_bytes();
            lemma_auto_spec_u64_to_from_le_bytes();
            lemma_max_dimms_per_channel6_bytes_pieces(r);
            assert(bytes@.subrange(3, 5) == spec_u16_to_le_bytes(channels));
            assert(bytes@.subrange(0, 2) =~= bytes@.subrange(0, 1) + bytes@.subrange(1, 2));
            assert(bytes@.subrange(0, 3) =~= bytes@.subrange(0, 2) + bytes@.subrange(2, 3));
            assert(bytes@.subrange(0, 5) =~= bytes@.subrange(0, 3) + bytes@.subrange(3, 5));
            assert(bytes@.subrange(0, 6) =~= bytes@.subrange(0, 5) + bytes@.subrange(5, 6));
            assert(bytes@.subrange(0, 7) =~= bytes@.subrange(0, 6) + bytes@.subrange(6, 7));
            assert(bytes@.subrange(0, 8) =~= bytes@.subrange(0, 7) + bytes@.subrange(7, 8));
            assert(bytes@.subrange(0, 8) =~= bytes@);
            assert(bytes@ == r.spec_bytes());
        }
        r
    }

    #[verifier::spinoff_prover]
    fn to_bytes(&self) -> (r: Vec<u8>) {
        let mut out: Vec<u8> = Vec::new();
        out.push(self.type_);
        out.push(self.payload_size);
        out.push(self.sockets);
        append_bytes(&mut out, &le_bytes_u16(self.channels));
        out.push(self.dimms);
        out.push(self.value);
        out.push(self._padding_0);
        proof {
            lemma_max_dimms_per_channel6_bytes_pieces(*self);
        }
        out
    }
}

/// How the bytes of a MaxDimmsPerChannel6 split up into its fields.
pub proof fn lemma_max_dimms_per_channel6_bytes_pieces(x: MaxDimmsPerChannel6)
    ensures
        x.spec_bytes().len() == 8,
        x.spec_bytes()[0] == x.spec_type_(),
        x.spec_bytes()[1] == x.spec_payload_size(),
        x.spec_bytes()[2] == x.spec_sockets(),
        x.spec_bytes().subrange(3, 5) == spec_u16_to_le_bytes(x.spec_channels()),
        x.spec_bytes()[5] == x.spec_dimms(),
        x.spec_bytes()[6] == x.spec_value(),
        x.spec_bytes()[7] == x.spec__padding_0(),
{
    lemma_auto_spec_u16_to_from_le_bytes();
    lemma_auto_spec_u32_to_from_le_bytes();
    lemma_auto_spec_u64_to_from_le_bytes();
    assert(x.spec_bytes().subrange(3, 5) == spec_u16_to_le_bytes(x.channels));
}

/// Two values of MaxDimmsPerChannel6 with the same bytes are the same value.
#[verifier::spinoff_prover]
pub proof fn lemma_max_dimms_per_channel6_bytes_injective(x: MaxDimmsPerChannel6, y: MaxDimmsPerChannel6)
    requires
        x.spec_bytes() == y.spec_bytes(),
    ensures
        x == y,
{
    lemma_max_dimms_per_channel6_bytes_pieces(x);
    lemma_max_dimms_per_channel6_bytes_pieces(y);
    lemma_auto_spec_u16_to_from_le_bytes();
    lemma_auto_spec_u32_to_from_le_bytes();
    lemma_auto_spec_u64_to_from_le_bytes();
    assert(x.type_ == y.type_);
    assert(x.payload_size == y.payload_size);
    assert(x.sockets == y.sockets);
    assert(spec_u16_from_le_bytes(spec_u16_to_le_bytes(x.channels)) == spec_u16_from_le_bytes(spec_u16_to_le_bytes(y.channels)));
    assert(x.dimms == y.dimms);
    assert(x.value == y.value);
    assert(x._padding_0 == y._padding_0);
}

impl MaxDimmsPerChannel6 {
    /// The type tag of this override.
    pub const TAG: u16 = 4;
}

impl Default for MaxDimmsPerChannel6 {
    fn default() -> (r: Self)
        ensures
            r.spec_type_() == 4,
            r.spec_payload_size() == 6,
            r.spec_sockets() == 0xff,
            r.spec_channels() == 0xff,
            r.spec_dimms() == 0xff,
            r.spec_value() == 2,
            r.spec__padding_0() == 0,
    {
        MaxDimmsPerChannel6 { type_: 4, payload_size: 6, sockets: 0xff, channels: 0xff, dimms: 0xff, value: 2, _padding_0: 0 }
    }
}

impl MaxDimmsPerChannel6 {
    /// An override for the given selection; the rest as in the default.
    pub fn new(sockets: SocketIds, channels: ChannelIds, value: u8) -> (r: Result<Self>)
        requires
            channels.spec_has_number(),
        ensures
            r matches Ok(e) && {
                &&& e.spec_sockets() == sockets.spec_raw()
                &&& e.spec_channels() == channels.spec_to_u64() as u16
                &&& e.spec_dimms() == 0xff
                &&& e.spec_value() == value
                &&& e.spec_type_() == 4
                &&& e.spec_payload_size() == 6
            },
    {
        let mut result = Self::default();
        result.sockets = sockets.into_raw();
        result.channels = channels.to_u64().unwrap() as u16;
        result.value = value;
        Ok(result)
    }
}

impl EntryCompatible for MaxDimmsPerChannel6 {
    fn is_entry_compatible(entry_id: EntryId, prefix: &[u8]) -> (r: bool)
        ensures
            r == (entry_id == EntryId::Memory(MemoryEntryId::PlatformSpecificOverride) && prefix@.len() >= 2
                && prefix@[0] == 4 && prefix@[1] + 2 == 8),
    {
        match entry_id {
            EntryId::Memory(MemoryEntryId::PlatformSpecificOverride) => {
                prefix.len() >= 2 && prefix[0] == 4 && prefix[1] as usize + 2 == 8
            },
            _ => false,
        }
    }

    fn skip_step(entry_id: EntryId, prefix: &[u8]) -> (r: Option<(u16, usize)>)
        ensures
            r == spec_tagged_skip_step(entry_id, prefix@),
    {
        tagged_skip_step(entry_id, prefix)
    }
}

impl ElementAsBytes for MaxDimmsPerChannel6 {
    fn element_as_bytes(&self) -> (r: Vec<u8>)
        ensures
            r@ == self.spec_to_bytes(),
    {
        self.to_bytes()
    }
}

impl SequenceElementAsBytes for MaxDimmsPerChannel6 {
    /// The bytes of this override, if its type and size fields are right and the entry is
    /// a platform-specific override entry.
    fn checked_as_bytes(&self, entry_id: EntryId) -> (r: Option<Vec<u8>>)
        ensures
            r is Some <==> (entry_id == EntryId::Memory(MemoryEntryId::PlatformSpecificOverride) && self.spec_type_() == 4
                && self.spec_payload_size() + 2 == 8),
            r matches Some(b) ==> b@ == self.spec_to_bytes(),
    {
        let blob = self.to_bytes();
        proof {
            lemma_max_dimms_per_channel6_bytes_pieces(*self);
        }
        if Self::is_entry_compatible(entry_id, blob.as_slice()) {
            Some(blob)
        } else {
            None
        }
    }
}

/// The memory clock map (all disabled by default).
#[allow(non_camel_case_types)]
#[derive(Debug, Clone, Copy)]
pub struct MemclkMap {
    pub(crate) type_: u8,
    pub(crate) payload_size: u8,
    pub(crate) sockets: u8,
    pub(crate) channels: u8,
    pub(crate) dimms: u8,
    pub connections: [u8; 8],
}

impl MemclkMap {
    pub closed spec fn spec_type_(self) -> u8 {
        self.type_
    }

    pub closed spec fn spec_payload_size(self) -> u8 {
        self.payload_size
    }

    pub closed spec fn spec_sockets(self) -> u8 {
        self.sockets
    }

    pub closed spec fn spec_channels(self) -> u8 {
        self.channels
    }

    pub closed spec fn spec_dimms(self) -> u8 {
        self.dimms
    }

    pub closed spec fn spec_connections(self) -> [u8; 8] {
        self.connections
    }

    pub fn type_(&self) -> (r: Result<u8>)
        ensures
            r == Ok::<u8, Error>(self.spec_type_()),
    {
        Ok(self.type_)
    }

    pub fn set_type_(&mut self, value: u8)
        ensures
            final(self).spec_type_() == value,
            final(self).spec_payload_size() == old(self).spec_payload_size(),
            final(self).spec_sockets() == old(self).spec_sockets(),
            final(self).spec_channels() == old(self).spec_channels(),
            final(self).spec_dimms() == old(self).spec_dimms(),
            final(self).spec_connections() == old(self).spec_connections(),
    {
        self.type_ = value;
    }

    pub fn sockets(&self) -> (r: Result<SocketIds>)
        ensures
            r is Ok <==> (self.spec_sockets() as u64) & !0xffu64 == 0,
            r matches Ok(b) ==> b.spec_raw() == self.spec_sockets(),
    {
        proof {
            if (self.sockets as u64) & !0xffu64 == 0 {
                lemma_masked_bound_u64(self.sockets as u64, 0xffu64);
            }
        }
        match SocketIds::from_u64(self.sockets as u64) {
            Some(b) => Ok(b),
            None => Err(Error::EntryTypeMismatch),
        }
    }

    pub fn set_sockets(&mut self, value: SocketIds)
        ensures
            final(self).spec_sockets() == value.spec_raw() as u8,
            final(self).spec_type_() == old(self).spec_type_(),
            final(self).spec_payload_size() == old(self).spec_payload_size(),
            final(self).spec_channels() == old(self).spec_channels(),
            final(self).spec_dimms() == old(self).spec_dimms(),
            final(self).spec_connections() == old(self).spec_connections(),
    {
        self.sockets = value.into_raw() as u8;
    }

    pub fn channels(&self) -> (r: Result<ChannelIds>)
        ensures
            r == match ChannelIds::spec_from_u64(self.spec_channels() as u64) {
                Some(e) => Ok::<ChannelIds, Error>(e),
                None => Err(Error::EntryTypeMismatch),
            },
    {
        match ChannelIds::from_u64(self.channels as u64) {
            Some(e) => Ok(e),
            None => Err(Error::EntryTypeMismatch),
        }
    }

    pub fn set_channels(&mut self, value: ChannelIds)
        requires
            value.spec_has_number(),
        ensures
            final(self).spec_channels() == value.spec_to_u64() as u8,
            final(self).spec_type_() == old(self).spec_type_(),
            final(self).spec_payload_size() == old(self).spec_payload_size(),
            final(self).spec_sockets() == old(self).spec_sockets(),
            final(self).spec_dimms() == old(self).spec_dimms(),
            final(self).spec_connections() == old(self).spec_connections(),
    {
        self.channels = value.to_u64().unwrap() as u8;
    }

    pub fn dimms(&self) -> (r: Result<DimmSlots>)
        ensures
            r == match DimmSlots::spec_from_u64(self.spec_dimms() as u64) {
                Some(e) => Ok::<DimmSlots, Error>(e),
                None => Err(Error::EntryTypeMismatch),
            },
    {
        match DimmSlots::from_u64(self.dimms as u64) {
            Some(e) => Ok(e),
            None => Err(Error::EntryTypeMismatch),
        }
    }

    pub fn set_dimms(&mut self, value: DimmSlots)
        requires
            value.spec_has_number(),
        ensures
            final(self).spec_dimms() == value.spec_to_u64() as u8,
            final(self).spec_type_() == old(self).spec_type_(),
            final(self).spec_payload_size() == old(self).spec_payload_size(),
            final(self).spec_sockets() == old(self).spec_sockets(),
            final(self).spec_channels() == old(self).spec_channels(),
            final(self).spec_connections() == old(self).spec_connections(),
    {
        self.dimms = value.to_u64().unwrap() as u8;
    }

}

impl MemclkMap {
    /// The bytes that store this value on disk.
    pub closed spec fn spec_bytes(self) -> Seq<u8> {
        seq![self.type_]
            + seq![self.payload_size]
            + seq![self.sockets]
            + seq![self.channels]
            + seq![self.dimms]
            + self.connections@
    }
}

impl ByteLayout for MemclkMap {
    open spec fn spec_size() -> nat {
        13
    }

    open spec fn spec_to_bytes(self) -> Seq<u8> {
        self.spec_bytes()
    }

    fn size() -> (r: usize) {
        13
    }

    #[verifier::spinoff_prover]
    fn from_bytes(bytes: &[u8]) -> (r: Self) {
        let type_: u8 = bytes[0];
        let payload_size: u8 = bytes[1];
        let sockets: u8 = bytes[2];
        let channels: u8 = bytes[3];
        let dimms: u8 = bytes[4];
        let connections: [u8; 8] = [bytes[5], bytes[6], bytes[7], bytes[8], bytes[9], bytes[10], bytes[11], bytes[12]];
        let r = MemclkMap { type_, payload_size, sockets, channels, dimms, connections };
        proof {
            lemma_auto_spec_u16_to_from_le_bytes();
            lemma_auto_spec_u32_to_from_le_bytes();
            lemma_auto_spec_u64_to_from_le_bytes();
            lemma_memclk_map_bytes_pieces(r);
            assert(bytes@.subrange(5, 13) =~= connections@);
            assert(bytes@.subrange(0, 2) =~= bytes@.subrange(0, 1) + bytes@.subrange(1, 2));
            assert(bytes@.subrange(0, 3) =~= bytes@.subrange(0, 2) + bytes@.subrange(2, 3));
            assert(bytes@.subrange(0, 4) =~= bytes@.subrange(0, 3) + bytes@.subrange(3, 4));
            assert(bytes@.subrange(0, 5) =~= bytes@.subrange(0, 4) + bytes@.subrange(4, 5));
            assert(bytes@.subrange(0, 13) =~= bytes@.subrange(0, 5) + bytes@.subrange(5, 13));
            assert(bytes@.subrange(0, 13) =~= bytes@);
            assert(bytes@ == r.spec_bytes());
        }
        r
    }

    #[verifier::spinoff_prover]
    fn to_bytes(&self) -> (r: Vec<u8>) {
        let mut out: Vec<u8> = Vec::new();
        out.push(self.type_);
        out.push(self.payload_size);
        out.push(self.sockets);
        out.push(self.channels);
        out.push(self.dimms);
        append_bytes(&mut out, &self.connections);
        proof {
            lemma_memclk_map_bytes_pieces(*self);
        }
        out
    }
}

/// How the bytes of a MemclkMap split up into its fields.
pub proof fn lemma_memclk_map_bytes_pieces(x: MemclkMap)
    ensures
        x.spec_bytes().len() == 13,
        x.spec_bytes()[0] == x.spec_type_(),
        x.spec_bytes()[1] == x.spec_payload_size(),
        x.spec_bytes()[2] == x.spec_sockets(),
        x.spec_bytes()[3] == x.spec_channels(),
        x.spec_bytes()[4] == x.spec_dimms(),
        x.spec_bytes().subrange(5, 13) == x.spec_connections()@,
{
    lemma_auto_spec_u16_to_from_le_bytes();
    lemma_auto_spec_u32_to_from_le_bytes();
    lemma_auto_spec_u64_to_from_le_bytes();
    assert(x.spec_bytes().subrange(5, 13) == x.connections@);
}

/// Two values of MemclkMap with the same bytes are the same value.
#[verifier::spinoff_prover]
pub proof fn lemma_memclk_map_bytes_injective(x: MemclkMap, y: MemclkMap)
    requires
        x.spec_bytes() == y.spec_bytes(),
    ensures
        x == y,
{
    lemma_memclk_map_bytes_pieces(x);
    lemma_memclk_map_bytes_pieces(y);
    lemma_auto_spec_u16_to_from_le_bytes();
    lemma_auto_spec_u32_to_from_le_bytes();
    lemma_auto_spec_u64_to_from_le_bytes();
    assert(x.type_ == y.type_);
    assert(x.payload_size == y.payload_size);
    assert(x.sockets == y.sockets);
    assert(x.channels == y.channels);
    assert(x.dimms == y.dimms);
    assert(x.connections@ == x.spec_bytes().subrange(5, 13));
    assert(x.connections =~= y.connections);
}

impl MemclkMap {
    /// The type tag of this override.
    pub const TAG: u16 = 7;
}

impl Default for MemclkMap {
    fn default() -> (r: Self)
        ensures
            r.spec_type_() == 7,
            r.spec_payload_size() == 11,
            r.spec_sockets() == 0xff,
            r.spec_channels() == 0xff,
            r.spec_dimms() == 0xff,
            r.spec_connections() == [0u8, 0u8, 0u8, 0u8, 0u8, 0u8, 0u8, 0u8],
    {
        MemclkMap { type_: 7, payload_size: 11, sockets: 0xff, channels: 0xff, dimms: 0xff, connections: [0; 8] }
    }
}

impl MemclkMap {
    /// An override for the given selection; the rest as in the default.
    pub fn new(sockets: SocketIds, channels: ChannelIds, connections: [u8; 8]) -> (r: Result<Self>)
        requires
            channels.spec_has_number(),
        ensures
            r matches Ok(e) && {
                &&& e.spec_sockets() == sockets.spec_raw()
                &&& e.spec_channels() == channels.spec_to_u64() as u8
                &&& e.spec_dimms() == 0xff
                &&& e.spec_connections() == connections
                &&& e.spec_type_() == 7
                &&& e.spec_payload_size() == 11
            },
    {
        let mut result = Self::default();
        result.sockets = sockets.into_raw();
        result.channels = channels.to_u64().unwrap() as u8;
        result.connections = connections;
        Ok(result)
    }
}

impl EntryCompatible for MemclkMap {
    fn is_entry_compatible(entry_id: EntryId, prefix: &[u8]) -> (r: bool)
        ensures
            r == (entry_id == EntryId::Memory(MemoryEntryId::PlatformSpecificOverride) && prefix@.len() >= 2
                && prefix@[0] == 7 && prefix@[1] + 2 == 13),
    {
        match entry_id {
            EntryId::Memory(MemoryEntryId::PlatformSpecificOverride) => {
                prefix.len() >= 2 && prefix[0] == 7 && prefix[1] as usize + 2 == 13
            },
            _ => false,
        }
    }

    fn skip_step(entry_id: EntryId, prefix: &[u8]) -> (r: Option<(u16, usize)>)
        ensures
            r == spec_tagged_skip_step(entry_id, prefix@),
    {
        tagged_skip_step(entry_id, prefix)
    }
}

impl ElementAsBytes for MemclkMap {
    fn element_as_bytes(&self) -> (r: Vec<u8>)
        ensures
            r@ == self.spec_to_bytes(),
    {
        self.to_bytes()
    }
}

impl SequenceElementAsBytes for MemclkMap {
    /// The bytes of this override, if its type and size fields are right and the entry is
    /// a platform-specific override entry.
    fn checked_as_bytes(&self, entry_id: EntryId) -> (r: Option<Vec<u8>>)
        ensures
            r is Some <==> (entry_id == EntryId::Memory(MemoryEntryId::PlatformSpecificOverride) && self.spec_type_() == 7
                && self.spec_payload_size() + 2 == 13),
            r matches Some(b) ==> b@ == self.spec_to_bytes(),
    {
        let blob = self.to_bytes();
        proof {
            lemma_memclk_map_bytes_pieces(*self);
        }
        if Self::is_entry_compatible(entry_id, blob.as_slice()) {
            Some(blob)
        } else {
            None
        }
    }
}

/// The maximum number of channels per socket.
#[allow(non_camel_case_types)]
#[derive(Debug, Clone, Copy, PartialEq, Eq, Structural)]
pub struct MaxChannelsPerSocket {
    pub(crate) type_: u8,
    pub(crate) payload_size: u8,
    pub(crate) sockets: u8,
    pub(crate) channels: u8,
    pub(crate) dimms: u8,
    pub(crate) value: u8,
}

impl MaxChannelsPerSocket {
    pub closed spec fn spec_type_(self) -> u8 {
        self.type_
    }

    pub closed spec fn spec_payload_size(self) -> u8 {
        self.payload_size
    }

    pub closed spec fn spec_sockets(self) -> u8 {
        self.sockets
    }

    pub closed spec fn spec_channels(self) -> u8 {
        self.channels
    }

    pub closed spec fn spec_dimms(self) -> u8 {
        self.dimms
    }

    pub closed spec fn spec_value(self) -> u8 {
        self.value
    }

    pub fn type_(&self) -> (r: Result<u8>)
        ensures
            r == Ok::<u8, Error>(self.spec_type_()),
    {
        Ok(self.type_)
    }

    pub fn set_type_(&mut self, value: u8)
        ensures
            final(self).spec_type_() == value,
            final(self).spec_payload_size() == old(self).spec_payload_size(),
            final(self).spec_sockets() == old(self).spec_sockets(),
            final(self).spec_channels() == old(self).spec_channels(),
            final(self).spec_dimms() == old(self).spec_dimms(),
            final(self).spec_value() == old(self).spec_value(),
    {
        self.type_ = value;
    }

    pub fn sockets(&self) -> (r: Result<SocketIds>)
        ensures
            r is Ok <==> (self.spec_sockets() as u64) & !0xffu64 == 0,
            r matches Ok(b) ==> b.spec_raw() == self.spec_sockets(),
    {
        proof {
            if (self.sockets as u64) & !0xffu64 == 0 {
                lemma_masked_bound_u64(self.sockets as u64, 0xffu64);
            }
        }
        match SocketIds::from_u64(self.sockets as u64) {
            Some(b) => Ok(b),
            None => Err(Error::EntryTypeMismatch),
        }
    }

    pub fn set_sockets(&mut self, value: SocketIds)
        ensures
            final(self).spec_sockets() == value.spec_raw() as u8,
            final(self).spec_type_() == old(self).spec_type_(),
            final(self).spec_payload_size() == old(self).spec_payload_size(),
            final(self).spec_channels() == old(self).spec_channels(),
            final(self).spec_dimms() == old(self).spec_dimms(),
            final(self).spec_value() == old(self).spec_value(),
    {
        self.sockets = value.into_raw() as u8;
    }

    pub fn channels(&self) -> (r: Result<ChannelIds>)
        ensures
            r == match ChannelIds::spec_from_u64(self.spec_channels() as u64) {
                Some(e) => Ok::<ChannelIds, Error>(e),
                None => Err(Error::EntryTypeMismatch),
            },
    {
        match ChannelIds::from_u64(self.channels as u64) {
            Some(e) => Ok(e),
            None => Err(Error::EntryTypeMismatch),
        }
    }

    pub fn set_channels(&mut self, value: ChannelIds)
        requires
            value.spec_has_number(),
        ensures
            final(self).spec_channels() == value.spec_to_u64() as u8,
            final(self).spec_type_() == old(self).spec_type_(),
            final(self).spec_payload_size() == old(self).spec_payload_size(),
            final(self).spec_sockets() == old(self).spec_sockets(),
            final(self).spec_dimms() == old(self).spec_dimms(),
            final(self).spec_value() == old(self).spec_value(),
    {
        self.channels = value.to_u64().unwrap() as u8;
    }

    pub fn dimms(&self) -> (r: Result<DimmSlots>)
        ensures
            r == match DimmSlots::spec_from_u64(self.spec_dimms() as u64) {
                Some(e) => Ok::<DimmSlots, Error>(e),
                None => Err(Error::EntryTypeMismatch),
            },
    {
        match DimmSlots::from_u64(self.dimms as u64) {
            Some(e) => Ok(e),
            None => Err(Error::EntryTypeMismatch),
        }
    }

    pub fn set_dimms(&mut self, value: DimmSlots)
        requires
            value.spec_has_number(),
        ensures
            final(self).spec_dimms() == value.spec_to_u64() as u8,
            final(self).spec_type_() == old(self).spec_type_(),
            final(self).spec_payload_size() == old(self).spec_payload_size(),
            final(self).spec_sockets() == old(self).spec_sockets(),
            final(self).spec_channels() == old(self).spec_channels(),
            final(self).spec_value() == old(self).spec_value(),
    {
        self.dimms = value.to_u64().unwrap() as u8;
    }

    pub fn value(&self) -> (r: Result<u8>)
        ensures
            r == Ok::<u8, Error>(self.spec_value()),
    {
        Ok(self.value)
    }

    pub fn set_value(&mut self, value: u8)
        ensures
            final(self).spec_value() == value,
            final(self).spec_type_() == old(self).spec_type_(),
            final(self).spec_payload_size() == old(self).spec_payload_size(),
            final(self).spec_sockets() == old(self).spec_sockets(),
            final(self).spec_channels() == old(self).spec_channels(),
            final(self).spec_dimms() == old(self).spec_dimms(),
    {
        self.value = value;
    }

}

impl MaxChannelsPerSocket {
    /// The bytes that store this value on disk.
    pub closed spec fn spec_bytes(self) -> Seq<u8> {
        seq![self.type_]
            + seq![self.payload_size]
            + seq![self.sockets]
            + seq![self.channels]
            + seq![self.dimms]
            + seq![self.value]
    }
}

impl ByteLayout for MaxChannelsPerSocket {
    open spec fn spec_size() -> nat {
        6
    }

    open spec fn spec_to_bytes(self) -> Seq<u8> {
        self.spec_bytes()
    }

    fn size() -> (r: usize) {
        6
    }

    #[verifier::spinoff_prover]
    fn from_bytes(bytes: &[u8]) -> (r: Self) {
        let type_: u8 = bytes[0];
        let payload_size: u8 = bytes[1];
        let sockets: u8 = bytes[2];
        let channels: u8 = bytes[3];
        let dimms: u8 = bytes[4];
        let value: u8 = bytes[5];
        let r = MaxChannelsPerSocket { type_, payload_size, sockets, channels, dimms, value };
        proof {
            lemma_auto_spec_u16_to_from_le_bytes();
            lemma_auto_spec_u32_to_from_le_bytes();
            lemma_auto_spec_u64_to_from_le_bytes();
            lemma_max_channels_per_socket_bytes_pieces(r);
            assert(bytes@.subrange(0, 2) =~= bytes@.subrange(0, 1) + bytes@.subrange(1, 2));
            assert(bytes@.subrange(0, 3) =~= bytes@.subrange(0, 2) + bytes@.subrange(2, 3));
            assert(bytes@.subrange(0, 4) =~= bytes@.subrange(0, 3) + bytes@.subrange(3, 4));
            assert(bytes@.subrange(0, 5) =~= bytes@.subrange(0, 4) + bytes@.subrange(4, 5));
            assert(bytes@.subrange(0, 6) =~= bytes@.subrange(0, 5) + bytes@.subrange(5, 6));
            assert(bytes@.subrange(0, 6) =~= bytes@);
            assert(bytes@ == r.spec_bytes());
        }
        r
    }

    #[verifier::spinoff_prover]
    fn to_bytes(&self) -> (r: Vec<u8>) {
        let mut out: Vec<u8> = Vec::new();
        out.push(self.type_);
        out.push(self.payload_size);
        out.push(self.sockets);
        out.push(self.channels);
        out.push(self.dimms);
        out.push(self.value);
        proof {
            lemma_max_channels_per_socket_bytes_pieces(*self);
        }
        out
    }
}

/// How the bytes of a MaxChannelsPerSocket split up into its fields.
pub proof fn lemma_max_channels_per_socket_bytes_pieces(x: MaxChannelsPerSocket)
    ensures
        x.spec_bytes().len() == 6,
        x.spec_bytes()[0] == x.spec_type_(),
        x.spec_bytes()[1] == x.spec_payload_size(),
        x.spec_bytes()[2] == x.spec_sockets(),
        x.spec_bytes()[3] == x.spec_channels(),
        x.spec_bytes()[4] == x.spec_dimms(),
        x.spec_bytes()[5] == x.spec_value(),
{
    lemma_auto_spec_u16_to_from_le_bytes();
    lemma_auto_spec_u32_to_from_le_bytes();
    lemma_auto_spec_u64_to_from_le_bytes();
}

/// Two values of MaxChannelsPerSocket with the same bytes are the same value.
#[verifier::spinoff_prover]
pub proof fn lemma_max_channels_per_socket_bytes_injective(x: MaxChannelsPerSocket, y: MaxChannelsPerSocket)
    requires
        x.spec_bytes() == y.spec_bytes(),
    ensures
        x == y,
{
    lemma_max_channels_per_socket_bytes_pieces(x);
    lemma_max_channels_per_socket_bytes_pieces(y);
    lemma_auto_spec_u16_to_from_le_bytes();
    lemma_auto_spec_u32_to_from_le_bytes();
    lemma_auto_spec_u64_to_from_le_bytes();
    assert(x.type_ == y.type_);
    assert(x.payload_size == y.payload_size);
    assert(x.sockets == y.sockets);
    assert(x.channels == y.channels);
    assert(x.dimms == y.dimms);
    assert(x.value == y.value);
}

impl MaxChannelsPerSocket {
    /// The type tag of this override.
    pub const TAG: u16 = 8;
}

impl Default for MaxChannelsPerSocket {
    fn default() -> (r: Self)
        ensures
            r.spec_type_() == 8,
            r.spec_payload_size() == 4,
            r.spec_sockets() == 0xff,
            r.spec_channels() == 0xff,
            r.spec_dimms() == 0xff,
            r.spec_value() == 2,
    {
        MaxChannelsPerSocket { type_: 8, payload_size: 4, sockets: 0xff, channels: 0xff, dimms: 0xff, value: 2 }
    }
}

impl MaxChannelsPerSocket {
    /// An override for the given selection; the rest as in the default.
    pub fn new(sockets: SocketIds, value: u8) -> (r: Result<Self>)
        ensures
            r matches Ok(e) && {
                &&& e.spec_sockets() == sockets.spec_raw()
                &&& e.spec_dimms() == 0xff
                &&& e.spec_value() == value
                &&& e.spec_type_() == 8
                &&& e.spec_payload_size() == 4
            },
    {
        let mut result = Self::default();
        result.sockets = sockets.into_raw();
        result.value = value;
        Ok(result)
    }
}

impl EntryCompatible for MaxChannelsPerSocket {
    fn is_entry_compatible(entry_id: EntryId, prefix: &[u8]) -> (r: bool)
        ensures
            r == (entry_id == EntryId::Memory(MemoryEntryId::PlatformSpecificOverride) && prefix@.len() >= 2
                && prefix@[0] == 8 && prefix@[1] + 2 == 6),
    {
        match entry_id {
            EntryId::Memory(MemoryEntryId::PlatformSpecificOverride) => {
                prefix.len() >= 2 && prefix[0] == 8 && prefix[1] as usize + 2 == 6
            },
            _ => false,
        }
    }

    fn skip_step(entry_id: EntryId, prefix: &[u8]) -> (r: Option<(u16, usize)>)
        ensures
            r == spec_tagged_skip_step(entry_id, prefix@),
    {
        tagged_skip_step(entry_id, prefix)
    }
}

impl ElementAsBytes for MaxChannelsPerSocket {
    fn element_as_bytes(&self) -> (r: Vec<u8>)
        ensures
            r@ == self.spec_to_bytes(),
    {
        self.to_bytes()
    }
}

impl SequenceElementAsBytes for MaxChannelsPerSocket {
    /// The bytes of this override, if its type and size fields are right and the entry is
    /// a platform-specific override entry.
    fn checked_as_bytes(&self, entry_id: EntryId) -> (r: Option<Vec<u8>>)
        ensures
            r is Some <==> (entry_id == EntryId::Memory(MemoryEntryId::PlatformSpecificOverride) && self.spec_type_() == 8
                && self.spec_payload_size() + 2 == 6),
            r matches Some(b) ==> b@ == self.spec_to_bytes(),
    {
        let blob = self.to_bytes();
        proof {
            lemma_max_channels_per_socket_bytes_pieces(*self);
        }
        if Self::is_entry_compatible(entry_id, blob.as_slice()) {
            Some(blob)
        } else {
            None
        }
    }
}

/// How the memory bus speed is chosen.
#[derive(Debug, PartialEq, Eq, Clone, Copy, Structural)]
pub enum TimingMode {
    Auto,
    Limit,
    Specific,
}

impl TimingMode {
    /// The number that stands for this value.
    pub open spec fn spec_to_u64(self) -> u64 {
        match self {
            TimingMode::Auto => 0x0,
            TimingMode::Limit => 0x1,
            TimingMode::Specific => 0x2,
        }
    }

    /// The value that VALUE stands for, if any.
    pub open spec fn spec_from_u64(value: u64) -> Option<TimingMode> {
        match value {
            0x0 => Some(TimingMode::Auto),
            0x1 => Some(TimingMode::Limit),
            0x2 => Some(TimingMode::Specific),
            _ => None,
        }
    }

    pub fn from_u64(value: u64) -> (r: Option<TimingMode>)
        ensures
            r == TimingMode::spec_from_u64(value),
    {
        match value {
            0x0 => Some(TimingMode::Auto),
            0x1 => Some(TimingMode::Limit),
            0x2 => Some(TimingMode::Specific),
            _ => None,
        }
    }

    pub fn to_u64(&self) -> (r: Option<u64>)
        ensures
            r == Some(self.spec_to_u64()),
    {
        Some(
            match self {
                TimingMode::Auto => 0x0,
                TimingMode::Limit => 0x1,
                TimingMode::Specific => 0x2,
            },
        )
    }
}

/// Every value of TimingMode is read back from its own number, and every number that is
/// read as a value is that value's number.
pub proof fn lemma_timing_mode_roundtrip(x: TimingMode, value: u64)
    ensures
        TimingMode::spec_from_u64(x.spec_to_u64()) == Some(x),
        TimingMode::spec_from_u64(value) matches Some(y) ==> y.spec_to_u64() == value,
{
}

/// A memory bus speed in MHz.
#[derive(Debug, PartialEq, Eq, Clone, Copy, Structural)]
pub enum MemBusSpeedType {
    Ddr400,
    Ddr533,
    Ddr667,
    Ddr800,
    Ddr1066,
    Ddr1333,
    Ddr1600,
    Ddr1866,
    Ddr2100,
    Ddr2133,
    Ddr2400,
    Ddr2667,
    Ddr2800,
    Ddr2933,
    Ddr3066,
    Ddr3200,
    Ddr3333,
    Ddr3466,
    Ddr3600,
    Ddr3733,
    Ddr3866,
    Ddr4000,
    Ddr4200,
    Ddr4267,
    Ddr4333,
    Ddr4400,
}

impl MemBusSpeedType {
    /// The number that stands for this value.
    pub open spec fn spec_to_u64(self) -> u64 {
        match self {
            MemBusSpeedType::Ddr400 => 0xc8,
            MemBusSpeedType::Ddr533 => 0x10a,
            MemBusSpeedType::Ddr667 => 0x14d,
            MemBusSpeedType::Ddr800 => 0x190,
            MemBusSpeedType::Ddr1066 => 0x215,
            MemBusSpeedType::Ddr1333 => 0x29b,
            MemBusSpeedType::Ddr1600 => 0x320,
            MemBusSpeedType::Ddr1866 => 0x3a5,
            MemBusSpeedType::Ddr2100 => 0x41a,
            MemBusSpeedType::Ddr2133 => 0x42b,
            MemBusSpeedType::Ddr2400 => 0x4b0,
            MemBusSpeedType::Ddr2667 => 0x535,
            MemBusSpeedType::Ddr2800 => 0x578,
            MemBusSpeedType::Ddr2933 => 0x5bb,
            MemBusSpeedType::Ddr3066 => 0x5fd,
            MemBusSpeedType::Ddr3200 => 0x640,
            MemBusSpeedType::Ddr3333 => 0x683,
            MemBusSpeedType::Ddr3466 => 0x6c5,
            MemBusSpeedType::Ddr3600 => 0x708,
            MemBusSpeedType::Ddr3733 => 0x74b,
            MemBusSpeedType::Ddr3866 => 0x78d,
            MemBusSpeedType::Ddr4000 => 0x7d0,
            MemBusSpeedType::Ddr4200 => 0x834,
            MemBusSpeedType::Ddr4267 => 0x855,
            MemBusSpeedType::Ddr4333 => 0x877,
            MemBusSpeedType::Ddr4400 => 0x898,
        }
    }

    /// The value that VALUE stands for, if any.
    pub open spec fn spec_from_u64(value: u64) -> Option<MemBusSpeedType> {
        match value {
            0xc8 => Some(MemBusSpeedType::Ddr400),
            0x10a => Some(MemBusSpeedType::Ddr533),
            0x14d => Some(MemBusSpeedType::Ddr667),
            0x190 => Some(MemBusSpeedType::Ddr800),
            0x215 => Some(MemBusSpeedType::Ddr1066),
            0x29b => Some(MemBusSpeedType::Ddr1333),
            0x320 => Some(MemBusSpeedType::Ddr1600),
            0x3a5 => Some(MemBusSpeedType::Ddr1866),
            0x41a => Some(MemBusSpeedType::Ddr2100),
            0x42b => Some(MemBusSpeedType::Ddr2133),
            0x4b0 => Some(MemBusSpeedType::Ddr2400),
            0x535 => Some(MemBusSpeedType::Ddr2667),
            0x578 => Some(MemBusSpeedType::Ddr2800),
            0x5bb => Some(MemBusSpeedType::Ddr2933),
            0x5fd => Some(MemBusSpeedType::Ddr3066),
            0x640 => Some(MemBusSpeedType::Ddr3200),
            0x683 => Some(MemBusSpeedType::Ddr3333),
            0x6c5 => Some(MemBusSpeedType::Ddr3466),
            0x708 => Some(MemBusSpeedType::Ddr3600),
            0x74b => Some(MemBusSpeedType::Ddr3733),
            0x78d => Some(MemBusSpeedType::Ddr3866),
            0x7d0 => Some(MemBusSpeedType::Ddr4000),
            0x834 => Some(MemBusSpeedType::Ddr4200),
            0x855 => Some(MemBusSpeedType::Ddr4267),
            0x877 => Some(MemBusSpeedType::Ddr4333),
            0x898 => Some(MemBusSpeedType::Ddr4400),
            _ => None,
        }
    }

    pub fn from_u64(value: u64) -> (r: Option<MemBusSpeedType>)
        ensures
            r == MemBusSpeedType::spec_from_u64(value),
    {
        match value {
            0xc8 => Some(MemBusSpeedType::Ddr400),
            0x10a => Some(MemBusSpeedType::Ddr533),
            0x14d => Some(MemBusSpeedType::Ddr667),
            0x190 => Some(MemBusSpeedType::Ddr800),
            0x215 => Some(MemBusSpeedType::Ddr1066),
            0x29b => Some(MemBusSpeedType::Ddr1333),
            0x320 => Some(MemBusSpeedType::Ddr1600),
            0x3a5 => Some(MemBusSpeedType::Ddr1866),
            0x41a => Some(MemBusSpeedType::Ddr2100),
            0x42b => Some(MemBusSpeedType::Ddr2133),
            0x4b0 => Some(MemBusSpeedType::Ddr2400),
            0x535 => Some(MemBusSpeedType::Ddr2667),
            0x578 => Some(MemBusSpeedType::Ddr2800),
            0x5bb => Some(MemBusSpeedType::Ddr2933),
            0x5fd => Some(MemBusSpeedType::Ddr3066),
            0x640 => Some(MemBusSpeedType::Ddr3200),
            0x683 => Some(MemBusSpeedType::Ddr3333),
            0x6c5 => Some(MemBusSpeedType::Ddr3466),
            0x708 => Some(MemBusSpeedType::Ddr3600),
            0x74b => Some(MemBusSpeedType::Ddr3733),
            0x78d => Some(MemBusSpeedType::Ddr3866),
            0x7d0 => Some(MemBusSpeedType::Ddr4000),
            0x834 => Some(MemBusSpeedType::Ddr4200),
            0x855 => Some(MemBusSpeedType::Ddr4267),
            0x877 => Some(MemBusSpeedType::Ddr4333),
            0x898 => Some(MemBusSpeedType::Ddr4400),
            _ => None,
        }
    }

    pub fn to_u64(&self) -> (r: Option<u64>)
        ensures
            r == Some(self.spec_to_u64()),
    {
        Some(
            match self {
                MemBusSpeedType::Ddr400 => 0xc8,
                MemBusSpeedType::Ddr533 => 0x10a,
                MemBusSpeedType::Ddr667 => 0x14d,
                MemBusSpeedType::Ddr800 => 0x190,
                MemBusSpeedType::Ddr1066 => 0x215,
                MemBusSpeedType::Ddr1333 => 0x29b,
                MemBusSpeedType::Ddr1600 => 0x320,
                MemBusSpeedType::Ddr1866 => 0x3a5,
                MemBusSpeedType::Ddr2100 => 0x41a,
                MemBusSpeedType::Ddr2133 => 0x42b,
                MemBusSpeedType::Ddr2400 => 0x4b0,
                MemBusSpeedType::Ddr2667 => 0x535,
                MemBusSpeedType::Ddr2800 => 0x578,
                MemBusSpeedType::Ddr2933 => 0x5bb,
                MemBusSpeedType::Ddr3066 => 0x5fd,
                MemBusSpeedType::Ddr3200 => 0x640,
                MemBusSpeedType::Ddr3333 => 0x683,
                MemBusSpeedType::Ddr3466 => 0x6c5,
                MemBusSpeedType::Ddr3600 => 0x708,
                MemBusSpeedType::Ddr3733 => 0x74b,
                MemBusSpeedType::Ddr3866 => 0x78d,
                MemBusSpeedType::Ddr4000 => 0x7d0,
                MemBusSpeedType::Ddr4200 => 0x834,
                MemBusSpeedType::Ddr4267 => 0x855,
                MemBusSpeedType::Ddr4333 => 0x877,
                MemBusSpeedType::Ddr4400 => 0x898,
            },
        )
    }
}

/// Every value of MemBusSpeedType is read back from its own number, and every number that is
/// read as a value is that value's number.
pub proof fn lemma_mem_bus_speed_type_roundtrip(x: MemBusSpeedType, value: u64)
    ensures
        MemBusSpeedType::spec_from_u64(x.spec_to_u64()) == Some(x),
        MemBusSpeedType::spec_from_u64(value) matches Some(y) ==> y.spec_to_u64() == value,
{
}

impl MemBusSpeedType {
    /// What the name of this value says: the data rate, in MT/s.
    pub open spec fn spec_data_rate(self) -> int {
        match self {
            MemBusSpeedType::Ddr400 => 400,
            MemBusSpeedType::Ddr533 => 533,
            MemBusSpeedType::Ddr667 => 667,
            MemBusSpeedType::Ddr800 => 800,
            MemBusSpeedType::Ddr1066 => 1066,
            MemBusSpeedType::Ddr1333 => 1333,
            MemBusSpeedType::Ddr1600 => 1600,
            MemBusSpeedType::Ddr1866 => 1866,
            MemBusSpeedType::Ddr2100 => 2100,
            MemBusSpeedType::Ddr2133 => 2133,
            MemBusSpeedType::Ddr2400 => 2400,
            MemBusSpeedType::Ddr2667 => 2667,
            MemBusSpeedType::Ddr2800 => 2800,
            MemBusSpeedType::Ddr2933 => 2933,
            MemBusSpeedType::Ddr3066 => 3066,
            MemBusSpeedType::Ddr3200 => 3200,
            MemBusSpeedType::Ddr3333 => 3333,
            MemBusSpeedType::Ddr3466 => 3466,
            MemBusSpeedType::Ddr3600 => 3600,
            MemBusSpeedType::Ddr3733 => 3733,
            MemBusSpeedType::Ddr3866 => 3866,
            MemBusSpeedType::Ddr4000 => 4000,
            MemBusSpeedType::Ddr4200 => 4200,
            MemBusSpeedType::Ddr4267 => 4267,
            MemBusSpeedType::Ddr4333 => 4333,
            MemBusSpeedType::Ddr4400 => 4400,
        }
    }
}

/// The number of each speed is its memory clock in MHz: half its data rate, rounded either
/// way by at most a half.
pub proof fn lemma_mem_bus_speed_type_numbers_follow_names(x: MemBusSpeedType)
    ensures
        x.spec_data_rate() - 1 <= 2 * x.spec_to_u64() <= x.spec_data_rate() + 1,
{
}

/// The memory bus speed.
#[allow(non_camel_case_types)]
#[derive(Debug, Clone, Copy, PartialEq, Eq, Structural)]
pub struct MemBusSpeed {
    pub(crate) type_: u8,
    pub(crate) payload_size: u8,
    pub(crate) sockets: u8,
    pub(crate) channels: u8,
    pub(crate) dimms: u8,
    pub(crate) timing_mode: u32,
    pub(crate) bus_speed: u32,
}

impl MemBusSpeed {
    pub closed spec fn spec_type_(self) -> u8 {
        self.type_
    }

    pub closed spec fn spec_payload_size(self) -> u8 {
        self.payload_size
    }

    pub closed spec fn spec_sockets(self) -> u8 {
        self.sockets
    }

    pub closed spec fn spec_channels(self) -> u8 {
        self.channels
    }

    pub closed spec fn spec_dimms(self) -> u8 {
        self.dimms
    }

    pub closed spec fn spec_timing_mode(self) -> u32 {
        self.timing_mode
    }

    pub closed spec fn spec_bus_speed(self) -> u32 {
        self.bus_speed
    }

    pub fn type_(&self) -> (r: Result<u8>)
        ensures
            r == Ok::<u8, Error>(self.spec_type_()),
    {
        Ok(self.type_)
    }

    pub fn set_type_(&mut self, value: u8)
        ensures
            final(self).spec_type_() == value,
            final(self).spec_payload_size() == old(self).spec_payload_size(),
            final(self).spec_sockets() == old(self).spec_sockets(),
            final(self).spec_channels() == old(self).spec_channels(),
            final(self).spec_dimms() == old(self).spec_dimms(),
            final(self).spec_timing_mode() == old(self).spec_timing_mode(),
            final(self).spec_bus_speed() == old(self).spec_bus_speed(),
    {
        self.type_ = value;
    }

    pub fn sockets(&self) -> (r: Result<SocketIds>)
        ensures
            r is Ok <==> (self.spec_sockets() as u64) & !0xffu64 == 0,
            r matches Ok(b) ==> b.spec_raw() == self.spec_sockets(),
    {
        proof {
            if (self.sockets as u64) & !0xffu64 == 0 {
                lemma_masked_bound_u64(self.sockets as u64, 0xffu64);
            }
        }
        match SocketIds::from_u64(self.sockets as u64) {
            Some(b) => Ok(b),
            None => Err(Error::EntryTypeMismatch),
        }
    }

    pub fn set_sockets(&mut self, value: SocketIds)
        ensures
            final(self).spec_sockets() == value.spec_raw() as u8,
            final(self).spec_type_() == old(self).spec_type_(),
            final(self).spec_payload_size() == old(self).spec_payload_size(),
            final(self).spec_channels() == old(self).spec_channels(),
            final(self).spec_dimms() == old(self).spec_dimms(),
            final(self).spec_timing_mode() == old(self).spec_timing_mode(),
            final(self).spec_bus_speed() == old(self).spec_bus_speed(),
    {
        self.sockets = value.into_raw() as u8;
    }

    pub fn channels(&self) -> (r: Result<ChannelIds>)
        ensures
            r == match ChannelIds::spec_from_u64(self.spec_channels() as u64) {
                Some(e) => Ok::<ChannelIds, Error>(e),
                None => Err(Error::EntryTypeMismatch),
            },
    {
        match ChannelIds::from_u64(self.channels as u64) {
            Some(e) => Ok(e),
            None => Err(Error::EntryTypeMismatch),
        }
    }

    pub fn set_channels(&mut self, value: ChannelIds)
        requires
            value.spec_has_number(),
        ensures
            final(self).spec_channels() == value.spec_to_u64() as u8,
            final(self).spec_type_() == old(self).spec_type_(),
            final(self).spec_payload_size() == old(self).spec_payload_size(),
            final(self).spec_sockets() == old(self).spec_sockets(),
            final(self).spec_dimms() == old(self).spec_dimms(),
            final(self).spec_timing_mode() == old(self).spec_timing_mode(),
            final(self).spec_bus_speed() == old(self).spec_bus_speed(),
    {
        self.channels = value.to_u64().unwrap() as u8;
    }

    pub fn dimms(&self) -> (r: Result<DimmSlots>)
        ensures
            r == match DimmSlots::spec_from_u64(self.spec_dimms() as u64) {
                Some(e) => Ok::<DimmSlots, Error>(e),
                None => Err(Error::EntryTypeMismatch),
            },
    {
        match DimmSlots::from_u64(self.dimms as u64) {
            Some(e) => Ok(e),
            None => Err(Error::EntryTypeMismatch),
        }
    }

    pub fn set_dimms(&mut self, value: DimmSlots)
        requires
            value.spec_has_number(),
        ensures
            final(self).spec_dimms() == value.spec_to_u64() as u8,
            final(self).spec_type_() == old(self).spec_type_(),
            final(self).spec_payload_size() == old(self).spec_payload_size(),
            final(self).spec_sockets() == old(self).spec_sockets(),
            final(self).spec_channels() == old(self).spec_channels(),
            final(self).spec_timing_mode() == old(self).spec_timing_mode(),
            final(self).spec_bus_speed() == old(self).spec_bus_speed(),
    {
        self.dimms = value.to_u64().unwrap() as u8;
    }

    pub fn timing_mode(&self) -> (r: Result<TimingMode>)
        ensures
            r == match TimingMode::spec_from_u64(self.spec_timing_mode() as u64) {
                Some(e) => Ok::<TimingMode, Error>(e),
                None => Err(Error::EntryTypeMismatch),
            },
    {
        match TimingMode::from_u64(self.timing_mode as u64) {
            Some(e) => Ok(e),
            None => Err(Error::EntryTypeMismatch),
        }
    }

    pub fn set_timing_mode(&mut self, value: TimingMode)
        ensures
            final(self).spec_timing_mode() == value.spec_to_u64() as u32,
            final(self).spec_type_() == old(self).spec_type_(),
            final(self).spec_payload_size() == old(self).spec_payload_size(),
            final(self).spec_sockets() == old(self).spec_sockets(),
            final(self).spec_channels() == old(self).spec_channels(),
            final(self).spec_dimms() == old(self).spec_dimms(),
            final(self).spec_bus_speed() == old(self).spec_bus_speed(),
    {
        self.timing_mode = value.to_u64().unwrap() as u32;
    }

    pub fn bus_speed(&self) -> (r: Result<MemBusSpeedType>)
        ensures
            r == match MemBusSpeedType::spec_from_u64(self.spec_bus_speed() as u64) {
                Some(e) => Ok::<MemBusSpeedType, Error>(e),
                None => Err(Error::EntryTypeMismatch),
            },
    {
        match MemBusSpeedType::from_u64(self.bus_speed as u64) {
            Some(e) => Ok(e),
            None => Err(Error::EntryTypeMismatch),
        }
    }

    pub fn set_bus_speed(&mut self, value: MemBusSpeedType)
        ensures
            final(self).spec_bus_speed() == value.spec_to_u64() as u32,
            final(self).spec_type_() == old(self).spec_type_(),
            final(self).spec_payload_size() == old(self).spec_payload_size(),
            final(self).spec_sockets() == old(self).spec_sockets(),
            final(self).spec_channels() == old(self).spec_channels(),
            final(self).spec_dimms() == old(self).spec_dimms(),
            final(self).spec_timing_mode() == old(self).spec_timing_mode(),
    {
        self.bus_speed = value.to_u64().unwrap() as u32;
    }

}

impl MemBusSpeed {
    /// The bytes that store this value on disk.
    pub closed spec fn spec_bytes(self) -> Seq<u8> {
        seq![self.type_]
            + seq![self.payload_size]
            + seq![self.sockets]
            + seq![self.channels]
            + seq![self.dimms]
            + spec_u32_to_le_bytes(self.timing_mode)
            + spec_u32_to_le_bytes(self.bus_speed)
    }
}

impl ByteLayout for MemBusSpeed {
    open spec fn spec_size() -> nat {
        13
    }

    open spec fn spec_to_bytes(self) -> Seq<u8> {
        self.spec_bytes()
    }

    fn size() -> (r: usize) {
        13
    }

    #[verifier::spinoff_prover]
    fn from_bytes(bytes: &[u8]) -> (r: Self) {
        let type_: u8 = bytes[0];
        let payload_size: u8 = bytes[1];
        let sockets: u8 = bytes[2];
        let channels: u8 = bytes[3];
        let dimms: u8 = bytes[4];
        let timing_mode: u32 = u32_from_le_bytes(slice_subrange(bytes, 5, 9));
        let bus_speed: u32 = u32_from_le_bytes(slice_subrange(bytes, 9, 13));
        let r = MemBusSpeed { type_, payload_size, sockets, channels, dimms, timing_mode, bus_speed };
        proof {
            lemma_auto_spec_u16_to_from_le_bytes();
            lemma_auto_spec_u32_to_from_le_bytes();
            lemma_auto_spec_u64_to_from_le_bytes();
            lemma_mem_bus_speed_bytes_pieces(r);
            assert(bytes@.subrange(5, 9) == spec_u32_to_le_bytes(timing_mode));
            assert(bytes@.subrange(9, 13) == spec_u32_to_le_bytes(bus_speed));
            assert(bytes@.subrange(0, 2) =~= bytes@.subrange(0, 1) + bytes@.subrange(1, 2));
            assert(bytes@.subrange(0, 3) =~= bytes@.subrange(0, 2) + bytes@.subrange(2, 3));
            assert(bytes@.subrange(0, 4) =~= bytes@.subrange(0, 3) + bytes@.subrange(3, 4));
            assert(bytes@.subrange(0, 5) =~= bytes@.subrange(0, 4) + bytes@.subrange(4, 5));
            assert(bytes@.subrange(0, 9) =~= bytes@.subrange(0, 5) + bytes@.subrange(5, 9));
            assert(bytes@.subrange(0, 13) =~= bytes@.subrange(0, 9) + bytes@.subrange(9, 13));
            assert(bytes@.subrange(0, 13) =~= bytes@);
            assert(bytes@ == r.spec_bytes());
        }
        r
    }

    #[verifier::spinoff_prover]
    fn to_bytes(&self) -> (r: Vec<u8>) {
        let mut out: Vec<u8> = Vec::new();
        out.push(self.type_);
        out.push(self.payload_size);
        out.push(self.sockets);
        out.push(self.channels);
        out.push(self.dimms);
        append_bytes(&mut out, &le_bytes_u32(self.timing_mode));
        append_bytes(&mut out, &le_bytes_u32(self.bus_speed));
        proof {
            lemma_mem_bus_speed_bytes_pieces(*self);
        }
        out
    }
}

/// How the bytes of a MemBusSpeed split up into its fields.
pub proof fn lemma_mem_bus_speed_bytes_pieces(x: MemBusSpeed)
    ensures
        x.spec_bytes().len() == 13,
        x.spec_bytes()[0] == x.spec_type_(),
        x.spec_bytes()[1] == x.spec_payload_size(),
        x.spec_bytes()[2] == x.spec_sockets(),
        x.spec_bytes()[3] == x.spec_channels(),
        x.spec_bytes()[4] == x.spec_dimms(),
        x.spec_bytes().subrange(5, 9) == spec_u32_to_le_bytes(x.spec_timing_mode()),
        x.spec_bytes().subrange(9, 13) == spec_u32_to_le_bytes(x.spec_bus_speed()),
{
    lemma_auto_spec_u16_to_from_le_bytes();
    lemma_auto_spec_u32_to_from_le_bytes();
    lemma_auto_spec_u64_to_from_le_bytes();
    assert(x.spec_bytes().subrange(5, 9) == spec_u32_to_le_bytes(x.timing_mode));
    assert(x.spec_bytes().subrange(9, 13) == spec_u32_to_le_bytes(x.bus_speed));
}

/// Two values of MemBusSpeed with the same bytes are the same value.
#[verifier::spinoff_prover]
pub proof fn lemma_mem_bus_speed_bytes_injective(x: MemBusSpeed, y: MemBusSpeed)
    requires
        x.spec_bytes() == y.spec_bytes(),
    ensures
        x == y,
{
    lemma_mem_bus_speed_bytes_pieces(x);
    lemma_mem_bus_speed_bytes_pieces(y);
    lemma_auto_spec_u16_to_from_le_bytes();
    lemma_auto_spec_u32_to_from_le_bytes();
    lemma_auto_spec_u64_to_from_le_bytes();
    assert(x.type_ == y.type_);
    assert(x.payload_size == y.payload_size);
    assert(x.sockets == y.sockets);
    assert(x.channels == y.channels);
    assert(x.dimms == y.dimms);
    assert(spec_u32_from_le_bytes(spec_u32_to_le_bytes(x.timing_mode)) == spec_u32_from_le_bytes(spec_u32_to_le_bytes(y.timing_mode)));
    assert(spec_u32_from_le_bytes(spec_u32_to_le_bytes(x.bus_speed)) == spec_u32_from_le_bytes(spec_u32_to_le_bytes(y.bus_speed)));
}

impl MemBusSpeed {
    /// The type tag of this override.
    pub const TAG: u16 = 9;
}

impl Default for MemBusSpeed {
    fn default() -> (r: Self)
        ensures
            r.spec_type_() == 9,
            r.spec_payload_size() == 11,
            r.spec_sockets() == 0xff,
            r.spec_channels() == 0xff,
            r.spec_dimms() == 0xff,
            r.spec_timing_mode() == 0,
            r.spec_bus_speed() == 800,
    {
        MemBusSpeed { type_: 9, payload_size: 11, sockets: 0xff, channels: 0xff, dimms: 0xff, timing_mode: 0, bus_speed: 800 }
    }
}

impl MemBusSpeed {
    /// An override for the given selection; the rest as in the default.
    pub fn new(sockets: SocketIds, channels: ChannelIds, timing_mode: TimingMode, bus_speed: MemBusSpeedType) -> (e: Self)
        requires
            channels.spec_has_number(),
        ensures
            e.spec_sockets() == sockets.spec_raw(),
            e.spec_channels() == channels.spec_to_u64() as u8,
            e.spec_dimms() == 0xff,
            e.spec_timing_mode() == timing_mode.spec_to_u64() as u32,
            e.spec_bus_speed() == bus_speed.spec_to_u64() as u32,
            e.spec_type_() == 9,
            e.spec_payload_size() == 11,
    {
        let mut result = Self::default();
        result.sockets = sockets.into_raw();
        result.channels = channels.to_u64().unwrap() as u8;
        result.timing_mode = timing_mode.to_u64().unwrap() as u32;
        result.bus_speed = bus_speed.to_u64().unwrap() as u32;
        result
    }
}

impl EntryCompatible for MemBusSpeed {
    fn is_entry_compatible(entry_id: EntryId, prefix: &[u8]) -> (r: bool)
        ensures
            r == (entry_id == EntryId::Memory(MemoryEntryId::PlatformSpecificOverride) && prefix@.len() >= 2
                && prefix@[0] == 9 && prefix@[1] + 2 == 13),
    {
        match entry_id {
            EntryId::Memory(MemoryEntryId::PlatformSpecificOverride) => {
                prefix.len() >= 2 && prefix[0] == 9 && prefix[1] as usize + 2 == 13
            },
            _ => false,
        }
    }

    fn skip_step(entry_id: EntryId, prefix: &[u8]) -> (r: Option<(u16, usize)>)
        ensures
            r == spec_tagged_skip_step(entry_id, prefix@),
    {
        tagged_skip_step(entry_id, prefix)
    }
}

impl ElementAsBytes for MemBusSpeed {
    fn element_as_bytes(&self) -> (r: Vec<u8>)
        ensures
            r@ == self.spec_to_bytes(),
    {
        self.to_bytes()
    }
}

impl SequenceElementAsBytes for MemBusSpeed {
    /// The bytes of this override, if its type and size fields are right and the entry is
    /// a platform-specific override entry.
    fn checked_as_bytes(&self, entry_id: EntryId) -> (r: Option<Vec<u8>>)
        ensures
            r is Some <==> (entry_id == EntryId::Memory(MemoryEntryId::PlatformSpecificOverride) && self.spec_type_() == 9
                && self.spec_payload_size() + 2 == 13),
            r matches Some(b) ==> b@ == self.spec_to_bytes(),
    {
        let blob = self.to_bytes();
        proof {
            lemma_mem_bus_speed_bytes_pieces(*self);
        }
        if Self::is_entry_compatible(entry_id, blob.as_slice()) {
            Some(blob)
        } else {
            None
        }
    }
}

/// The maximum number of chip selects per channel.
#[allow(non_camel_case_types)]
#[derive(Debug, Clone, Copy, PartialEq, Eq, Structural)]
pub struct MaxCsPerChannel {
    pub(crate) type_: u8,
    pub(crate) payload_size: u8,
    pub(crate) sockets: u8,
    pub(crate) channels: u8,
    pub(crate) dimms: u8,
    pub(crate) value: u8,
}

impl MaxCsPerChannel {
    pub closed spec fn spec_type_(self) -> u8 {
        self.type_
    }

    pub closed spec fn spec_payload_size(self) -> u8 {
        self.payload_size
    }

    pub closed spec fn spec_sockets(self) -> u8 {
        self.sockets
    }

    pub closed spec fn spec_channels(self) -> u8 {
        self.channels
    }

    pub closed spec fn spec_dimms(self) -> u8 {
        self.dimms
    }

    pub closed spec fn spec_value(self) -> u8 {
        self.value
    }

    pub fn type_(&self) -> (r: Result<u8>)
        ensures
            r == Ok::<u8, Error>(self.spec_type_()),
    {
        Ok(self.type_)
    }

    pub fn set_type_(&mut self, value: u8)
        ensures
            final(self).spec_type_() == value,
            final(self).spec_payload_size() == old(self).spec_payload_size(),
            final(self).spec_sockets() == old(self).spec_sockets(),
            final(self).spec_channels() == old(self).spec_channels(),
            final(self).spec_dimms() == old(self).spec_dimms(),
            final(self).spec_value() == old(self).spec_value(),
    {
        self.type_ = value;
    }

    pub fn sockets(&self) -> (r: Result<SocketIds>)
        ensures
            r is Ok <==> (self.spec_sockets() as u64) & !0xffu64 == 0,
            r matches Ok(b) ==> b.spec_raw() == self.spec_sockets(),
    {
        proof {
            if (self.sockets as u64) & !0xffu64 == 0 {
                lemma_masked_bound_u64(self.sockets as u64, 0xffu64);
            }
        }
        match SocketIds::from_u64(self.sockets as u64) {
            Some(b) => Ok(b),
            None => Err(Error::EntryTypeMismatch),
        }
    }

    pub fn set_sockets(&mut self, value: SocketIds)
        ensures
            final(self).spec_sockets() == value.spec_raw() as u8,
            final(self).spec_type_() == old(self).spec_type_(),
            final(self).spec_payload_size() == old(self).spec_payload_size(),
            final(self).spec_channels() == old(self).spec_channels(),
            final(self).spec_dimms() == old(self).spec_dimms(),
            final(self).spec_value() == old(self).spec_value(),
    {
        self.sockets = value.into_raw() as u8;
    }

    pub fn channels(&self) -> (r: Result<ChannelIds>)
        ensures
            r == match ChannelIds::spec_from_u64(self.spec_channels() as u64) {
                Some(e) => Ok::<ChannelIds, Error>(e),
                None => Err(Error::EntryTypeMismatch),
            },
    {
        match ChannelIds::from_u64(self.channels as u64) {
            Some(e) => Ok(e),
            None => Err(Error::EntryTypeMismatch),
        }
    }

    pub fn set_channels(&mut self, value: ChannelIds)
        requires
            value.spec_has_number(),
        ensures
            final(self).spec_channels() == value.spec_to_u64() as u8,
            final(self).spec_type_() == old(self).spec_type_(),
            final(self).spec_payload_size() == old(self).spec_payload_size(),
            final(self).spec_sockets() == old(self).spec_sockets(),
            final(self).spec_dimms() == old(self).spec_dimms(),
            final(self).spec_value() == old(self).spec_value(),
    {
        self.channels = value.to_u64().unwrap() as u8;
    }

    pub fn dimms(&self) -> (r: Result<DimmSlots>)
        ensures
            r == match DimmSlots::spec_from_u64(self.spec_dimms() as u64) {
                Some(e) => Ok::<DimmSlots, Error>(e),
                None => Err(Error::EntryTypeMismatch),
            },
    {
        match DimmSlots::from_u64(self.dimms as u64) {
            Some(e) => Ok(e),
            None => Err(Error::EntryTypeMismatch),
        }
    }

    pub fn set_dimms(&mut self, value: DimmSlots)
        requires
            value.spec_has_number(),
        ensures
            final(self).spec_dimms() == value.spec_to_u64() as u8,
            final(self).spec_type_() == old(self).spec_type_(),
            final(self).spec_payload_size() == old(self).spec_payload_size(),
            final(self).spec_sockets() == old(self).spec_sockets(),
            final(self).spec_channels() == old(self).spec_channels(),
            final(self).spec_value() == old(self).spec_value(),
    {
        self.dimms = value.to_u64().unwrap() as u8;
    }

    pub fn value(&self) -> (r: Result<u8>)
        ensures
            r == Ok::<u8, Error>(self.spec_value()),
    {
        Ok(self.value)
    }

    pub fn set_value(&mut self, value: u8)
        ensures
            final(self).spec_value() == value,
            final(self).spec_type_() == old(self).spec_type_(),
            final(self).spec_payload_size() == old(self).spec_payload_size(),
            final(self).spec_sockets() == old(self).spec_sockets(),
            final(self).spec_channels() == old(self).spec_channels(),
            final(self).spec_dimms() == old(self).spec_dimms(),
    {
        self.value = value;
    }

}

impl MaxCsPerChannel {
    /// The bytes that store this value on disk.
    pub closed spec fn spec_bytes(self) -> Seq<u8> {
        seq![self.type_]
            + seq![self.payload_size]
            + seq![self.sockets]
            + seq![self.channels]
            + seq![self.dimms]
            + seq![self.value]
    }
}

impl ByteLayout for MaxCsPerChannel {
    open spec fn spec_size() -> nat {
        6
    }

    open spec fn spec_to_bytes(self) -> Seq<u8> {
        self.spec_bytes()
    }

    fn size() -> (r: usize) {
        6
    }

    #[verifier::spinoff_prover]
    fn from_bytes(bytes: &[u8]) -> (r: Self) {
        let type_: u8 = bytes[0];
        let payload_size: u8 = bytes[1];
        let sockets: u8 = bytes[2];
        let channels: u8 = bytes[3];
        let dimms: u8 = bytes[4];
        let value: u8 = bytes[5];
        let r = MaxCsPerChannel { type_, payload_size, sockets, channels, dimms, value };
        proof {
            lemma_auto_spec_u16_to_from_le_bytes();
            lemma_auto_spec_u32_to_from_le_bytes();
            lemma_auto_spec_u64_to_from_le_bytes();
            lemma_max_cs_per_channel_bytes_pieces(r);
            assert(bytes@.subrange(0, 2) =~= bytes@.subrange(0, 1) + bytes@.subrange(1, 2));
            assert(bytes@.subrange(0, 3) =~= bytes@.subrange(0, 2) + bytes@.subrange(2, 3));
            assert(bytes@.subrange(0, 4) =~= bytes@.subrange(0, 3) + bytes@.subrange(3, 4));
            assert(bytes@.subrange(0, 5) =~= bytes@.subrange(0, 4) + bytes@.subrange(4, 5));
            assert(bytes@.subrange(0, 6) =~= bytes@.subrange(0, 5) + bytes@.subrange(5, 6));
            assert(bytes@.subrange(0, 6) =~= bytes@);
            assert(bytes@ == r.spec_bytes());
        }
        r
    }

    #[verifier::spinoff_prover]
    fn to_bytes(&self) -> (r: Vec<u8>) {
        let mut out: Vec<u8> = Vec::new();
        out.push(self.type_);
        out.push(self.payload_size);
        out.push(self.sockets);
        out.push(self.channels);
        out.push(self.dimms);
        out.push(self.value);
        proof {
            lemma_max_cs_per_channel_bytes_pieces(*self);
        }
        out
    }
}

/// How the bytes of a MaxCsPerChannel split up into its fields.
pub proof fn lemma_max_cs_per_channel_bytes_pieces(x: MaxCsPerChannel)
    ensures
        x.spec_bytes().len() == 6,
        x.spec_bytes()[0] == x.spec_type_(),
        x.spec_bytes()[1] == x.spec_payload_size(),
        x.spec_bytes()[2] == x.spec_sockets(),
        x.spec_bytes()[3] == x.spec_channels(),
        x.spec_bytes()[4] == x.spec_dimms(),
        x.spec_bytes()[5] == x.spec_value(),
{
    lemma_auto_spec_u16_to_from_le_bytes();
    lemma_auto_spec_u32_to_from_le_bytes();
    lemma_auto_spec_u64_to_from_le_bytes();
}

/// Two values of MaxCsPerChannel with the same bytes are the same value.
#[verifier::spinoff_prover]
pub proof fn lemma_max_cs_per_channel_bytes_injective(x: MaxCsPerChannel, y: MaxCsPerChannel)
    requires
        x.spec_bytes() == y.spec_bytes(),
    ensures
        x == y,
{
    lemma_max_cs_per_channel_bytes_pieces(x);
    lemma_max_cs_per_channel_bytes_pieces(y);
    lemma_auto_spec_u16_to_from_le_bytes();
    lemma_auto_spec_u32_to_from_le_bytes();
    lemma_auto_spec_u64_to_from_le_bytes();
    assert(x.type_ == y.type_);
    assert(x.payload_size == y.payload_size);
    assert(x.sockets == y.sockets);
    assert(x.channels == y.channels);
    assert(x.dimms == y.dimms);
    assert(x.value == y.value);
}

impl MaxCsPerChannel {
    /// The type tag of this override.
    pub const TAG: u16 = 10;
}

impl Default for MaxCsPerChannel {
    fn default() -> (r: Self)
        ensures
            r.spec_type_() == 10,
            r.spec_payload_size() == 4,
            r.spec_sockets() == 0xff,
            r.spec_channels() == 0xff,
            r.spec_dimms() == 0xff,
            r.spec_value() == 0,
    {
        MaxCsPerChannel { type_: 10, payload_size: 4, sockets: 0xff, channels: 0xff, dimms: 0xff, value: 0 }
    }
}

impl MaxCsPerChannel {
    /// An override for the given selection; the rest as in the default.
    pub fn new(sockets: SocketIds, channels: ChannelIds, value: u8) -> (r: Result<Self>)
        requires
            channels.spec_has_number(),
        ensures
            r matches Ok(e) && {
                &&& e.spec_sockets() == sockets.spec_raw()
                &&& e.spec_channels() == channels.spec_to_u64() as u8
                &&& e.spec_dimms() == 0xff
                &&& e.spec_value() == value
                &&& e.spec_type_() == 10
                &&& e.spec_payload_size() == 4
            },
    {
        let mut result = Self::default();
        result.sockets = sockets.into_raw();
        result.channels = channels.to_u64().unwrap() as u8;
        result.value = value;
        Ok(result)
    }
}

impl EntryCompatible for MaxCsPerChannel {
    fn is_entry_compatible(entry_id: EntryId, prefix: &[u8]) -> (r: bool)
        ensures
            r == (entry_id == EntryId::Memory(MemoryEntryId::PlatformSpecificOverride) && prefix@.len() >= 2
                && prefix@[0] == 10 && prefix@[1] + 2 == 6),
    {
        match entry_id {
            EntryId::Memory(MemoryEntryId::PlatformSpecificOverride) => {
                prefix.len() >= 2 && prefix[0] == 10 && prefix[1] as usize + 2 == 6
            },
            _ => false,
        }
    }

    fn skip_step(entry_id: EntryId, prefix: &[u8]) -> (r: Option<(u16, usize)>)
        ensures
            r == spec_tagged_skip_step(entry_id, prefix@),
    {
        tagged_skip_step(entry_id, prefix)
    }
}

impl ElementAsBytes for MaxCsPerChannel {
    fn element_as_bytes(&self) -> (r: Vec<u8>)
        ensures
            r@ == self.spec_to_bytes(),
    {
        self.to_bytes()
    }
}

impl SequenceElementAsBytes for MaxCsPerChannel {
    /// The bytes of this override, if its type and size fields are right and the entry is
    /// a platform-specific override entry.
    fn checked_as_bytes(&self, entry_id: EntryId) -> (r: Option<Vec<u8>>)
        ensures
            r is Some <==> (entry_id == EntryId::Memory(MemoryEntryId::PlatformSpecificOverride) && self.spec_type_() == 10
                && self.spec_payload_size() + 2 == 6),
            r matches Some(b) ==> b@ == self.spec_to_bytes(),
    {
        let blob = self.to_bytes();
        proof {
            lemma_max_cs_per_channel_bytes_pieces(*self);
        }
        if Self::is_entry_compatible(entry_id, blob.as_slice()) {
            Some(blob)
        } else {
            None
        }
    }
}

/// A memory technology.
#[derive(Debug, PartialEq, Eq, Clone, Copy, Structural)]
pub enum MemTechnologyType {
    Ddr2,
    Ddr3,
    Gddr5,
    Ddr4,
    Lpddr3,
    Lpddr4,
    Hbm,
    Gddr6,
    Ddr5,
    Lpddr5,
}

impl MemTechnologyType {
    /// The number that stands for this value.
    pub open spec fn spec_to_u64(self) -> u64 {
        match self {
            MemTechnologyType::Ddr2 => 0x0,
            MemTechnologyType::Ddr3 => 0x1,
            MemTechnologyType::Gddr5 => 0x2,
            MemTechnologyType::Ddr4 => 0x3,
            MemTechnologyType::Lpddr3 => 0x4,
            MemTechnologyType::Lpddr4 => 0x5,
            MemTechnologyType::Hbm => 0x6,
            MemTechnologyType::Gddr6 => 0x7,
            MemTechnologyType::Ddr5 => 0x8,
            MemTechnologyType::Lpddr5 => 0x9,
        }
    }

    /// The value that VALUE stands for, if any.
    pub open spec fn spec_from_u64(value: u64) -> Option<MemTechnologyType> {
        match value {
            0x0 => Some(MemTechnologyType::Ddr2),
            0x1 => Some(MemTechnologyType::Ddr3),
            0x2 => Some(MemTechnologyType::Gddr5),
            0x3 => Some(MemTechnologyType::Ddr4),
            0x4 => Some(MemTechnologyType::Lpddr3),
            0x5 => Some(MemTechnologyType::Lpddr4),
            0x6 => Some(MemTechnologyType::Hbm),
            0x7 => Some(MemTechnologyType::Gddr6),
            0x8 => Some(MemTechnologyType::Ddr5),
            0x9 => Some(MemTechnologyType::Lpddr5),
            _ => None,
        }
    }

    pub fn from_u64(value: u64) -> (r: Option<MemTechnologyType>)
        ensures
            r == MemTechnologyType::spec_from_u64(value),
    {
        match value {
            0x0 => Some(MemTechnologyType::Ddr2),
            0x1 => Some(MemTechnologyType::Ddr3),
            0x2 => Some(MemTechnologyType::Gddr5),
            0x3 => Some(MemTechnologyType::Ddr4),
            0x4 => Some(MemTechnologyType::Lpddr3),
            0x5 => Some(MemTechnologyType::Lpddr4),
            0x6 => Some(MemTechnologyType::Hbm),
            0x7 => Some(MemTechnologyType::Gddr6),
            0x8 => Some(MemTechnologyType::Ddr5),
            0x9 => Some(MemTechnologyType::Lpddr5),
            _ => None,
        }
    }

    pub fn to_u64(&self) -> (r: Option<u64>)
        ensures
            r == Some(self.spec_to_u64()),
    {
        Some(
            match self {
                MemTechnologyType::Ddr2 => 0x0,
                MemTechnologyType::Ddr3 => 0x1,
                MemTechnologyType::Gddr5 => 0x2,
                MemTechnologyType::Ddr4 => 0x3,
                MemTechnologyType::Lpddr3 => 0x4,
                MemTechnologyType::Lpddr4 => 0x5,
                MemTechnologyType::Hbm => 0x6,
                MemTechnologyType::Gddr6 => 0x7,
                MemTechnologyType::Ddr5 => 0x8,
                MemTechnologyType::Lpddr5 => 0x9,
            },
        )
    }
}

/// Every value of MemTechnologyType is read back from its own number, and every number that is
/// read as a value is that value's number.
pub proof fn lemma_mem_technology_type_roundtrip(x: MemTechnologyType, value: u64)
    ensures
        MemTechnologyType::spec_from_u64(x.spec_to_u64()) == Some(x),
        MemTechnologyType::spec_from_u64(value) matches Some(y) ==> y.spec_to_u64() == value,
{
}

/// The memory technology.
#[allow(non_camel_case_types)]
#[derive(Debug, Clone, Copy, PartialEq, Eq, Structural)]
pub struct MemTechnology {
    pub(crate) type_: u8,
    pub(crate) payload_size: u8,
    pub(crate) sockets: u8,
    pub(crate) channels: u8,
    pub(crate) dimms: u8,
    pub(crate) technology_type: u32,
}

impl MemTechnology {
    pub closed spec fn spec_type_(self) -> u8 {
        self.type_
    }

    pub closed spec fn spec_payload_size(self) -> u8 {
        self.payload_size
    }

    pub closed spec fn spec_sockets(self) -> u8 {
        self.sockets
    }

    pub closed spec fn spec_channels(self) -> u8 {
        self.channels
    }

    pub closed spec fn spec_dimms(self) -> u8 {
        self.dimms
    }

    pub closed spec fn spec_technology_type(self) -> u32 {
        self.technology_type
    }

    pub fn type_(&self) -> (r: Result<u8>)
        ensures
            r == Ok::<u8, Error>(self.spec_type_()),
    {
        Ok(self.type_)
    }

    pub fn set_type_(&mut self, value: u8)
        ensures
            final(self).spec_type_() == value,
            final(self).spec_payload_size() == old(self).spec_payload_size(),
            final(self).spec_sockets() == old(self).spec_sockets(),
            final(self).spec_channels() == old(self).spec_channels(),
            final(self).spec_dimms() == old(self).spec_dimms(),
            final(self).spec_technology_type() == old(self).spec_technology_type(),
    {
        self.type_ = value;
    }

    pub fn sockets(&self) -> (r: Result<SocketIds>)
        ensures
            r is Ok <==> (self.spec_sockets() as u64) & !0xffu64 == 0,
            r matches Ok(b) ==> b.spec_raw() == self.spec_sockets(),
    {
        proof {
            if (self.sockets as u64) & !0xffu64 == 0 {
                lemma_masked_bound_u64(self.sockets as u64, 0xffu64);
            }
        }
        match SocketIds::from_u64(self.sockets as u64) {
            Some(b) => Ok(b),
            None => Err(Error::EntryTypeMismatch),
        }
    }

    pub fn set_sockets(&mut self, value: SocketIds)
        ensures
            final(self).spec_sockets() == value.spec_raw() as u8,
            final(self).spec_type_() == old(self).spec_type_(),
            final(self).spec_payload_size() == old(self).spec_payload_size(),
            final(self).spec_channels() == old(self).spec_channels(),
            final(self).spec_dimms() == old(self).spec_dimms(),
            final(self).spec_technology_type() == old(self).spec_technology_type(),
    {
        self.sockets = value.into_raw() as u8;
    }

    pub fn channels(&self) -> (r: Result<ChannelIds>)
        ensures
            r == match ChannelIds::spec_from_u64(self.spec_channels() as u64) {
                Some(e) => Ok::<ChannelIds, Error>(e),
                None => Err(Error::EntryTypeMismatch),
            },
    {
        match ChannelIds::from_u64(self.channels as u64) {
            Some(e) => Ok(e),
            None => Err(Error::EntryTypeMismatch),
        }
    }

    pub fn set_channels(&mut self, value: ChannelIds)
        requires
            value.spec_has_number(),
        ensures
            final(self).spec_channels() == value.spec_to_u64() as u8,
            final(self).spec_type_() == old(self).spec_type_(),
            final(self).spec_payload_size() == old(self).spec_payload_size(),
            final(self).spec_sockets() == old(self).spec_sockets(),
            final(self).spec_dimms() == old(self).spec_dimms(),
            final(self).spec_technology_type() == old(self).spec_technology_type(),
    {
        self.channels = value.to_u64().unwrap() as u8;
    }

    pub fn dimms(&self) -> (r: Result<DimmSlots>)
        ensures
            r == match DimmSlots::spec_from_u64(self.spec_dimms() as u64) {
                Some(e) => Ok::<DimmSlots, Error>(e),
                None => Err(Error::EntryTypeMismatch),
            },
    {
        match DimmSlots::from_u64(self.dimms as u64) {
            Some(e) => Ok(e),
            None => Err(Error::EntryTypeMismatch),
        }
    }

    pub fn set_dimms(&mut self, value: DimmSlots)
        requires
            value.spec_has_number(),
        ensures
            final(self).spec_dimms() == value.spec_to_u64() as u8,
            final(self).spec_type_() == old(self).spec_type_(),
            final(self).spec_payload_size() == old(self).spec_payload_size(),
            final(self).spec_sockets() == old(self).spec_sockets(),
            final(self).spec_channels() == old(self).spec_channels(),
            final(self).spec_technology_type() == old(self).spec_technology_type(),
    {
        self.dimms = value.to_u64().unwrap() as u8;
    }

    pub fn technology_type(&self) -> (r: Result<MemTechnologyType>)
        ensures
            r == match MemTechnologyType::spec_from_u64(self.spec_technology_type() as u64) {
                Some(e) => Ok::<MemTechnologyType, Error>(e),
                None => Err(Error::EntryTypeMismatch),
            },
    {
        match MemTechnologyType::from_u64(self.technology_type as u64) {
            Some(e) => Ok(e),
            None => Err(Error::EntryTypeMismatch),
        }
    }

    pub fn set_technology_type(&mut self, value: MemTechnologyType)
        ensures
            final(self).spec_technology_type() == value.spec_to_u64() as u32,
            final(self).spec_type_() == old(self).spec_type_(),
            final(self).spec_payload_size() == old(self).spec_payload_size(),
            final(self).spec_sockets() == old(self).spec_sockets(),
            final(self).spec_channels() == old(self).spec_channels(),
            final(self).spec_dimms() == old(self).spec_dimms(),
    {
        self.technology_type = value.to_u64().unwrap() as u32;
    }

}

impl MemTechnology {
    /// The bytes that store this value on disk.
    pub closed spec fn spec_bytes(self) -> Seq<u8> {
        seq![self.type_]
            + seq![self.payload_size]
            + seq![self.sockets]
            + seq![self.channels]
            + seq![self.dimms]
            + spec_u32_to_le_bytes(self.technology_type)
    }
}

impl ByteLayout for MemTechnology {
    open spec fn spec_size() -> nat {
        9
    }

    open spec fn spec_to_bytes(self) -> Seq<u8> {
        self.spec_bytes()
    }

    fn size() -> (r: usize) {
        9
    }

    #[verifier::spinoff_prover]
    fn from_bytes(bytes: &[u8]) -> (r: Self) {
        let type_: u8 = bytes[0];
        let payload_size: u8 = bytes[1];
        let sockets: u8 = bytes[2];
        let channels: u8 = bytes[3];
        let dimms: u8 = bytes[4];
        let technology_type: u32 = u32_from_le_bytes(slice_subrange(bytes, 5, 9));
        let r = MemTechnology { type_, payload_size, sockets, channels, dimms, technology_type };
        proof {
            lemma_auto_spec_u16_to_from_le_bytes();
            lemma_auto_spec_u32_to_from_le_bytes();
            lemma_auto_spec_u64_to_from_le_bytes();
            lemma_mem_technology_bytes_pieces(r);
            assert(bytes@.subrange(5, 9) == spec_u32_to_le_bytes(technology_type));
            assert(bytes@.subrange(0, 2) =~= bytes@.subrange(0, 1) + bytes@.subrange(1, 2));
            assert(bytes@.subrange(0, 3) =~= bytes@.subrange(0, 2) + bytes@.subrange(2, 3));
            assert(bytes@.subrange(0, 4) =~= bytes@.subrange(0, 3) + bytes@.subrange(3, 4));
            assert(bytes@.subrange(0, 5) =~= bytes@.subrange(0, 4) + bytes@.subrange(4, 5));
            assert(bytes@.subrange(0, 9) =~= bytes@.subrange(0, 5) + bytes@.subrange(5, 9));
            assert(bytes@.subrange(0, 9) =~= bytes@);
            assert(bytes@ == r.spec_bytes());
        }
        r
    }

    #[verifier::spinoff_prover]
    fn to_bytes(&self) -> (r: Vec<u8>) {
        let mut out: Vec<u8> = Vec::new();
        out.push(self.type_);
        out.push(self.payload_size);
        out.push(self.sockets);
        out.push(self.channels);
        out.push(self.dimms);
        append_bytes(&mut out, &le_bytes_u32(self.technology_type));
        proof {
            lemma_mem_technology_bytes_pieces(*self);
        }
        out
    }
}

/// How the bytes of a MemTechnology split up into its fields.
pub proof fn lemma_mem_technology_bytes_pieces(x: MemTechnology)
    ensures
        x.spec_bytes().len() == 9,
        x.spec_bytes()[0] == x.spec_type_(),
        x.spec_bytes()[1] == x.spec_payload_size(),
        x.spec_bytes()[2] == x.spec_sockets(),
        x.spec_bytes()[3] == x.spec_channels(),
        x.spec_bytes()[4] == x.spec_dimms(),
        x.spec_bytes().subrange(5, 9) == spec_u32_to_le_bytes(x.spec_technology_type()),
{
    lemma_auto_spec_u16_to_from_le_bytes();
    lemma_auto_spec_u32_to_from_le_bytes();
    lemma_auto_spec_u64_to_from_le_bytes();
    assert(x.spec_bytes().subrange(5, 9) == spec_u32_to_le_bytes(x.technology_type));
}

/// Two values of MemTechnology with the same bytes are the same value.
#[verifier::spinoff_prover]
pub proof fn lemma_mem_technology_bytes_injective(x: MemTechnology, y: MemTechnology)
    requires
        x.spec_bytes() == y.spec_bytes(),
    ensures
        x == y,
{
    lemma_mem_technology_bytes_pieces(x);
    lemma_mem_technology_bytes_pieces(y);
    lemma_auto_spec_u16_to_from_le_bytes();
    lemma_auto_spec_u32_to_from_le_bytes();
    lemma_auto_spec_u64_to_from_le_bytes();
    assert(x.type_ == y.type_);
    assert(x.payload_size == y.payload_size);
    assert(x.sockets == y.sockets);
    assert(x.channels == y.channels);
    assert(x.dimms == y.dimms);
    assert(spec_u32_from_le_bytes(spec_u32_to_le_bytes(x.technology_type)) == spec_u32_from_le_bytes(spec_u32_to_le_bytes(y.technology_type)));
}

impl MemTechnology {
    /// The type tag of this override.
    pub const TAG: u16 = 11;
}

impl Default for MemTechnology {
    fn default() -> (r: Self)
        ensures
            r.spec_type_() == 11,
            r.spec_payload_size() == 7,
            r.spec_sockets() == 0xff,
            r.spec_channels() == 0xff,
            r.spec_dimms() == 0xff,
            r.spec_technology_type() == 0,
    {
        MemTechnology { type_: 11, payload_size: 7, sockets: 0xff, channels: 0xff, dimms: 0xff, technology_type: 0 }
    }
}

impl MemTechnology {
    /// An override for the given selection; the rest as in the default.
    pub fn new(sockets: SocketIds, technology_type: MemTechnologyType) -> (e: Self)
        ensures
            e.spec_sockets() == sockets.spec_raw(),
            e.spec_dimms() == 0xff,
            e.spec_technology_type() == technology_type.spec_to_u64() as u32,
            e.spec_type_() == 11,
            e.spec_payload_size() == 7,
    {
        let mut result = Self::default();
        result.sockets = sockets.into_raw();
        result.technology_type = technology_type.to_u64().unwrap() as u32;
        result
    }
}

impl EntryCompatible for MemTechnology {
    fn is_entry_compatible(entry_id: EntryId, prefix: &[u8]) -> (r: bool)
        ensures
            r == (entry_id == EntryId::Memory(MemoryEntryId::PlatformSpecificOverride) && prefix@.len() >= 2
                && prefix@[0] == 11 && prefix@[1] + 2 == 9),
    {
        match entry_id {
            EntryId::Memory(MemoryEntryId::PlatformSpecificOverride) => {
                prefix.len() >= 2 && prefix[0] == 11 && prefix[1] as usize + 2 == 9
            },
            _ => false,
        }
    }

    fn skip_step(entry_id: EntryId, prefix: &[u8]) -> (r: Option<(u16, usize)>)
        ensures
            r == spec_tagged_skip_step(entry_id, prefix@),
    {
        tagged_skip_step(entry_id, prefix)
    }
}

impl ElementAsBytes for MemTechnology {
    fn element_as_bytes(&self) -> (r: Vec<u8>)
        ensures
            r@ == self.spec_to_bytes(),
    {
        self.to_bytes()
    }
}

impl SequenceElementAsBytes for MemTechnology {
    /// The bytes of this override, if its type and size fields are right and the entry is
    /// a platform-specific override entry.
    fn checked_as_bytes(&self, entry_id: EntryId) -> (r: Option<Vec<u8>>)
        ensures
            r is Some <==> (entry_id == EntryId::Memory(MemoryEntryId::PlatformSpecificOverride) && self.spec_type_() == 11
                && self.spec_payload_size() + 2 == 9),
            r matches Some(b) ==> b@ == self.spec_to_bytes(),
    {
        let blob = self.to_bytes();
        proof {
            lemma_mem_technology_bytes_pieces(*self);
        }
        if Self::is_entry_compatible(entry_id, blob.as_slice()) {
            Some(blob)
        } else {
            None
        }
    }
}

/// The write levelling seed delays.
#[allow(non_camel_case_types)]
#[derive(Debug, Clone, Copy)]
pub struct WriteLevellingSeedDelay {
    pub(crate) type_: u8,
    pub(crate) payload_size: u8,
    pub(crate) sockets: u8,
    pub(crate) channels: u8,
    pub(crate) dimms: u8,
    pub(crate) seed: [u8; 8],
    pub(crate) ecc_seed: u8,
}

impl WriteLevellingSeedDelay {
    pub closed spec fn spec_type_(self) -> u8 {
        self.type_
    }

    pub closed spec fn spec_payload_size(self) -> u8 {
        self.payload_size
    }

    pub closed spec fn spec_sockets(self) -> u8 {
        self.sockets
    }

    pub closed spec fn spec_channels(self) -> u8 {
        self.channels
    }

    pub closed spec fn spec_dimms(self) -> u8 {
        self.dimms
    }

    pub closed spec fn spec_seed(self) -> [u8; 8] {
        self.seed
    }

    pub closed spec fn spec_ecc_seed(self) -> u8 {
        self.ecc_seed
    }

    pub fn type_(&self) -> (r: Result<u8>)
        ensures
            r == Ok::<u8, Error>(self.spec_type_()),
    {
        Ok(self.type_)
    }

    pub fn set_type_(&mut self, value: u8)
        ensures
            final(self).spec_type_() == value,
            final(self).spec_payload_size() == old(self).spec_payload_size(),
            final(self).spec_sockets() == old(self).spec_sockets(),
            final(self).spec_channels() == old(self).spec_channels(),
            final(self).spec_dimms() == old(self).spec_dimms(),
            final(self).spec_seed() == old(self).spec_seed(),
            final(self).spec_ecc_seed() == old(self).spec_ecc_seed(),
    {
        self.type_ = value;
    }

    pub fn sockets(&self) -> (r: Result<SocketIds>)
        ensures
            r is Ok <==> (self.spec_sockets() as u64) & !0xffu64 == 0,
            r matches Ok(b) ==> b.spec_raw() == self.spec_sockets(),
    {
        proof {
            if (self.sockets as u64) & !0xffu64 == 0 {
                lemma_masked_bound_u64(self.sockets as u64, 0xffu64);
            }
        }
        match SocketIds::from_u64(self.sockets as u64) {
            Some(b) => Ok(b),
            None => Err(Error::EntryTypeMismatch),
        }
    }

    pub fn set_sockets(&mut self, value: SocketIds)
        ensures
            final(self).spec_sockets() == value.spec_raw() as u8,
            final(self).spec_type_() == old(self).spec_type_(),
            final(self).spec_payload_size() == old(self).spec_payload_size(),
            final(self).spec_channels() == old(self).spec_channels(),
            final(self).spec_dimms() == old(self).spec_dimms(),
            final(self).spec_seed() == old(self).spec_seed(),
            final(self).spec_ecc_seed() == old(self).spec_ecc_seed(),
    {
        self.sockets = value.into_raw() as u8;
    }

    pub fn channels(&self) -> (r: Result<ChannelIds>)
        ensures
            r == match ChannelIds::spec_from_u64(self.spec_channels() as u64) {
                Some(e) => Ok::<ChannelIds, Error>(e),
                None => Err(Error::EntryTypeMismatch),
            },
    {
        match ChannelIds::from_u64(self.channels as u64) {
            Some(e) => Ok(e),
            None => Err(Error::EntryTypeMismatch),
        }
    }

    pub fn set_channels(&mut self, value: ChannelIds)
        requires
            value.spec_has_number(),
        ensures
            final(self).spec_channels() == value.spec_to_u64() as u8,
            final(self).spec_type_() == old(self).spec_type_(),
            final(self).spec_payload_size() == old(self).spec_payload_size(),
            final(self).spec_sockets() == old(self).spec_sockets(),
            final(self).spec_dimms() == old(self).spec_dimms(),
            final(self).spec_seed() == old(self).spec_seed(),
            final(self).spec_ecc_seed() == old(self).spec_ecc_seed(),
    {
        self.channels = value.to_u64().unwrap() as u8;
    }

    pub fn dimms(&self) -> (r: Result<DimmSlots>)
        ensures
            r == match DimmSlots::spec_from_u64(self.spec_dimms() as u64) {
                Some(e) => Ok::<DimmSlots, Error>(e),
                None => Err(Error::EntryTypeMismatch),
            },
    {
        match DimmSlots::from_u64(self.dimms as u64) {
            Some(e) => Ok(e),
            None => Err(Error::EntryTypeMismatch),
        }
    }

    pub fn set_dimms(&mut self, value: DimmSlots)
        requires
            value.spec_has_number(),
        ensures
            final(self).spec_dimms() == value.spec_to_u64() as u8,
            final(self).spec_type_() == old(self).spec_type_(),
            final(self).spec_payload_size() == old(self).spec_payload_size(),
            final(self).spec_sockets() == old(self).spec_sockets(),
            final(self).spec_channels() == old(self).spec_channels(),
            final(self).spec_seed() == old(self).spec_seed(),
            final(self).spec_ecc_seed() == old(self).spec_ecc_seed(),
    {
        self.dimms = value.to_u64().unwrap() as u8;
    }

    pub fn ecc_seed(&self) -> (r: Result<u8>)
        ensures
            r == Ok::<u8, Error>(self.spec_ecc_seed()),
    {
        Ok(self.ecc_seed)
    }

    pub fn set_ecc_seed(&mut self, value: u8)
        ensures
            final(self).spec_ecc_seed() == value,
            final(self).spec_type_() == old(self).spec_type_(),
            final(self).spec_payload_size() == old(self).spec_payload_size(),
            final(self).spec_sockets() == old(self).spec_sockets(),
            final(self).spec_channels() == old(self).spec_channels(),
            final(self).spec_dimms() == old(self).spec_dimms(),
            final(self).spec_seed() == old(self).spec_seed(),
    {
        self.ecc_seed = value;
    }

}

impl WriteLevellingSeedDelay {
    /// The bytes that store this value on disk.
    pub closed spec fn spec_bytes(self) -> Seq<u8> {
        seq![self.type_]
            + seq![self.payload_size]
            + seq![self.sockets]
            + seq![self.channels]
            + seq![self.dimms]
            + self.seed@
            + seq![self.ecc_seed]
    }
}

impl ByteLayout for WriteLevellingSeedDelay {
    open spec fn spec_size() -> nat {
        14
    }

    open spec fn spec_to_bytes(self) -> Seq<u8> {
        self.spec_bytes()
    }

    fn size() -> (r: usize) {
        14
    }

    #[verifier::spinoff_prover]
    fn from_bytes(bytes: &[u8]) -> (r: Self) {
        let type_: u8 = bytes[0];
        let payload_size: u8 = bytes[1];
        let sockets: u8 = bytes[2];
        let channels: u8 = bytes[3];
        let dimms: u8 = bytes[4];
        let seed: [u8; 8] = [bytes[5], bytes[6], bytes[7], bytes[8], bytes[9], bytes[10], bytes[11], bytes[12]];
        let ecc_seed: u8 = bytes[13];
        let r = WriteLevellingSeedDelay { type_, payload_size, sockets, channels, dimms, seed, ecc_seed };
        proof {
            lemma_auto_spec_u16_to_from_le_bytes();
            lemma_auto_spec_u32_to_from_le_bytes();
            lemma_auto_spec_u64_to_from_le_bytes();
            lemma_write_levelling_seed_delay_bytes_pieces(r);
            assert(bytes@.subrange(5, 13) =~= seed@);
            assert(bytes@.subrange(0, 2) =~= bytes@.subrange(0, 1) + bytes@.subrange(1, 2));
            assert(bytes@.subrange(0, 3) =~= bytes@.subrange(0, 2) + bytes@.subrange(2, 3));
            assert(bytes@.subrange(0, 4) =~= bytes@.subrange(0, 3) + bytes@.subrange(3, 4));
            assert(bytes@.subrange(0, 5) =~= bytes@.subrange(0, 4) + bytes@.subrange(4, 5));
            assert(bytes@.subrange(0, 13) =~= bytes@.subrange(0, 5) + bytes@.subrange(5, 13));
            assert(bytes@.subrange(0, 14) =~= bytes@.subrange(0, 13) + bytes@.subrange(13, 14));
            assert(bytes@.subrange(0, 14) =~= bytes@);
            assert(bytes@ == r.spec_bytes());
        }
        r
    }

    #[verifier::spinoff_prover]
    fn to_bytes(&self) -> (r: Vec<u8>) {
        let mut out: Vec<u8> = Vec::new();
        out.push(self.type_);
        out.push(self.payload_size);
        out.push(self.sockets);
        out.push(self.channels);
        out.push(self.dimms);
        append_bytes(&mut out, &self.seed);
        out.push(self.ecc_seed);
        proof {
            lemma_write_levelling_seed_delay_bytes_pieces(*self);
        }
        out
    }
}

/// How the bytes of a WriteLevellingSeedDelay split up into its fields.
pub proof fn lemma_write_levelling_seed_delay_bytes_pieces(x: WriteLevellingSeedDelay)
    ensures
        x.spec_bytes().len() == 14,
        x.spec_bytes()[0] == x.spec_type_(),
        x.spec_bytes()[1] == x.spec_payload_size(),
        x.spec_bytes()[2] == x.spec_sockets(),
        x.spec_bytes()[3] == x.spec_channels(),
        x.spec_bytes()[4] == x.spec_dimms(),
        x.spec_bytes().subrange(5, 13) == x.spec_seed()@,
        x.spec_bytes()[13] == x.spec_ecc_seed(),
{
    lemma_auto_spec_u16_to_from_le_bytes();
    lemma_auto_spec_u32_to_from_le_bytes();
    lemma_auto_spec_u64_to_from_le_bytes();
    assert(x.spec_bytes().subrange(5, 13) == x.seed@);
}

/// Two values of WriteLevellingSeedDelay with the same bytes are the same value.
#[verifier::spinoff_prover]
pub proof fn lemma_write_levelling_seed_delay_bytes_injective(x: WriteLevellingSeedDelay, y: WriteLevellingSeedDelay)
    requires
        x.spec_bytes() == y.spec_bytes(),
    ensures
        x == y,
{
    lemma_write_levelling_seed_delay_bytes_pieces(x);
    lemma_write_levelling_seed_delay_bytes_pieces(y);
    lemma_auto_spec_u16_to_from_le_bytes();
    lemma_auto_spec_u32_to_from_le_bytes();
    lemma_auto_spec_u64_to_from_le_bytes();
    assert(x.type_ == y.type_);
    assert(x.payload_size == y.payload_size);
    assert(x.sockets == y.sockets);
    assert(x.channels == y.channels);
    assert(x.dimms == y.dimms);
    assert(x.seed@ == x.spec_bytes().subrange(5, 13));
    assert(x.seed =~= y.seed);
    assert(x.ecc_seed == y.ecc_seed);
}

impl WriteLevellingSeedDelay {
    /// The type tag of this override.
    pub const TAG: u16 = 12;
}

impl Default for WriteLevellingSeedDelay {
    fn default() -> (r: Self)
        ensures
            r.spec_type_() == 12,
            r.spec_payload_size() == 12,
            r.spec_sockets() == 0xff,
            r.spec_channels() == 0xff,
            r.spec_dimms() == 0xff,
            r.spec_seed() == [0u8, 0u8, 0u8, 0u8, 0u8, 0u8, 0u8, 0u8],
            r.spec_ecc_seed() == 0,
    {
        WriteLevellingSeedDelay { type_: 12, payload_size: 12, sockets: 0xff, channels: 0xff, dimms: 0xff, seed: [0; 8], ecc_seed: 0 }
    }
}

impl EntryCompatible for WriteLevellingSeedDelay {
    fn is_entry_compatible(entry_id: EntryId, prefix: &[u8]) -> (r: bool)
        ensures
            r == (entry_id == EntryId::Memory(MemoryEntryId::PlatformSpecificOverride) && prefix@.len() >= 2
                && prefix@[0] == 12 && prefix@[1] + 2 == 14),
    {
        match entry_id {
            EntryId::Memory(MemoryEntryId::PlatformSpecificOverride) => {
                prefix.len() >= 2 && prefix[0] == 12 && prefix[1] as usize + 2 == 14
            },
            _ => false,
        }
    }

    fn skip_step(entry_id: EntryId, prefix: &[u8]) -> (r: Option<(u16, usize)>)
        ensures
            r == spec_tagged_skip_step(entry_id, prefix@),
    {
        tagged_skip_step(entry_id, prefix)
    }
}

impl ElementAsBytes for WriteLevellingSeedDelay {
    fn element_as_bytes(&self) -> (r: Vec<u8>)
        ensures
            r@ == self.spec_to_bytes(),
    {
        self.to_bytes()
    }
}

impl SequenceElementAsBytes for WriteLevellingSeedDelay {
    /// The bytes of this override, if its type and size fields are right and the entry is
    /// a platform-specific override entry.
    fn checked_as_bytes(&self, entry_id: EntryId) -> (r: Option<Vec<u8>>)
        ensures
            r is Some <==> (entry_id == EntryId::Memory(MemoryEntryId::PlatformSpecificOverride) && self.spec_type_() == 12
                && self.spec_payload_size() + 2 == 14),
            r matches Some(b) ==> b@ == self.spec_to_bytes(),
    {
        let blob = self.to_bytes();
        proof {
            lemma_write_levelling_seed_delay_bytes_pieces(*self);
        }
        if Self::is_entry_compatible(entry_id, blob.as_slice()) {
            Some(blob)
        } else {
            None
        }
    }
}

/// The receive enable seeds.
#[allow(non_camel_case_types)]
#[derive(Debug, Clone, Copy)]
pub struct RxEnSeed {
    pub(crate) type_: u8,
    pub(crate) payload_size: u8,
    pub(crate) sockets: u8,
    pub(crate) channels: u8,
    pub(crate) dimms: u8,
    pub(crate) seed: [u16; 8],
    pub(crate) ecc_seed: u16,
}

impl RxEnSeed {
    pub closed spec fn spec_type_(self) -> u8 {
        self.type_
    }

    pub closed spec fn spec_payload_size(self) -> u8 {
        self.payload_size
    }

    pub closed spec fn spec_sockets(self) -> u8 {
        self.sockets
    }

    pub closed spec fn spec_channels(self) -> u8 {
        self.channels
    }

    pub closed spec fn spec_dimms(self) -> u8 {
        self.dimms
    }

    pub closed spec fn spec_seed(self) -> [u16; 8] {
        self.seed
    }

    pub closed spec fn spec_ecc_seed(self) -> u16 {
        self.ecc_seed
    }

    pub fn type_(&self) -> (r: Result<u8>)
        ensures
            r == Ok::<u8, Error>(self.spec_type_()),
    {
        Ok(self.type_)
    }

    pub fn set_type_(&mut self, value: u8)
        ensures
            final(self).spec_type_() == value,
            final(self).spec_payload_size() == old(self).spec_payload_size(),
            final(self).spec_sockets() == old(self).spec_sockets(),
            final(self).spec_channels() == old(self).spec_channels(),
            final(self).spec_dimms() == old(self).spec_dimms(),
            final(self).spec_seed() == old(self).spec_seed(),
            final(self).spec_ecc_seed() == old(self).spec_ecc_seed(),
    {
        self.type_ = value;
    }

    pub fn sockets(&self) -> (r: Result<SocketIds>)
        ensures
            r is Ok <==> (self.spec_sockets() as u64) & !0xffu64 == 0,
            r matches Ok(b) ==> b.spec_raw() == self.spec_sockets(),
    {
        proof {
            if (self.sockets as u64) & !0xffu64 == 0 {
                lemma_masked_bound_u64(self.sockets as u64, 0xffu64);
            }
        }
        match SocketIds::from_u64(self.sockets as u64) {
            Some(b) => Ok(b),
            None => Err(Error::EntryTypeMismatch),
        }
    }

    pub fn set_sockets(&mut self, value: SocketIds)
        ensures
            final(self).spec_sockets() == value.spec_raw() as u8,
            final(self).spec_type_() == old(self).spec_type_(),
            final(self).spec_payload_size() == old(self).spec_payload_size(),
            final(self).spec_channels() == old(self).spec_channels(),
            final(self).spec_dimms() == old(self).spec_dimms(),
            final(self).spec_seed() == old(self).spec_seed(),
            final(self).spec_ecc_seed() == old(self).spec_ecc_seed(),
    {
        self.sockets = value.into_raw() as u8;
    }

    pub fn channels(&self) -> (r: Result<ChannelIds>)
        ensures
            r == match ChannelIds::spec_from_u64(self.spec_channels() as u64) {
                Some(e) => Ok::<ChannelIds, Error>(e),
                None => Err(Error::EntryTypeMismatch),
            },
    {
        match ChannelIds::from_u64(self.channels as u64) {
            Some(e) => Ok(e),
            None => Err(Error::EntryTypeMismatch),
        }
    }

    pub fn set_channels(&mut self, value: ChannelIds)
        requires
            value.spec_has_number(),
        ensures
            final(self).spec_channels() == value.spec_to_u64() as u8,
            final(self).spec_type_() == old(self).spec_type_(),
            final(self).spec_payload_size() == old(self).spec_payload_size(),
            final(self).spec_sockets() == old(self).spec_sockets(),
            final(self).spec_dimms() == old(self).spec_dimms(),
            final(self).spec_seed() == old(self).spec_seed(),
            final(self).spec_ecc_seed() == old(self).spec_ecc_seed(),
    {
        self.channels = value.to_u64().unwrap() as u8;
    }

    pub fn dimms(&self) -> (r: Result<DimmSlots>)
        ensures
            r == match DimmSlots::spec_from_u64(self.spec_dimms() as u64) {
                Some(e) => Ok::<DimmSlots, Error>(e),
                None => Err(Error::EntryTypeMismatch),
            },
    {
        match DimmSlots::from_u64(self.dimms as u64) {
            Some(e) => Ok(e),
            None => Err(Error::EntryTypeMismatch),
        }
    }

    pub fn set_dimms(&mut self, value: DimmSlots)
        requires
            value.spec_has_number(),
        ensures
            final(self).spec_dimms() == value.spec_to_u64() as u8,
            final(self).spec_type_() == old(self).spec_type_(),
            final(self).spec_payload_size() == old(self).spec_payload_size(),
            final(self).spec_sockets() == old(self).spec_sockets(),
            final(self).spec_channels() == old(self).spec_channels(),
            final(self).spec_seed() == old(self).spec_seed(),
            final(self).spec_ecc_seed() == old(self).spec_ecc_seed(),
    {
        self.dimms = value.to_u64().unwrap() as u8;
    }

    pub fn ecc_seed(&self) -> (r: Result<u16>)
        ensures
            r == Ok::<u16, Error>(self.spec_ecc_seed()),
    {
        Ok(self.ecc_seed)
    }

    pub fn set_ecc_seed(&mut self, value: u16)
        ensures
            final(self).spec_ecc_seed() == value,
            final(self).spec_type_() == old(self).spec_type_(),
            final(self).spec_payload_size() == old(self).spec_payload_size(),
            final(self).spec_sockets() == old(self).spec_sockets(),
            final(self).spec_channels() == old(self).spec_channels(),
            final(self).spec_dimms() == old(self).spec_dimms(),
            final(self).spec_seed() == old(self).spec_seed(),
    {
        self.ecc_seed = value;
    }

}

impl RxEnSeed {
    /// The bytes that store this value on disk.
    pub closed spec fn spec_bytes(self) -> Seq<u8> {
        seq![self.type_]
            + seq![self.payload_size]
            + seq![self.sockets]
            + seq![self.channels]
            + seq![self.dimms]
            + spec_u16_to_le_bytes(self.seed[0]) + spec_u16_to_le_bytes(self.seed[1]) + spec_u16_to_le_bytes(self.seed[2]) + spec_u16_to_le_bytes(self.seed[3]) + spec_u16_to_le_bytes(self.seed[4]) + spec_u16_to_le_bytes(self.seed[5]) + spec_u16_to_le_bytes(self.seed[6]) + spec_u16_to_le_bytes(self.seed[7])
            + spec_u16_to_le_bytes(self.ecc_seed)
    }
}

impl ByteLayout for RxEnSeed {
    open spec fn spec_size() -> nat {
        23
    }

    open spec fn spec_to_bytes(self) -> Seq<u8> {
        self.spec_bytes()
    }

    fn size() -> (r: usize) {
        23
    }

    #[verifier::spinoff_prover]
    fn from_bytes(bytes: &[u8]) -> (r: Self) {
        let type_: u8 = bytes[0];
        let payload_size: u8 = bytes[1];
        let sockets: u8 = bytes[2];
        let channels: u8 = bytes[3];
        let dimms: u8 = bytes[4];
        let seed: [u16; 8] = [u16_from_le_bytes(slice_subrange(bytes, 5, 7)), u16_from_le_bytes(slice_subrange(bytes, 7, 9)), u16_from_le_bytes(slice_subrange(bytes, 9, 11)), u16_from_le_bytes(slice_subrange(bytes, 11, 13)), u16_from_le_bytes(slice_subrange(bytes, 13, 15)), u16_from_le_bytes(slice_subrange(bytes, 15, 17)), u16_from_le_bytes(slice_subrange(bytes, 17, 19)), u16_from_le_bytes(slice_subrange(bytes, 19, 21))];
        let ecc_seed: u16 = u16_from_le_bytes(slice_subrange(bytes, 21, 23));
        let r = RxEnSeed { type_, payload_size, sockets, channels, dimms, seed, ecc_seed };
        proof {
            lemma_auto_spec_u16_to_from_le_bytes();
            lemma_auto_spec_u32_to_from_le_bytes();
            lemma_auto_spec_u64_to_from_le_bytes();
            lemma_rx_en_seed_bytes_pieces(r);
            assert(bytes@.subrange(5, 7) == spec_u16_to_le_bytes(seed[0]));
            assert(bytes@.subrange(7, 9) == spec_u16_to_le_bytes(seed[1]));
            assert(bytes@.subrange(9, 11) == spec_u16_to_le_bytes(seed[2]));
            assert(bytes@.subrange(11, 13) == spec_u16_to_le_bytes(seed[3]));
            assert(bytes@.subrange(13, 15) == spec_u16_to_le_bytes(seed[4]));
            assert(bytes@.subrange(15, 17) == spec_u16_to_le_bytes(seed[5]));
            assert(bytes@.subrange(17, 19) == spec_u16_to_le_bytes(seed[6]));
            assert(bytes@.subrange(19, 21) == spec_u16_to_le_bytes(seed[7]));
            assert(bytes@.subrange(21, 23) == spec_u16_to_le_bytes(ecc_seed));
            assert(bytes@.subrange(0, 2) =~= bytes@.subrange(0, 1) + bytes@.subrange(1, 2));
            assert(bytes@.subrange(0, 3) =~= bytes@.subrange(0, 2) + bytes@.subrange(2, 3));
            assert(bytes@.subrange(0, 4) =~= bytes@.subrange(0, 3) + bytes@.subrange(3, 4));
            assert(bytes@.subrange(0, 5) =~= bytes@.subrange(0, 4) + bytes@.subrange(4, 5));
            assert(bytes@.subrange(0, 21) =~= bytes@.subrange(0, 5) + bytes@.subrange(5, 21));
            assert(bytes@.subrange(0, 23) =~= bytes@.subrange(0, 21) + bytes@.subrange(21, 23));
            assert(bytes@.subrange(0, 23) =~= bytes@);
            assert(bytes@ == r.spec_bytes());
        }
        r
    }

    #[verifier::spinoff_prover]
    fn to_bytes(&self) -> (r: Vec<u8>) {
        let mut out: Vec<u8> = Vec::new();
        out.push(self.type_);
        out.push(self.payload_size);
        out.push(self.sockets);
        out.push(self.channels);
        out.push(self.dimms);
        append_bytes(&mut out, &le_bytes_u16(self.seed[0]));
        append_bytes(&mut out, &le_bytes_u16(self.seed[1]));
        append_bytes(&mut out, &le_bytes_u16(self.seed[2]));
        append_bytes(&mut out, &le_bytes_u16(self.seed[3]));
        append_bytes(&mut out, &le_bytes_u16(self.seed[4]));
        append_bytes(&mut out, &le_bytes_u16(self.seed[5]));
        append_bytes(&mut out, &le_bytes_u16(self.seed[6]));
        append_bytes(&mut out, &le_bytes_u16(self.seed[7]));
        append_bytes(&mut out, &le_bytes_u16(self.ecc_seed));
        proof {
            lemma_rx_en_seed_bytes_pieces(*self);
        }
        out
    }
}

/// How the bytes of a RxEnSeed split up into its fields.
pub proof fn lemma_rx_en_seed_bytes_pieces(x: RxEnSeed)
    ensures
        x.spec_bytes().len() == 23,
        x.spec_bytes()[0] == x.spec_type_(),
        x.spec_bytes()[1] == x.spec_payload_size(),
        x.spec_bytes()[2] == x.spec_sockets(),
        x.spec_bytes()[3] == x.spec_channels(),
        x.spec_bytes()[4] == x.spec_dimms(),
        x.spec_bytes().subrange(5, 21) == spec_u16_to_le_bytes(x.spec_seed()[0]) + spec_u16_to_le_bytes(x.spec_seed()[1]) + spec_u16_to_le_bytes(x.spec_seed()[2]) + spec_u16_to_le_bytes(x.spec_seed()[3]) + spec_u16_to_le_bytes(x.spec_seed()[4]) + spec_u16_to_le_bytes(x.spec_seed()[5]) + spec_u16_to_le_bytes(x.spec_seed()[6]) + spec_u16_to_le_bytes(x.spec_seed()[7]),
        x.spec_bytes().subrange(21, 23) == spec_u16_to_le_bytes(x.spec_ecc_seed()),
{
    lemma_auto_spec_u16_to_from_le_bytes();
    lemma_auto_spec_u32_to_from_le_bytes();
    lemma_auto_spec_u64_to_from_le_bytes();
    assert(x.spec_bytes().subrange(5, 21) == spec_u16_to_le_bytes(x.seed[0]) + spec_u16_to_le_bytes(x.seed[1]) + spec_u16_to_le_bytes(x.seed[2]) + spec_u16_to_le_bytes(x.seed[3]) + spec_u16_to_le_bytes(x.seed[4]) + spec_u16_to_le_bytes(x.seed[5]) + spec_u16_to_le_bytes(x.seed[6]) + spec_u16_to_le_bytes(x.seed[7]));
    assert(x.spec_bytes().subrange(21, 23) == spec_u16_to_le_bytes(x.ecc_seed));
}

/// Two values of RxEnSeed with the same bytes are the same value.
#[verifier::spinoff_prover]
pub proof fn lemma_rx_en_seed_bytes_injective(x: RxEnSeed, y: RxEnSeed)
    requires
        x.spec_bytes() == y.spec_bytes(),
    ensures
        x == y,
{
    lemma_rx_en_seed_bytes_pieces(x);
    lemma_rx_en_seed_bytes_pieces(y);
    lemma_auto_spec_u16_to_from_le_bytes();
    lemma_auto_spec_u32_to_from_le_bytes();
    lemma_auto_spec_u64_to_from_le_bytes();
    assert(x.type_ == y.type_);
    assert(x.payload_size == y.payload_size);
    assert(x.sockets == y.sockets);
    assert(x.channels == y.channels);
    assert(x.dimms == y.dimms);
    assert(x.spec_bytes().subrange(5, 7) == spec_u16_to_le_bytes(x.seed[0]));
    assert(y.spec_bytes().subrange(5, 7) == spec_u16_to_le_bytes(y.seed[0]));
    assert(x.seed[0] == y.seed[0]);
    assert(x.spec_bytes().subrange(7, 9) == spec_u16_to_le_bytes(x.seed[1]));
    assert(y.spec_bytes().subrange(7, 9) == spec_u16_to_le_bytes(y.seed[1]));
    assert(x.seed[1] == y.seed[1]);
    assert(x.spec_bytes().subrange(9, 11) == spec_u16_to_le_bytes(x.seed[2]));
    assert(y.spec_bytes().subrange(9, 11) == spec_u16_to_le_bytes(y.seed[2]));
    assert(x.seed[2] == y.seed[2]);
    assert(x.spec_bytes().subrange(11, 13) == spec_u16_to_le_bytes(x.seed[3]));
    assert(y.spec_bytes().subrange(11, 13) == spec_u16_to_le_bytes(y.seed[3]));
    assert(x.seed[3] == y.seed[3]);
    assert(x.spec_bytes().subrange(13, 15) == spec_u16_to_le_bytes(x.seed[4]));
    assert(y.spec_bytes().subrange(13, 15) == spec_u16_to_le_bytes(y.seed[4]));
    assert(x.seed[4] == y.seed[4]);
    assert(x.spec_bytes().subrange(15, 17) == spec_u16_to_le_bytes(x.seed[5]));
    assert(y.spec_bytes().subrange(15, 17) == spec_u16_to_le_bytes(y.seed[5]));
    assert(x.seed[5] == y.seed[5]);
    assert(x.spec_bytes().subrange(17, 19) == spec_u16_to_le_bytes(x.seed[6]));
    assert(y.spec_bytes().subrange(17, 19) == spec_u16_to_le_bytes(y.seed[6]));
    assert(x.seed[6] == y.seed[6]);
    assert(x.spec_bytes().subrange(19, 21) == spec_u16_to_le_bytes(x.seed[7]));
    assert(y.spec_bytes().subrange(19, 21) == spec_u16_to_le_bytes(y.seed[7]));
    assert(x.seed[7] == y.seed[7]);
    assert(x.seed =~= y.seed);
    assert(spec_u16_from_le_bytes(spec_u16_to_le_bytes(x.ecc_seed)) == spec_u16_from_le_bytes(spec_u16_to_le_bytes(y.ecc_seed)));
}

impl RxEnSeed {
    /// The type tag of this override.
    pub const TAG: u16 = 13;
}

impl Default for RxEnSeed {
    fn default() -> (r: Self)
        ensures
            r.spec_type_() == 13,
            r.spec_payload_size() == 21,
            r.spec_sockets() == 0xff,
            r.spec_channels() == 0xff,
            r.spec_dimms() == 0xff,
            r.spec_seed() == [0u16, 0u16, 0u16, 0u16, 0u16, 0u16, 0u16, 0u16],
            r.spec_ecc_seed() == 0,
    {
        RxEnSeed { type_: 13, payload_size: 21, sockets: 0xff, channels: 0xff, dimms: 0xff, seed: [0; 8], ecc_seed: 0 }
    }
}

impl RxEnSeed {
    /// An override for the given selection; the rest as in the default.
    pub fn new(sockets: SocketIds, channels: ChannelIds, dimms: DimmSlots, seed: [u16; 8], ecc_seed: u16) -> (e: Self)
        requires
            channels.spec_has_number(),
            dimms.spec_has_number(),
        ensures
            e.spec_sockets() == sockets.spec_raw(),
            e.spec_channels() == channels.spec_to_u64() as u8,
            e.spec_dimms() == dimms.spec_to_u64() as u8,
            e.spec_seed() == seed,
            e.spec_ecc_seed() == ecc_seed,
            e.spec_type_() == 13,
            e.spec_payload_size() == 21,
    {
        let mut result = Self::default();
        result.sockets = sockets.into_raw();
        result.channels = channels.to_u64().unwrap() as u8;
        result.dimms = dimms.to_u64().unwrap() as u8;
        result.seed = seed;
        result.ecc_seed = ecc_seed;
        result
    }
}

impl EntryCompatible for RxEnSeed {
    fn is_entry_compatible(entry_id: EntryId, prefix: &[u8]) -> (r: bool)
        ensures
            r == (entry_id == EntryId::Memory(MemoryEntryId::PlatformSpecificOverride) && prefix@.len() >= 2
                && prefix@[0] == 13 && prefix@[1] + 2 == 23),
    {
        match entry_id {
            EntryId::Memory(MemoryEntryId::PlatformSpecificOverride) => {
                prefix.len() >= 2 && prefix[0] == 13 && prefix[1] as usize + 2 == 23
            },
            _ => false,
        }
    }

    fn skip_step(entry_id: EntryId, prefix: &[u8]) -> (r: Option<(u16, usize)>)
        ensures
            r == spec_tagged_skip_step(entry_id, prefix@),
    {
        tagged_skip_step(entry_id, prefix)
    }
}

impl ElementAsBytes for RxEnSeed {
    fn element_as_bytes(&self) -> (r: Vec<u8>)
        ensures
            r@ == self.spec_to_bytes(),
    {
        self.to_bytes()
    }
}

impl SequenceElementAsBytes for RxEnSeed {
    /// The bytes of this override, if its type and size fields are right and the entry is
    /// a platform-specific override entry.
    fn checked_as_bytes(&self, entry_id: EntryId) -> (r: Option<Vec<u8>>)
        ensures
            r is Some <==> (entry_id == EntryId::Memory(MemoryEntryId::PlatformSpecificOverride) && self.spec_type_() == 13
                && self.spec_payload_size() + 2 == 23),
            r matches Some(b) ==> b@ == self.spec_to_bytes(),
    {
        let blob = self.to_bytes();
        proof {
            lemma_rx_en_seed_bytes_pieces(*self);
        }
        if Self::is_entry_compatible(entry_id, blob.as_slice()) {
            Some(blob)
        } else {
            None
        }
    }
}

/// No CS6/CS7 routing for LRDIMMs.
#[allow(non_camel_case_types)]
#[derive(Debug, Clone, Copy, PartialEq, Eq, Structural)]
pub struct LrDimmNoCs6Cs7Routing {
    pub(crate) type_: u8,
    pub(crate) payload_size: u8,
    pub(crate) sockets: u8,
    pub(crate) channels: u8,
    pub(crate) dimms: u8,
    pub(crate) value: u8,
}

impl LrDimmNoCs6Cs7Routing {
    pub closed spec fn spec_type_(self) -> u8 {
        self.type_
    }

    pub closed spec fn spec_payload_size(self) -> u8 {
        self.payload_size
    }

    pub closed spec fn spec_sockets(self) -> u8 {
        self.sockets
    }

    pub closed spec fn spec_channels(self) -> u8 {
        self.channels
    }

    pub closed spec fn spec_dimms(self) -> u8 {
        self.dimms
    }

    pub closed spec fn spec_value(self) -> u8 {
        self.value
    }

    pub fn type_(&self) -> (r: Result<u8>)
        ensures
            r == Ok::<u8, Error>(self.spec_type_()),
    {
        Ok(self.type_)
    }

    pub fn set_type_(&mut self, value: u8)
        ensures
            final(self).spec_type_() == value,
            final(self).spec_payload_size() == old(self).spec_payload_size(),
            final(self).spec_sockets() == old(self).spec_sockets(),
            final(self).spec_channels() == old(self).spec_channels(),
            final(self).spec_dimms() == old(self).spec_dimms(),
            final(self).spec_value() == old(self).spec_value(),
    {
        self.type_ = value;
    }

    pub fn sockets(&self) -> (r: Result<SocketIds>)
        ensures
            r is Ok <==> (self.spec_sockets() as u64) & !0xffu64 == 0,
            r matches Ok(b) ==> b.spec_raw() == self.spec_sockets(),
    {
        proof {
            if (self.sockets as u64) & !0xffu64 == 0 {
                lemma_masked_bound_u64(self.sockets as u64, 0xffu64);
            }
        }
        match SocketIds::from_u64(self.sockets as u64) {
            Some(b) => Ok(b),
            None => Err(Error::EntryTypeMismatch),
        }
    }

    pub fn set_sockets(&mut self, value: SocketIds)
        ensures
            final(self).spec_sockets() == value.spec_raw() as u8,
            final(self).spec_type_() == old(self).spec_type_(),
            final(self).spec_payload_size() == old(self).spec_payload_size(),
            final(self).spec_channels() == old(self).spec_channels(),
            final(self).spec_dimms() == old(self).spec_dimms(),
            final(self).spec_value() == old(self).spec_value(),
    {
        self.sockets = value.into_raw() as u8;
    }

    pub fn channels(&self) -> (r: Result<ChannelIds>)
        ensures
            r == match ChannelIds::spec_from_u64(self.spec_channels() as u64) {
                Some(e) => Ok::<ChannelIds, Error>(e),
                None => Err(Error::EntryTypeMismatch),
            },
    {
        match ChannelIds::from_u64(self.channels as u64) {
            Some(e) => Ok(e),
            None => Err(Error::EntryTypeMismatch),
        }
    }

    pub fn set_channels(&mut self, value: ChannelIds)
        requires
            value.spec_has_number(),
        ensures
            final(self).spec_channels() == value.spec_to_u64() as u8,
            final(self).spec_type_() == old(self).spec_type_(),
            final(self).spec_payload_size() == old(self).spec_payload_size(),
            final(self).spec_sockets() == old(self).spec_sockets(),
            final(self).spec_dimms() == old(self).spec_dimms(),
            final(self).spec_value() == old(self).spec_value(),
    {
        self.channels = value.to_u64().unwrap() as u8;
    }

    pub fn dimms(&self) -> (r: Result<DimmSlots>)
        ensures
            r == match DimmSlots::spec_from_u64(self.spec_dimms() as u64) {
                Some(e) => Ok::<DimmSlots, Error>(e),
                None => Err(Error::EntryTypeMismatch),
            },
    {
        match DimmSlots::from_u64(self.dimms as u64) {
            Some(e) => Ok(e),
            None => Err(Error::EntryTypeMismatch),
        }
    }

    pub fn set_dimms(&mut self, value: DimmSlots)
        requires
            value.spec_has_number(),
        ensures
            final(self).spec_dimms() == value.spec_to_u64() as u8,
            final(self).spec_type_() == old(self).spec_type_(),
            final(self).spec_payload_size() == old(self).spec_payload_size(),
            final(self).spec_sockets() == old(self).spec_sockets(),
            final(self).spec_channels() == old(self).spec_channels(),
            final(self).spec_value() == old(self).spec_value(),
    {
        self.dimms = value.to_u64().unwrap() as u8;
    }

    pub fn value(&self) -> (r: Result<u8>)
        ensures
            r == Ok::<u8, Error>(self.spec_value()),
    {
        Ok(self.value)
    }

    pub fn set_value(&mut self, value: u8)
        ensures
            final(self).spec_value() == value,
            final(self).spec_type_() == old(self).spec_type_(),
            final(self).spec_payload_size() == old(self).spec_payload_size(),
            final(self).spec_sockets() == old(self).spec_sockets(),
            final(self).spec_channels() == old(self).spec_channels(),
            final(self).spec_dimms() == old(self).spec_dimms(),
    {
        self.value = value;
    }

}

impl LrDimmNoCs6Cs7Routing {
    /// The bytes that store this value on disk.
    pub closed spec fn spec_bytes(self) -> Seq<u8> {
        seq![self.type_]
            + seq![self.payload_size]
            + seq![self.sockets]
            + seq![self.channels]
            + seq![self.dimms]
            + seq![self.value]
    }
}

impl ByteLayout for LrDimmNoCs6Cs7Routing {
    open spec fn spec_size() -> nat {
        6
    }

    open spec fn spec_to_bytes(self) -> Seq<u8> {
        self.spec_bytes()
    }

    fn size() -> (r: usize) {
        6
    }

    #[verifier::spinoff_prover]
    fn from_bytes(bytes: &[u8]) -> (r: Self) {
        let type_: u8 = bytes[0];
        let payload_size: u8 = bytes[1];
        let sockets: u8 = bytes[2];
        let channels: u8 = bytes[3];
        let dimms: u8 = bytes[4];
        let value: u8 = bytes[5];
        let r = LrDimmNoCs6Cs7Routing { type_, payload_size, sockets, channels, dimms, value };
        proof {
            lemma_auto_spec_u16_to_from_le_bytes();
            lemma_auto_spec_u32_to_from_le_bytes();
            lemma_auto_spec_u64_to_from_le_bytes();
            lemma_lr_dimm_no_cs6_cs7_routing_bytes_pieces(r);
            assert(bytes@.subrange(0, 2) =~= bytes@.subrange(0, 1) + bytes@.subrange(1, 2));
            assert(bytes@.subrange(0, 3) =~= bytes@.subrange(0, 2) + bytes@.subrange(2, 3));
            assert(bytes@.subrange(0, 4) =~= bytes@.subrange(0, 3) + bytes@.subrange(3, 4));
            assert(bytes@.subrange(0, 5) =~= bytes@.subrange(0, 4) + bytes@.subrange(4, 5));
            assert(bytes@.subrange(0, 6) =~= bytes@.subrange(0, 5) + bytes@.subrange(5, 6));
            assert(bytes@.subrange(0, 6) =~= bytes@);
            assert(bytes@ == r.spec_bytes());
        }
        r
    }

    #[verifier::spinoff_prover]
    fn to_bytes(&self) -> (r: Vec<u8>) {
        let mut out: Vec<u8> = Vec::new();
        out.push(self.type_);
        out.push(self.payload_size);
        out.push(self.sockets);
        out.push(self.channels);
        out.push(self.dimms);
        out.push(self.value);
        proof {
            lemma_lr_dimm_no_cs6_cs7_routing_bytes_pieces(*self);
        }
        out
    }
}

/// How the bytes of a LrDimmNoCs6Cs7Routing split up into its fields.
pub proof fn lemma_lr_dimm_no_cs6_cs7_routing_bytes_pieces(x: LrDimmNoCs6Cs7Routing)
    ensures
        x.spec_bytes().len() == 6,
        x.spec_bytes()[0] == x.spec_type_(),
        x.spec_bytes()[1] == x.spec_payload_size(),
        x.spec_bytes()[2] == x.spec_sockets(),
        x.spec_bytes()[3] == x.spec_channels(),
        x.spec_bytes()[4] == x.spec_dimms(),
        x.spec_bytes()[5] == x.spec_value(),
{
    lemma_auto_spec_u16_to_from_le_bytes();
    lemma_auto_spec_u32_to_from_le_bytes();
    lemma_auto_spec_u64_to_from_le_bytes();
}

/// Two values of LrDimmNoCs6Cs7Routing with the same bytes are the same value.
#[verifier::spinoff_prover]
pub proof fn lemma_lr_dimm_no_cs6_cs7_routing_bytes_injective(x: LrDimmNoCs6Cs7Routing, y: LrDimmNoCs6Cs7Routing)
    requires
        x.spec_bytes() == y.spec_bytes(),
    ensures
        x == y,
{
    lemma_lr_dimm_no_cs6_cs7_routing_bytes_pieces(x);
    lemma_lr_dimm_no_cs6_cs7_routing_bytes_pieces(y);
    lemma_auto_spec_u16_to_from_le_bytes();
    lemma_auto_spec_u32_to_from_le_bytes();
    lemma_auto_spec_u64_to_from_le_bytes();
    assert(x.type_ == y.type_);
    assert(x.payload_size == y.payload_size);
    assert(x.sockets == y.sockets);
    assert(x.channels == y.channels);
    assert(x.dimms == y.dimms);
    assert(x.value == y.value);
}

impl LrDimmNoCs6Cs7Routing {
    /// The type tag of this override.
    pub const TAG: u16 = 14;
}

impl Default for LrDimmNoCs6Cs7Routing {
    fn default() -> (r: Self)
        ensures
            r.spec_type_() == 14,
            r.spec_payload_size() == 4,
            r.spec_sockets() == 0xff,
            r.spec_channels() == 0xff,
            r.spec_dimms() == 0xff,
            r.spec_value() == 1,
    {
        LrDimmNoCs6Cs7Routing { type_: 14, payload_size: 4, sockets: 0xff, channels: 0xff, dimms: 0xff, value: 1 }
    }
}

impl LrDimmNoCs6Cs7Routing {
    /// An override for the given selection; the rest as in the default.
    pub fn new(sockets: SocketIds, channels: ChannelIds, dimms: DimmSlots) -> (e: Self)
        requires
            channels.spec_has_number(),
            dimms.spec_has_number(),
        ensures
            e.spec_sockets() == sockets.spec_raw(),
            e.spec_channels() == channels.spec_to_u64() as u8,
            e.spec_dimms() == dimms.spec_to_u64() as u8,
            e.spec_type_() == 14,
            e.spec_payload_size() == 4,
    {
        let mut result = Self::default();
        result.sockets = sockets.into_raw();
        result.channels = channels.to_u64().unwrap() as u8;
        result.dimms = dimms.to_u64().unwrap() as u8;
        result
    }
}

impl EntryCompatible for LrDimmNoCs6Cs7Routing {
    fn is_entry_compatible(entry_id: EntryId, prefix: &[u8]) -> (r: bool)
        ensures
            r == (entry_id == EntryId::Memory(MemoryEntryId::PlatformSpecificOverride) && prefix@.len() >= 2
                && prefix@[0] == 14 && prefix@[1] + 2 == 6),
    {
        match entry_id {
            EntryId::Memory(MemoryEntryId::PlatformSpecificOverride) => {
                prefix.len() >= 2 && prefix[0] == 14 && prefix[1] as usize + 2 == 6
            },
            _ => false,
        }
    }

    fn skip_step(entry_id: EntryId, prefix: &[u8]) -> (r: Option<(u16, usize)>)
        ensures
            r == spec_tagged_skip_step(entry_id, prefix@),
    {
        tagged_skip_step(entry_id, prefix)
    }
}

impl ElementAsBytes for LrDimmNoCs6Cs7Routing {
    fn element_as_bytes(&self) -> (r: Vec<u8>)
        ensures
            r@ == self.spec_to_bytes(),
    {
        self.to_bytes()
    }
}

impl SequenceElementAsBytes for LrDimmNoCs6Cs7Routing {
    /// The bytes of this override, if its type and size fields are right and the entry is
    /// a platform-specific override entry.
    fn checked_as_bytes(&self, entry_id: EntryId) -> (r: Option<Vec<u8>>)
        ensures
            r is Some <==> (entry_id == EntryId::Memory(MemoryEntryId::PlatformSpecificOverride) && self.spec_type_() == 14
                && self.spec_payload_size() + 2 == 6),
            r matches Some(b) ==> b@ == self.spec_to_bytes(),
    {
        let blob = self.to_bytes();
        proof {
            lemma_lr_dimm_no_cs6_cs7_routing_bytes_pieces(*self);
        }
        if Self::is_entry_compatible(entry_id, blob.as_slice()) {
            Some(blob)
        } else {
            None
        }
    }
}

/// A soldered-down SODIMM.
#[allow(non_camel_case_types)]
#[derive(Debug, Clone, Copy, PartialEq, Eq, Structural)]
pub struct SolderedDownSodimm {
    pub(crate) type_: u8,
    pub(crate) payload_size: u8,
    pub(crate) sockets: u8,
    pub(crate) channels: u8,
    pub(crate) dimms: u8,
    pub(crate) value: u8,
}

impl SolderedDownSodimm {
    pub closed spec fn spec_type_(self) -> u8 {
        self.type_
    }

    pub closed spec fn spec_payload_size(self) -> u8 {
        self.payload_size
    }

    pub closed spec fn spec_sockets(self) -> u8 {
        self.sockets
    }

    pub closed spec fn spec_channels(self) -> u8 {
        self.channels
    }

    pub closed spec fn spec_dimms(self) -> u8 {
        self.dimms
    }

    pub closed spec fn spec_value(self) -> u8 {
        self.value
    }

    pub fn type_(&self) -> (r: Result<u8>)
        ensures
            r == Ok::<u8, Error>(self.spec_type_()),
    {
        Ok(self.type_)
    }

    pub fn set_type_(&mut self, value: u8)
        ensures
            final(self).spec_type_() == value,
            final(self).spec_payload_size() == old(self).spec_payload_size(),
            final(self).spec_sockets() == old(self).spec_sockets(),
            final(self).spec_channels() == old(self).spec_channels(),
            final(self).spec_dimms() == old(self).spec_dimms(),
            final(self).spec_value() == old(self).spec_value(),
    {
        self.type_ = value;
    }

    pub fn sockets(&self) -> (r: Result<SocketIds>)
        ensures
            r is Ok <==> (self.spec_sockets() as u64) & !0xffu64 == 0,
            r matches Ok(b) ==> b.spec_raw() == self.spec_sockets(),
    {
        proof {
            if (self.sockets as u64) & !0xffu64 == 0 {
                lemma_masked_bound_u64(self.sockets as u64, 0xffu64);
            }
        }
        match SocketIds::from_u64(self.sockets as u64) {
            Some(b) => Ok(b),
            None => Err(Error::EntryTypeMismatch),
        }
    }

    pub fn set_sockets(&mut self, value: SocketIds)
        ensures
            final(self).spec_sockets() == value.spec_raw() as u8,
            final(self).spec_type_() == old(self).spec_type_(),
            final(self).spec_payload_size() == old(self).spec_payload_size(),
            final(self).spec_channels() == old(self).spec_channels(),
            final(self).spec_dimms() == old(self).spec_dimms(),
            final(self).spec_value() == old(self).spec_value(),
    {
        self.sockets = value.into_raw() as u8;
    }

    pub fn channels(&self) -> (r: Result<ChannelIds>)
        ensures
            r == match ChannelIds::spec_from_u64(self.spec_channels() as u64) {
                Some(e) => Ok::<ChannelIds, Error>(e),
                None => Err(Error::EntryTypeMismatch),
            },
    {
        match ChannelIds::from_u64(self.channels as u64) {
            Some(e) => Ok(e),
            None => Err(Error::EntryTypeMismatch),
        }
    }

    pub fn set_channels(&mut self, value: ChannelIds)
        requires
            value.spec_has_number(),
        ensures
            final(self).spec_channels() == value.spec_to_u64() as u8,
            final(self).spec_type_() == old(self).spec_type_(),
            final(self).spec_payload_size() == old(self).spec_payload_size(),
            final(self).spec_sockets() == old(self).spec_sockets(),
            final(self).spec_dimms() == old(self).spec_dimms(),
            final(self).spec_value() == old(self).spec_value(),
    {
        self.channels = value.to_u64().unwrap() as u8;
    }

    pub fn dimms(&self) -> (r: Result<DimmSlots>)
        ensures
            r == match DimmSlots::spec_from_u64(self.spec_dimms() as u64) {
                Some(e) => Ok::<DimmSlots, Error>(e),
                None => Err(Error::EntryTypeMismatch),
            },
    {
        match DimmSlots::from_u64(self.dimms as u64) {
            Some(e) => Ok(e),
            None => Err(Error::EntryTypeMismatch),
        }
    }

    pub fn set_dimms(&mut self, value: DimmSlots)
        requires
            value.spec_has_number(),
        ensures
            final(self).spec_dimms() == value.spec_to_u64() as u8,
            final(self).spec_type_() == old(self).spec_type_(),
            final(self).spec_payload_size() == old(self).spec_payload_size(),
            final(self).spec_sockets() == old(self).spec_sockets(),
            final(self).spec_channels() == old(self).spec_channels(),
            final(self).spec_value() == old(self).spec_value(),
    {
        self.dimms = value.to_u64().unwrap() as u8;
    }

    pub fn value(&self) -> (r: Result<u8>)
        ensures
            r == Ok::<u8, Error>(self.spec_value()),
    {
        Ok(self.value)
    }

    pub fn set_value(&mut self, value: u8)
        ensures
            final(self).spec_value() == value,
            final(self).spec_type_() == old(self).spec_type_(),
            final(self).spec_payload_size() == old(self).spec_payload_size(),
            final(self).spec_sockets() == old(self).spec_sockets(),
            final(self).spec_channels() == old(self).spec_channels(),
            final(self).spec_dimms() == old(self).spec_dimms(),
    {
        self.value = value;
    }

}

impl SolderedDownSodimm {
    /// The bytes that store this value on disk.
    pub closed spec fn spec_bytes(self) -> Seq<u8> {
        seq![self.type_]
            + seq![self.payload_size]
            + seq![self.sockets]
            + seq![self.channels]
            + seq![self.dimms]
            + seq![self.value]
    }
}

impl ByteLayout for SolderedDownSodimm {
    open spec fn spec_size() -> nat {
        6
    }

    open spec fn spec_to_bytes(self) -> Seq<u8> {
        self.spec_bytes()
    }

    fn size() -> (r: usize) {
        6
    }

    #[verifier::spinoff_prover]
    fn from_bytes(bytes: &[u8]) -> (r: Self) {
        let type_: u8 = bytes[0];
        let payload_size: u8 = bytes[1];
        let sockets: u8 = bytes[2];
        let channels: u8 = bytes[3];
        let dimms: u8 = bytes[4];
        let value: u8 = bytes[5];
        let r = SolderedDownSodimm { type_, payload_size, sockets, channels, dimms, value };
        proof {
            lemma_auto_spec_u16_to_from_le_bytes();
            lemma_auto_spec_u32_to_from_le_bytes();
            lemma_auto_spec_u64_to_from_le_bytes();
            lemma_soldered_down_sodimm_bytes_pieces(r);
            assert(bytes@.subrange(0, 2) =~= bytes@.subrange(0, 1) + bytes@.subrange(1, 2));
            assert(bytes@.subrange(0, 3) =~= bytes@.subrange(0, 2) + bytes@.subrange(2, 3));
            assert(bytes@.subrange(0, 4) =~= bytes@.subrange(0, 3) + bytes@.subrange(3, 4));
            assert(bytes@.subrange(0, 5) =~= bytes@.subrange(0, 4) + bytes@.subrange(4, 5));
            assert(bytes@.subrange(0, 6) =~= bytes@.subrange(0, 5) + bytes@.subrange(5, 6));
            assert(bytes@.subrange(0, 6) =~= bytes@);
            assert(bytes@ == r.spec_bytes());
        }
        r
    }

    #[verifier::spinoff_prover]
    fn to_bytes(&self) -> (r: Vec<u8>) {
        let mut out: Vec<u8> = Vec::new();
        out.push(self.type_);
        out.push(self.payload_size);
        out.push(self.sockets);
        out.push(self.channels);
        out.push(self.dimms);
        out.push(self.value);
        proof {
            lemma_soldered_down_sodimm_bytes_pieces(*self);
        }
        out
    }
}

/// How the bytes of a SolderedDownSodimm split up into its fields.
pub proof fn lemma_soldered_down_sodimm_bytes_pieces(x: SolderedDownSodimm)
    ensures
        x.spec_bytes().len() == 6,
        x.spec_bytes()[0] == x.spec_type_(),
        x.spec_bytes()[1] == x.spec_payload_size(),
        x.spec_bytes()[2] == x.spec_sockets(),
        x.spec_bytes()[3] == x.spec_channels(),
        x.spec_bytes()[4] == x.spec_dimms(),
        x.spec_bytes()[5] == x.spec_value(),
{
    lemma_auto_spec_u16_to_from_le_bytes();
    lemma_auto_spec_u32_to_from_le_bytes();
    lemma_auto_spec_u64_to_from_le_bytes();
}

/// Two values of SolderedDownSodimm with the same bytes are the same value.
#[verifier::spinoff_prover]
pub proof fn lemma_soldered_down_sodimm_bytes_injective(x: SolderedDownSodimm, y: SolderedDownSodimm)
    requires
        x.spec_bytes() == y.spec_bytes(),
    ensures
        x == y,
{
    lemma_soldered_down_sodimm_bytes_pieces(x);
    lemma_soldered_down_sodimm_bytes_pieces(y);
    lemma_auto_spec_u16_to_from_le_bytes();
    lemma_auto_spec_u32_to_from_le_bytes();
    lemma_auto_spec_u64_to_from_le_bytes();
    assert(x.type_ == y.type_);
    assert(x.payload_size == y.payload_size);
    assert(x.sockets == y.sockets);
    assert(x.channels == y.channels);
    assert(x.dimms == y.dimms);
    assert(x.value == y.value);
}

impl SolderedDownSodimm {
    /// The type tag of this override.
    pub const TAG: u16 = 15;
}

impl Default for SolderedDownSodimm {
    fn default() -> (r: Self)
        ensures
            r.spec_type_() == 15,
            r.spec_payload_size() == 4,
            r.spec_sockets() == 0xff,
            r.spec_channels() == 0xff,
            r.spec_dimms() == 0xff,
            r.spec_value() == 1,
    {
        SolderedDownSodimm { type_: 15, payload_size: 4, sockets: 0xff, channels: 0xff, dimms: 0xff, value: 1 }
    }
}

impl SolderedDownSodimm {
    /// An override for the given selection; the rest as in the default.
    pub fn new(sockets: SocketIds, channels: ChannelIds, dimms: DimmSlots) -> (e: Self)
        requires
            channels.spec_has_number(),
            dimms.spec_has_number(),
        ensures
            e.spec_sockets() == sockets.spec_raw(),
            e.spec_channels() == channels.spec_to_u64() as u8,
            e.spec_dimms() == dimms.spec_to_u64() as u8,
            e.spec_type_() == 15,
            e.spec_payload_size() == 4,
    {
        let mut result = Self::default();
        result.sockets = sockets.into_raw();
        result.channels = channels.to_u64().unwrap() as u8;
        result.dimms = dimms.to_u64().unwrap() as u8;
        result
    }
}

impl EntryCompatible for SolderedDownSodimm {
    fn is_entry_compatible(entry_id: EntryId, prefix: &[u8]) -> (r: bool)
        ensures
            r == (entry_id == EntryId::Memory(MemoryEntryId::PlatformSpecificOverride) && prefix@.len() >= 2
                && prefix@[0] == 15 && prefix@[1] + 2 == 6),
    {
        match entry_id {
            EntryId::Memory(MemoryEntryId::PlatformSpecificOverride) => {
                prefix.len() >= 2 && prefix[0] == 15 && prefix[1] as usize + 2 == 6
            },
            _ => false,
        }
    }

    fn skip_step(entry_id: EntryId, prefix: &[u8]) -> (r: Option<(u16, usize)>)
        ensures
            r == spec_tagged_skip_step(entry_id, prefix@),
    {
        tagged_skip_step(entry_id, prefix)
    }
}

impl ElementAsBytes for SolderedDownSodimm {
    fn element_as_bytes(&self) -> (r: Vec<u8>)
        ensures
            r@ == self.spec_to_bytes(),
    {
        self.to_bytes()
    }
}

impl SequenceElementAsBytes for SolderedDownSodimm {
    /// The bytes of this override, if its type and size fields are right and the entry is
    /// a platform-specific override entry.
    fn checked_as_bytes(&self, entry_id: EntryId) -> (r: Option<Vec<u8>>)
        ensures
            r is Some <==> (entry_id == EntryId::Memory(MemoryEntryId::PlatformSpecificOverride) && self.spec_type_() == 15
                && self.spec_payload_size() + 2 == 6),
            r matches Some(b) ==> b@ == self.spec_to_bytes(),
    {
        let blob = self.to_bytes();
        proof {
            lemma_soldered_down_sodimm_bytes_pieces(*self);
        }
        if Self::is_entry_compatible(entry_id, blob.as_slice()) {
            Some(blob)
        } else {
            None
        }
    }
}

/// Force 1.5 V for low-voltage DIMMs.
#[allow(non_camel_case_types)]
#[derive(Debug, Clone, Copy, PartialEq, Eq, Structural)]
pub struct LvDimmForce1V5 {
    pub(crate) type_: u8,
    pub(crate) payload_size: u8,
    pub(crate) sockets: u8,
    pub(crate) channels: u8,
    pub(crate) dimms: u8,
    pub(crate) value: u8,
}

impl LvDimmForce1V5 {
    pub closed spec fn spec_type_(self) -> u8 {
        self.type_
    }

    pub closed spec fn spec_payload_size(self) -> u8 {
        self.payload_size
    }

    pub closed spec fn spec_sockets(self) -> u8 {
        self.sockets
    }

    pub closed spec fn spec_channels(self) -> u8 {
        self.channels
    }

    pub closed spec fn spec_dimms(self) -> u8 {
        self.dimms
    }

    pub closed spec fn spec_value(self) -> u8 {
        self.value
    }

    pub fn type_(&self) -> (r: Result<u8>)
        ensures
            r == Ok::<u8, Error>(self.spec_type_()),
    {
        Ok(self.type_)
    }

    pub fn set_type_(&mut self, value: u8)
        ensures
            final(self).spec_type_() == value,
            final(self).spec_payload_size() == old(self).spec_payload_size(),
            final(self).spec_sockets() == old(self).spec_sockets(),
            final(self).spec_channels() == old(self).spec_channels(),
            final(self).spec_dimms() == old(self).spec_dimms(),
            final(self).spec_value() == old(self).spec_value(),
    {
        self.type_ = value;
    }

    pub fn sockets(&self) -> (r: Result<SocketIds>)
        ensures
            r is Ok <==> (self.spec_sockets() as u64) & !0xffu64 == 0,
            r matches Ok(b) ==> b.spec_raw() == self.spec_sockets(),
    {
        proof {
            if (self.sockets as u64) & !0xffu64 == 0 {
                lemma_masked_bound_u64(self.sockets as u64, 0xffu64);
            }
        }
        match SocketIds::from_u64(self.sockets as u64) {
            Some(b) => Ok(b),
            None => Err(Error::EntryTypeMismatch),
        }
    }

    pub fn set_sockets(&mut self, value: SocketIds)
        ensures
            final(self).spec_sockets() == value.spec_raw() as u8,
            final(self).spec_type_() == old(self).spec_type_(),
            final(self).spec_payload_size() == old(self).spec_payload_size(),
            final(self).spec_channels() == old(self).spec_channels(),
            final(self).spec_dimms() == old(self).spec_dimms(),
            final(self).spec_value() == old(self).spec_value(),
    {
        self.sockets = value.into_raw() as u8;
    }

    pub fn channels(&self) -> (r: Result<ChannelIds>)
        ensures
            r == match ChannelIds::spec_from_u64(self.spec_channels() as u64) {
                Some(e) => Ok::<ChannelIds, Error>(e),
                None => Err(Error::EntryTypeMismatch),
            },
    {
        match ChannelIds::from_u64(self.channels as u64) {
            Some(e) => Ok(e),
            None => Err(Error::EntryTypeMismatch),
        }
    }

    pub fn set_channels(&mut self, value: ChannelIds)
        requires
            value.spec_has_number(),
        ensures
            final(self).spec_channels() == value.spec_to_u64() as u8,
            final(self).spec_type_() == old(self).spec_type_(),
            final(self).spec_payload_size() == old(self).spec_payload_size(),
            final(self).spec_sockets() == old(self).spec_sockets(),
            final(self).spec_dimms() == old(self).spec_dimms(),
            final(self).spec_value() == old(self).spec_value(),
    {
        self.channels = value.to_u64().unwrap() as u8;
    }

    pub fn dimms(&self) -> (r: Result<DimmSlots>)
        ensures
            r == match DimmSlots::spec_from_u64(self.spec_dimms() as u64) {
                Some(e) => Ok::<DimmSlots, Error>(e),
                None => Err(Error::EntryTypeMismatch),
            },
    {
        match DimmSlots::from_u64(self.dimms as u64) {
            Some(e) => Ok(e),
            None => Err(Error::EntryTypeMismatch),
        }
    }

    pub fn set_dimms(&mut self, value: DimmSlots)
        requires
            value.spec_has_number(),
        ensures
            final(self).spec_dimms() == value.spec_to_u64() as u8,
            final(self).spec_type_() == old(self).spec_type_(),
            final(self).spec_payload_size() == old(self).spec_payload_size(),
            final(self).spec_sockets() == old(self).spec_sockets(),
            final(self).spec_channels() == old(self).spec_channels(),
            final(self).spec_value() == old(self).spec_value(),
    {
        self.dimms = value.to_u64().unwrap() as u8;
    }

    pub fn value(&self) -> (r: Result<u8>)
        ensures
            r == Ok::<u8, Error>(self.spec_value()),
    {
        Ok(self.value)
    }

    pub fn set_value(&mut self, value: u8)
        ensures
            final(self).spec_value() == value,
            final(self).spec_type_() == old(self).spec_type_(),
            final(self).spec_payload_size() == old(self).spec_payload_size(),
            final(self).spec_sockets() == old(self).spec_sockets(),
            final(self).spec_channels() == old(self).spec_channels(),
            final(self).spec_dimms() == old(self).spec_dimms(),
    {
        self.value = value;
    }

}

impl LvDimmForce1V5 {
    /// The bytes that store this value on disk.
    pub closed spec fn spec_bytes(self) -> Seq<u8> {
        seq![self.type_]
            + seq![self.payload_size]
            + seq![self.sockets]
            + seq![self.channels]
            + seq![self.dimms]
            + seq![self.value]
    }
}

impl ByteLayout for LvDimmForce1V5 {
    open spec fn spec_size() -> nat {
        6
    }

    open spec fn spec_to_bytes(self) -> Seq<u8> {
        self.spec_bytes()
    }

    fn size() -> (r: usize) {
        6
    }

    #[verifier::spinoff_prover]
    fn from_bytes(bytes: &[u8]) -> (r: Self) {
        let type_: u8 = bytes[0];
        let payload_size: u8 = bytes[1];
        let sockets: u8 = bytes[2];
        let channels: u8 = bytes[3];
        let dimms: u8 = bytes[4];
        let value: u8 = bytes[5];
        let r = LvDimmForce1V5 { type_, payload_size, sockets, channels, dimms, value };
        proof {
            lemma_auto_spec_u16_to_from_le_bytes();
            lemma_auto_spec_u32_to_from_le_bytes();
            lemma_auto_spec_u64_to_from_le_bytes();
            lemma_lv_dimm_force1v5_bytes_pieces(r);
            assert(bytes@.subrange(0, 2) =~= bytes@.subrange(0, 1) + bytes@.subrange(1, 2));
            assert(bytes@.subrange(0, 3) =~= bytes@.subrange(0, 2) + bytes@.subrange(2, 3));
            assert(bytes@.subrange(0, 4) =~= bytes@.subrange(0, 3) + bytes@.subrange(3, 4));
            assert(bytes@.subrange(0, 5) =~= bytes@.subrange(0, 4) + bytes@.subrange(4, 5));
            assert(bytes@.subrange(0, 6) =~= bytes@.subrange(0, 5) + bytes@.subrange(5, 6));
            assert(bytes@.subrange(0, 6) =~= bytes@);
            assert(bytes@ == r.spec_bytes());
        }
        r
    }

    #[verifier::spinoff_prover]
    fn to_bytes(&self) -> (r: Vec<u8>) {
        let mut out: Vec<u8> = Vec::new();
        out.push(self.type_);
        out.push(self.payload_size);
        out.push(self.sockets);
        out.push(self.channels);
        out.push(self.dimms);
        out.push(self.value);
        proof {
            lemma_lv_dimm_force1v5_bytes_pieces(*self);
        }
        out
    }
}

/// How the bytes of a LvDimmForce1V5 split up into its fields.
pub proof fn lemma_lv_dimm_force1v5_bytes_pieces(x: LvDimmForce1V5)
    ensures
        x.spec_bytes().len() == 6,
        x.spec_bytes()[0] == x.spec_type_(),
        x.spec_bytes()[1] == x.spec_payload_size(),
        x.spec_bytes()[2] == x.spec_sockets(),
        x.spec_bytes()[3] == x.spec_channels(),
        x.spec_bytes()[4] == x.spec_dimms(),
        x.spec_bytes()[5] == x.spec_value(),
{
    lemma_auto_spec_u16_to_from_le_bytes();
    lemma_auto_spec_u32_to_from_le_bytes();
    lemma_auto_spec_u64_to_from_le_bytes();
}

/// Two values of LvDimmForce1V5 with the same bytes are the same value.
#[verifier::spinoff_prover]
pub proof fn lemma_lv_dimm_force1v5_bytes_injective(x: LvDimmForce1V5, y: LvDimmForce1V5)
    requires
        x.spec_bytes() == y.spec_bytes(),
    ensures
        x == y,
{
    lemma_lv_dimm_force1v5_bytes_pieces(x);
    lemma_lv_dimm_force1v5_bytes_pieces(y);
    lemma_auto_spec_u16_to_from_le_bytes();
    lemma_auto_spec_u32_to_from_le_bytes();
    lemma_auto_spec_u64_to_from_le_bytes();
    assert(x.type_ == y.type_);
    assert(x.payload_size == y.payload_size);
    assert(x.sockets == y.sockets);
    assert(x.channels == y.channels);
    assert(x.dimms == y.dimms);
    assert(x.value == y.value);
}

impl LvDimmForce1V5 {
    /// The type tag of this override.
    pub const TAG: u16 = 16;
}

impl Default for LvDimmForce1V5 {
    fn default() -> (r: Self)
        ensures
            r.spec_type_() == 16,
            r.spec_payload_size() == 4,
            r.spec_sockets() == 0xff,
            r.spec_channels() == 0xff,
            r.spec_dimms() == 0xff,
            r.spec_value() == 1,
    {
        LvDimmForce1V5 { type_: 16, payload_size: 4, sockets: 0xff, channels: 0xff, dimms: 0xff, value: 1 }
    }
}

impl LvDimmForce1V5 {
    /// An override for the given selection; the rest as in the default.
    pub fn new(sockets: SocketIds, channels: ChannelIds, dimms: DimmSlots) -> (e: Self)
        requires
            channels.spec_has_number(),
            dimms.spec_has_number(),
        ensures
            e.spec_sockets() == sockets.spec_raw(),
            e.spec_channels() == channels.spec_to_u64() as u8,
            e.spec_dimms() == dimms.spec_to_u64() as u8,
            e.spec_type_() == 16,
            e.spec_payload_size() == 4,
    {
        let mut result = Self::default();
        result.sockets = sockets.into_raw();
        result.channels = channels.to_u64().unwrap() as u8;
        result.dimms = dimms.to_u64().unwrap() as u8;
        result
    }
}

impl EntryCompatible for LvDimmForce1V5 {
    fn is_entry_compatible(entry_id: EntryId, prefix: &[u8]) -> (r: bool)
        ensures
            r == (entry_id == EntryId::Memory(MemoryEntryId::PlatformSpecificOverride) && prefix@.len() >= 2
                && prefix@[0] == 16 && prefix@[1] + 2 == 6),
    {
        match entry_id {
            EntryId::Memory(MemoryEntryId::PlatformSpecificOverride) => {
                prefix.len() >= 2 && prefix[0] == 16 && prefix[1] as usize + 2 == 6
            },
            _ => false,
        }
    }

    fn skip_step(entry_id: EntryId, prefix: &[u8]) -> (r: Option<(u16, usize)>)
        ensures
            r == spec_tagged_skip_step(entry_id, prefix@),
    {
        tagged_skip_step(entry_id, prefix)
    }
}

impl ElementAsBytes for LvDimmForce1V5 {
    fn element_as_bytes(&self) -> (r: Vec<u8>)
        ensures
            r@ == self.spec_to_bytes(),
    {
        self.to_bytes()
    }
}

impl SequenceElementAsBytes for LvDimmForce1V5 {
    /// The bytes of this override, if its type and size fields are right and the entry is
    /// a platform-specific override entry.
    fn checked_as_bytes(&self, entry_id: EntryId) -> (r: Option<Vec<u8>>)
        ensures
            r is Some <==> (entry_id == EntryId::Memory(MemoryEntryId::PlatformSpecificOverride) && self.spec_type_() == 16
                && self.spec_payload_size() + 2 == 6),
            r matches Some(b) ==> b@ == self.spec_to_bytes(),
    {
        let blob = self.to_bytes();
        proof {
            lemma_lv_dimm_force1v5_bytes_pieces(*self);
        }
        if Self::is_entry_compatible(entry_id, blob.as_slice()) {
            Some(blob)
        } else {
            None
        }
    }
}

/// The minimum read and write data eye widths.
#[allow(non_camel_case_types)]
#[derive(Debug, Clone, Copy, PartialEq, Eq, Structural)]
pub struct MinimumRwDataEyeWidth {
    pub(crate) type_: u8,
    pub(crate) payload_size: u8,
    pub(crate) sockets: u8,
    pub(crate) channels: u8,
    pub(crate) dimms: u8,
    pub(crate) min_read_data_eye_width: u8,
    pub(crate) min_write_data_eye_width: u8,
}

impl MinimumRwDataEyeWidth {
    pub closed spec fn spec_type_(self) -> u8 {
        self.type_
    }

    pub closed spec fn spec_payload_size(self) -> u8 {
        self.payload_size
    }

    pub closed spec fn spec_sockets(self) -> u8 {
        self.sockets
    }

    pub closed spec fn spec_channels(self) -> u8 {
        self.channels
    }

    pub closed spec fn spec_dimms(self) -> u8 {
        self.dimms
    }

    pub closed spec fn spec_min_read_data_eye_width(self) -> u8 {
        self.min_read_data_eye_width
    }

    pub closed spec fn spec_min_write_data_eye_width(self) -> u8 {
        self.min_write_data_eye_width
    }

    pub fn type_(&self) -> (r: Result<u8>)
        ensures
            r == Ok::<u8, Error>(self.spec_type_()),
    {
        Ok(self.type_)
    }

    pub fn set_type_(&mut self, value: u8)
        ensures
            final(self).spec_type_() == value,
            final(self).spec_payload_size() == old(self).spec_payload_size(),
            final(self).spec_sockets() == old(self).spec_sockets(),
            final(self).spec_channels() == old(self).spec_channels(),
            final(self).spec_dimms() == old(self).spec_dimms(),
            final(self).spec_min_read_data_eye_width() == old(self).spec_min_read_data_eye_width(),
            final(self).spec_min_write_data_eye_width() == old(self).spec_min_write_data_eye_width(),
    {
        self.type_ = value;
    }

    pub fn sockets(&self) -> (r: Result<SocketIds>)
        ensures
            r is Ok <==> (self.spec_sockets() as u64) & !0xffu64 == 0,
            r matches Ok(b) ==> b.spec_raw() == self.spec_sockets(),
    {
        proof {
            if (self.sockets as u64) & !0xffu64 == 0 {
                lemma_masked_bound_u64(self.sockets as u64, 0xffu64);
            }
        }
        match SocketIds::from_u64(self.sockets as u64) {
            Some(b) => Ok(b),
            None => Err(Error::EntryTypeMismatch),
        }
    }

    pub fn set_sockets(&mut self, value: SocketIds)
        ensures
            final(self).spec_sockets() == value.spec_raw() as u8,
            final(self).spec_type_() == old(self).spec_type_(),
            final(self).spec_payload_size() == old(self).spec_payload_size(),
            final(self).spec_channels() == old(self).spec_channels(),
            final(self).spec_dimms() == old(self).spec_dimms(),
            final(self).spec_min_read_data_eye_width() == old(self).spec_min_read_data_eye_width(),
            final(self).spec_min_write_data_eye_width() == old(self).spec_min_write_data_eye_width(),
    {
        self.sockets = value.into_raw() as u8;
    }

    pub fn channels(&self) -> (r: Result<ChannelIds>)
        ensures
            r == match ChannelIds::spec_from_u64(self.spec_channels() as u64) {
                Some(e) => Ok::<ChannelIds, Error>(e),
                None => Err(Error::EntryTypeMismatch),
            },
    {
        match ChannelIds::from_u64(self.channels as u64) {
            Some(e) => Ok(e),
            None => Err(Error::EntryTypeMismatch),
        }
    }

    pub fn set_channels(&mut self, value: ChannelIds)
        requires
            value.spec_has_number(),
        ensures
            final(self).spec_channels() == value.spec_to_u64() as u8,
            final(self).spec_type_() == old(self).spec_type_(),
            final(self).spec_payload_size() == old(self).spec_payload_size(),
            final(self).spec_sockets() == old(self).spec_sockets(),
            final(self).spec_dimms() == old(self).spec_dimms(),
            final(self).spec_min_read_data_eye_width() == old(self).spec_min_read_data_eye_width(),
            final(self).spec_min_write_data_eye_width() == old(self).spec_min_write_data_eye_width(),
    {
        self.channels = value.to_u64().unwrap() as u8;
    }

    pub fn dimms(&self) -> (r: Result<DimmSlots>)
        ensures
            r == match DimmSlots::spec_from_u64(self.spec_dimms() as u64) {
                Some(e) => Ok::<DimmSlots, Error>(e),
                None => Err(Error::EntryTypeMismatch),
            },
    {
        match DimmSlots::from_u64(self.dimms as u64) {
            Some(e) => Ok(e),
            None => Err(Error::EntryTypeMismatch),
        }
    }

    pub fn set_dimms(&mut self, value: DimmSlots)
        requires
            value.spec_has_number(),
        ensures
            final(self).spec_dimms() == value.spec_to_u64() as u8,
            final(self).spec_type_() == old(self).spec_type_(),
            final(self).spec_payload_size() == old(self).spec_payload_size(),
            final(self).spec_sockets() == old(self).spec_sockets(),
            final(self).spec_channels() == old(self).spec_channels(),
            final(self).spec_min_read_data_eye_width() == old(self).spec_min_read_data_eye_width(),
            final(self).spec_min_write_data_eye_width() == old(self).spec_min_write_data_eye_width(),
    {
        self.dimms = value.to_u64().unwrap() as u8;
    }

    pub fn min_read_data_eye_width(&self) -> (r: Result<u8>)
        ensures
            r == Ok::<u8, Error>(self.spec_min_read_data_eye_width()),
    {
        Ok(self.min_read_data_eye_width)
    }

    pub fn set_min_read_data_eye_width(&mut self, value: u8)
        ensures
            final(self).spec_min_read_data_eye_width() == value,
            final(self).spec_type_() == old(self).spec_type_(),
            final(self).spec_payload_size() == old(self).spec_payload_size(),
            final(self).spec_sockets() == old(self).spec_sockets(),
            final(self).spec_channels() == old(self).spec_channels(),
            final(self).spec_dimms() == old(self).spec_dimms(),
            final(self).spec_min_write_data_eye_width() == old(self).spec_min_write_data_eye_width(),
    {
        self.min_read_data_eye_width = value;
    }

    pub fn min_write_data_eye_width(&self) -> (r: Result<u8>)
        ensures
            r == Ok::<u8, Error>(self.spec_min_write_data_eye_width()),
    {
        Ok(self.min_write_data_eye_width)
    }

    pub fn set_min_write_data_eye_width(&mut self, value: u8)
        ensures
            final(self).spec_min_write_data_eye_width() == value,
            final(self).spec_type_() == old(self).spec_type_(),
            final(self).spec_payload_size() == old(self).spec_payload_size(),
            final(self).spec_sockets() == old(self).spec_sockets(),
            final(self).spec_channels() == old(self).spec_channels(),
            final(self).spec_dimms() == old(self).spec_dimms(),
            final(self).spec_min_read_data_eye_width() == old(self).spec_min_read_data_eye_width(),
    {
        self.min_write_data_eye_width = value;
    }

}

impl MinimumRwDataEyeWidth {
    /// The bytes that store this value on disk.
    pub closed spec fn spec_bytes(self) -> Seq<u8> {
        seq![self.type_]
            + seq![self.payload_size]
            + seq![self.sockets]
            + seq![self.channels]
            + seq![self.dimms]
            + seq![self.min_read_data_eye_width]
            + seq![self.min_write_data_eye_width]
    }
}

impl ByteLayout for MinimumRwDataEyeWidth {
    open spec fn spec_size() -> nat {
        7
    }

    open spec fn spec_to_bytes(self) -> Seq<u8> {
        self.spec_bytes()
    }

    fn size() -> (r: usize) {
        7
    }

    #[verifier::spinoff_prover]
    fn from_bytes(bytes: &[u8]) -> (r: Self) {
        let type_: u8 = bytes[0];
        let payload_size: u8 = bytes[1];
        let sockets: u8 = bytes[2];
        let channels: u8 = bytes[3];
        let dimms: u8 = bytes[4];
        let min_read_data_eye_width: u8 = bytes[5];
        let min_write_data_eye_width: u8 = bytes[6];
        let r = MinimumRwDataEyeWidth { type_, payload_size, sockets, channels, dimms, min_read_data_eye_width, min_write_data_eye_width };
        proof {
            lemma_auto_spec_u16_to_from_le_bytes();
            lemma_auto_spec_u32_to_from_le_bytes();
            lemma_auto_spec_u64_to_from_le_bytes();
            lemma_minimum_rw_data_eye_width_bytes_pieces(r);
            assert(bytes@.subrange(0, 2) =~= bytes@.subrange(0, 1) + bytes@.subrange(1, 2));
            assert(bytes@.subrange(0, 3) =~= bytes@.subrange(0, 2) + bytes@.subrange(2, 3));
            assert(bytes@.subrange(0, 4) =~= bytes@.subrange(0, 3) + bytes@.subrange(3, 4));
            assert(bytes@.subrange(0, 5) =~= bytes@.subrange(0, 4) + bytes@.subrange(4, 5));
            assert(bytes@.subrange(0, 6) =~= bytes@.subrange(0, 5) + bytes@.subrange(5, 6));
            assert(bytes@.subrange(0, 7) =~= bytes@.subrange(0, 6) + bytes@.subrange(6, 7));
            assert(bytes@.subrange(0, 7) =~= bytes@);
            assert(bytes@ == r.spec_bytes());
        }
        r
    }

    #[verifier::spinoff_prover]
    fn to_bytes(&self) -> (r: Vec<u8>) {
        let mut out: Vec<u8> = Vec::new();
        out.push(self.type_);
        out.push(self.payload_size);
        out.push(self.sockets);
        out.push(self.channels);
        out.push(self.dimms);
        out.push(self.min_read_data_eye_width);
        out.push(self.min_write_data_eye_width);
        proof {
            lemma_minimum_rw_data_eye_width_bytes_pieces(*self);
        }
        out
    }
}

/// How the bytes of a MinimumRwDataEyeWidth split up into its fields.
pub proof fn lemma_minimum_rw_data_eye_width_bytes_pieces(x: MinimumRwDataEyeWidth)
    ensures
        x.spec_bytes().len() == 7,
        x.spec_bytes()[0] == x.spec_type_(),
        x.spec_bytes()[1] == x.spec_payload_size(),
        x.spec_bytes()[2] == x.spec_sockets(),
        x.spec_bytes()[3] == x.spec_channels(),
        x.spec_bytes()[4] == x.spec_dimms(),
        x.spec_bytes()[5] == x.spec_min_read_data_eye_width(),
        x.spec_bytes()[6] == x.spec_min_write_data_eye_width(),
{
    lemma_auto_spec_u16_to_from_le_bytes();
    lemma_auto_spec_u32_to_from_le_bytes();
    lemma_auto_spec_u64_to_from_le_bytes();
}

/// Two values of MinimumRwDataEyeWidth with the same bytes are the same value.
#[verifier::spinoff_prover]
pub proof fn lemma_minimum_rw_data_eye_width_bytes_injective(x: MinimumRwDataEyeWidth, y: MinimumRwDataEyeWidth)
    requires
        x.spec_bytes() == y.spec_bytes(),
    ensures
        x == y,
{
    lemma_minimum_rw_data_eye_width_bytes_pieces(x);
    lemma_minimum_rw_data_eye_width_bytes_pieces(y);
    lemma_auto_spec_u16_to_from_le_bytes();
    lemma_auto_spec_u32_to_from_le_bytes();
    lemma_auto_spec_u64_to_from_le_bytes();
    assert(x.type_ == y.type_);
    assert(x.payload_size == y.payload_size);
    assert(x.sockets == y.sockets);
    assert(x.channels == y.channels);
    assert(x.dimms == y.dimms);
    assert(x.min_read_data_eye_width == y.min_read_data_eye_width);
    assert(x.min_write_data_eye_width == y.min_write_data_eye_width);
}

impl MinimumRwDataEyeWidth {
    /// The type tag of this override.
    pub const TAG: u16 = 17;
}

impl Default for MinimumRwDataEyeWidth {
    fn default() -> (r: Self)
        ensures
            r.spec_type_() == 17,
            r.spec_payload_size() == 5,
            r.spec_sockets() == 0xff,
            r.spec_channels() == 0xff,
            r.spec_dimms() == 0xff,
            r.spec_min_read_data_eye_width() == 0,
            r.spec_min_write_data_eye_width() == 0,
    {
        MinimumRwDataEyeWidth { type_: 17, payload_size: 5, sockets: 0xff, channels: 0xff, dimms: 0xff, min_read_data_eye_width: 0, min_write_data_eye_width: 0 }
    }
}

impl MinimumRwDataEyeWidth {
    /// An override for the given selection; the rest as in the default.
    pub fn new(sockets: SocketIds, channels: ChannelIds, dimms: DimmSlots, min_read_data_eye_width: u8, min_write_data_eye_width: u8) -> (e: Self)
        requires
            channels.spec_has_number(),
            dimms.spec_has_number(),
        ensures
            e.spec_sockets() == sockets.spec_raw(),
            e.spec_channels() == channels.spec_to_u64() as u8,
            e.spec_dimms() == dimms.spec_to_u64() as u8,
            e.spec_min_read_data_eye_width() == min_read_data_eye_width,
            e.spec_min_write_data_eye_width() == min_write_data_eye_width,
            e.spec_type_() == 17,
            e.spec_payload_size() == 5,
    {
        let mut result = Self::default();
        result.sockets = sockets.into_raw();
        result.channels = channels.to_u64().unwrap() as u8;
        result.dimms = dimms.to_u64().unwrap() as u8;
        result.min_read_data_eye_width = min_read_data_eye_width;
        result.min_write_data_eye_width = min_write_data_eye_width;
        result
    }
}

impl EntryCompatible for MinimumRwDataEyeWidth {
    fn is_entry_compatible(entry_id: EntryId, prefix: &[u8]) -> (r: bool)
        ensures
            r == (entry_id == EntryId::Memory(MemoryEntryId::PlatformSpecificOverride) && prefix@.len() >= 2
                && prefix@[0] == 17 && prefix@[1] + 2 == 7),
    {
        match entry_id {
            EntryId::Memory(MemoryEntryId::PlatformSpecificOverride) => {
                prefix.len() >= 2 && prefix[0] == 17 && prefix[1] as usize + 2 == 7
            },
            _ => false,
        }
    }

    fn skip_step(entry_id: EntryId, prefix: &[u8]) -> (r: Option<(u16, usize)>)
        ensures
            r == spec_tagged_skip_step(entry_id, prefix@),
    {
        tagged_skip_step(entry_id, prefix)
    }
}

impl ElementAsBytes for MinimumRwDataEyeWidth {
    fn element_as_bytes(&self) -> (r: Vec<u8>)
        ensures
            r@ == self.spec_to_bytes(),
    {
        self.to_bytes()
    }
}

impl SequenceElementAsBytes for MinimumRwDataEyeWidth {
    /// The bytes of this override, if its type and size fields are right and the entry is
    /// a platform-specific override entry.
    fn checked_as_bytes(&self, entry_id: EntryId) -> (r: Option<Vec<u8>>)
        ensures
            r is Some <==> (entry_id == EntryId::Memory(MemoryEntryId::PlatformSpecificOverride) && self.spec_type_() == 17
                && self.spec_payload_size() + 2 == 7),
            r matches Some(b) ==> b@ == self.spec_to_bytes(),
    {
        let blob = self.to_bytes();
        proof {
            lemma_minimum_rw_data_eye_width_bytes_pieces(*self);
        }
        if Self::is_entry_compatible(entry_id, blob.as_slice()) {
            Some(blob)
        } else {
            None
        }
    }
}

/// The CPU family and revision that the following overrides apply to.
#[allow(non_camel_case_types)]
#[derive(Debug, Clone, Copy, PartialEq, Eq, Structural)]
pub struct CpuFamilyFilter {
    pub(crate) type_: u8,
    pub(crate) payload_size: u8,
    pub(crate) cpu_family_revision: u32,
}

impl CpuFamilyFilter {
    pub closed spec fn spec_type_(self) -> u8 {
        self.type_
    }

    pub closed spec fn spec_payload_size(self) -> u8 {
        self.payload_size
    }

    pub closed spec fn spec_cpu_family_revision(self) -> u32 {
        self.cpu_family_revision
    }

    pub fn type_(&self) -> (r: Result<u8>)
        ensures
            r == Ok::<u8, Error>(self.spec_type_()),
    {
        Ok(self.type_)
    }

    pub fn set_type_(&mut self, value: u8)
        ensures
            final(self).spec_type_() == value,
            final(self).spec_payload_size() == old(self).spec_payload_size(),
            final(self).spec_cpu_family_revision() == old(self).spec_cpu_family_revision(),
    {
        self.type_ = value;
    }

    pub fn cpu_family_revision(&self) -> (r: Result<u32>)
        ensures
            r == Ok::<u32, Error>(self.spec_cpu_family_revision()),
    {
        Ok(self.cpu_family_revision)
    }

    pub fn set_cpu_family_revision(&mut self, value: u32)
        ensures
            final(self).spec_cpu_family_revision() == value,
            final(self).spec_type_() == old(self).spec_type_(),
            final(self).spec_payload_size() == old(self).spec_payload_size(),
    {
        self.cpu_family_revision = value;
    }

}

impl CpuFamilyFilter {
    /// The bytes that store this value on disk.
    pub closed spec fn spec_bytes(self) -> Seq<u8> {
        seq![self.type_]
            + seq![self.payload_size]
            + spec_u32_to_le_bytes(self.cpu_family_revision)
    }
}

impl ByteLayout for CpuFamilyFilter {
    open spec fn spec_size() -> nat {
        6
    }

    open spec fn spec_to_bytes(self) -> Seq<u8> {
        self.spec_bytes()
    }

    fn size() -> (r: usize) {
        6
    }

    #[verifier::spinoff_prover]
    fn from_bytes(bytes: &[u8]) -> (r: Self) {
        let type_: u8 = bytes[0];
        let payload_size: u8 = bytes[1];
        let cpu_family_revision: u32 = u32_from_le_bytes(slice_subrange(bytes, 2, 6));
        let r = CpuFamilyFilter { type_, payload_size, cpu_family_revision };
        proof {
            lemma_auto_spec_u16_to_from_le_bytes();
            lemma_auto_spec_u32_to_from_le_bytes();
            lemma_auto_spec_u64_to_from_le_bytes();
            lemma_cpu_family_filter_bytes_pieces(r);
            assert(bytes@.subrange(2, 6) == spec_u32_to_le_bytes(cpu_family_revision));
            assert(bytes@.subrange(0, 2) =~= bytes@.subrange(0, 1) + bytes@.subrange(1, 2));
            assert(bytes@.subrange(0, 6) =~= bytes@.subrange(0, 2) + bytes@.subrange(2, 6));
            assert(bytes@.subrange(0, 6) =~= bytes@);
            assert(bytes@ == r.spec_bytes());
        }
        r
    }

    #[verifier::spinoff_prover]
    fn to_bytes(&self) -> (r: Vec<u8>) {
        let mut out: Vec<u8> = Vec::new();
        out.push(self.type_);
        out.push(self.payload_size);
        append_bytes(&mut out, &le_bytes_u32(self.cpu_family_revision));
        proof {
            lemma_cpu_family_filter_bytes_pieces(*self);
        }
        out
    }
}

/// How the bytes of a CpuFamilyFilter split up into its fields.
pub proof fn lemma_cpu_family_filter_bytes_pieces(x: CpuFamilyFilter)
    ensures
        x.spec_bytes().len() == 6,
        x.spec_bytes()[0] == x.spec_type_(),
        x.spec_bytes()[1] == x.spec_payload_size(),
        x.spec_bytes().subrange(2, 6) == spec_u32_to_le_bytes(x.spec_cpu_family_revision()),
{
    lemma_auto_spec_u16_to_from_le_bytes();
    lemma_auto_spec_u32_to_from_le_bytes();
    lemma_auto_spec_u64_to_from_le_bytes();
    assert(x.spec_bytes().subrange(2, 6) == spec_u32_to_le_bytes(x.cpu_family_revision));
}

/// Two values of CpuFamilyFilter with the same bytes are the same value.
#[verifier::spinoff_prover]
pub proof fn lemma_cpu_family_filter_bytes_injective(x: CpuFamilyFilter, y: CpuFamilyFilter)
    requires
        x.spec_bytes() == y.spec_bytes(),
    ensures
        x == y,
{
    lemma_cpu_family_filter_bytes_pieces(x);
    lemma_cpu_family_filter_bytes_pieces(y);
    lemma_auto_spec_u16_to_from_le_bytes();
    lemma_auto_spec_u32_to_from_le_bytes();
    lemma_auto_spec_u64_to_from_le_bytes();
    assert(x.type_ == y.type_);
    assert(x.payload_size == y.payload_size);
    assert(spec_u32_from_le_bytes(spec_u32_to_le_bytes(x.cpu_family_revision)) == spec_u32_from_le_bytes(spec_u32_to_le_bytes(y.cpu_family_revision)));
}

impl CpuFamilyFilter {
    /// The type tag of this override.
    pub const TAG: u16 = 18;
}

impl Default for CpuFamilyFilter {
    fn default() -> (r: Self)
        ensures
            r.spec_type_() == 18,
            r.spec_payload_size() == 4,
            r.spec_cpu_family_revision() == 0,
    {
        CpuFamilyFilter { type_: 18, payload_size: 4, cpu_family_revision: 0 }
    }
}

impl CpuFamilyFilter {
    /// An override for the given selection; the rest as in the default.
    pub fn new(cpu_family_revision: u32) -> (e: Self)
        ensures
            e.spec_cpu_family_revision() == cpu_family_revision,
            e.spec_type_() == 18,
            e.spec_payload_size() == 4,
    {
        let mut result = Self::default();
        result.cpu_family_revision = cpu_family_revision;
        result
    }
}

impl EntryCompatible for CpuFamilyFilter {
    fn is_entry_compatible(entry_id: EntryId, prefix: &[u8]) -> (r: bool)
        ensures
            r == (entry_id == EntryId::Memory(MemoryEntryId::PlatformSpecificOverride) && prefix@.len() >= 2
                && prefix@[0] == 18 && prefix@[1] + 2 == 6),
    {
        match entry_id {
            EntryId::Memory(MemoryEntryId::PlatformSpecificOverride) => {
                prefix.len() >= 2 && prefix[0] == 18 && prefix[1] as usize + 2 == 6
            },
            _ => false,
        }
    }

    fn skip_step(entry_id: EntryId, prefix: &[u8]) -> (r: Option<(u16, usize)>)
        ensures
            r == spec_tagged_skip_step(entry_id, prefix@),
    {
        tagged_skip_step(entry_id, prefix)
    }
}

impl ElementAsBytes for CpuFamilyFilter {
    fn element_as_bytes(&self) -> (r: Vec<u8>)
        ensures
            r@ == self.spec_to_bytes(),
    {
        self.to_bytes()
    }
}

impl SequenceElementAsBytes for CpuFamilyFilter {
    /// The bytes of this override, if its type and size fields are right and the entry is
    /// a platform-specific override entry.
    fn checked_as_bytes(&self, entry_id: EntryId) -> (r: Option<Vec<u8>>)
        ensures
            r is Some <==> (entry_id == EntryId::Memory(MemoryEntryId::PlatformSpecificOverride) && self.spec_type_() == 18
                && self.spec_payload_size() + 2 == 6),
            r matches Some(b) ==> b@ == self.spec_to_bytes(),
    {
        let blob = self.to_bytes();
        proof {
            lemma_cpu_family_filter_bytes_pieces(*self);
        }
        if Self::is_entry_compatible(entry_id, blob.as_slice()) {
            Some(blob)
        } else {
            None
        }
    }
}

/// The number of soldered-down DIMMs per channel.
#[allow(non_camel_case_types)]
#[derive(Debug, Clone, Copy, PartialEq, Eq, Structural)]
pub struct SolderedDownDimmsPerChannel {
    pub(crate) type_: u8,
    pub(crate) payload_size: u8,
    pub(crate) sockets: u8,
    pub(crate) channels: u8,
    pub(crate) dimms: u8,
    pub(crate) value: u8,
}

impl SolderedDownDimmsPerChannel {
    pub closed spec fn spec_type_(self) -> u8 {
        self.type_
    }

    pub closed spec fn spec_payload_size(self) -> u8 {
        self.payload_size
    }

    pub closed spec fn spec_sockets(self) -> u8 {
        self.sockets
    }

    pub closed spec fn spec_channels(self) -> u8 {
        self.channels
    }

    pub closed spec fn spec_dimms(self) -> u8 {
        self.dimms
    }

    pub closed spec fn spec_value(self) -> u8 {
        self.value
    }

    pub fn type_(&self) -> (r: Result<u8>)
        ensures
            r == Ok::<u8, Error>(self.spec_type_()),
    {
        Ok(self.type_)
    }

    pub fn set_type_(&mut self, value: u8)
        ensures
            final(self).spec_type_() == value,
            final(self).spec_payload_size() == old(self).spec_payload_size(),
            final(self).spec_sockets() == old(self).spec_sockets(),
            final(self).spec_channels() == old(self).spec_channels(),
            final(self).spec_dimms() == old(self).spec_dimms(),
            final(self).spec_value() == old(self).spec_value(),
    {
        self.type_ = value;
    }

    pub fn sockets(&self) -> (r: Result<SocketIds>)
        ensures
            r is Ok <==> (self.spec_sockets() as u64) & !0xffu64 == 0,
            r matches Ok(b) ==> b.spec_raw() == self.spec_sockets(),
    {
        proof {
            if (self.sockets as u64) & !0xffu64 == 0 {
                lemma_masked_bound_u64(self.sockets as u64, 0xffu64);
            }
        }
        match SocketIds::from_u64(self.sockets as u64) {
            Some(b) => Ok(b),
            None => Err(Error::EntryTypeMismatch),
        }
    }

    pub fn set_sockets(&mut self, value: SocketIds)
        ensures
            final(self).spec_sockets() == value.spec_raw() as u8,
            final(self).spec_type_() == old(self).spec_type_(),
            final(self).spec_payload_size() == old(self).spec_payload_size(),
            final(self).spec_channels() == old(self).spec_channels(),
            final(self).spec_dimms() == old(self).spec_dimms(),
            final(self).spec_value() == old(self).spec_value(),
    {
        self.sockets = value.into_raw() as u8;
    }

    pub fn channels(&self) -> (r: Result<ChannelIds>)
        ensures
            r == match ChannelIds::spec_from_u64(self.spec_channels() as u64) {
                Some(e) => Ok::<ChannelIds, Error>(e),
                None => Err(Error::EntryTypeMismatch),
            },
    {
        match ChannelIds::from_u64(self.channels as u64) {
            Some(e) => Ok(e),
            None => Err(Error::EntryTypeMismatch),
        }
    }

    pub fn set_channels(&mut self, value: ChannelIds)
        requires
            value.spec_has_number(),
        ensures
            final(self).spec_channels() == value.spec_to_u64() as u8,
            final(self).spec_type_() == old(self).spec_type_(),
            final(self).spec_payload_size() == old(self).spec_payload_size(),
            final(self).spec_sockets() == old(self).spec_sockets(),
            final(self).spec_dimms() == old(self).spec_dimms(),
            final(self).spec_value() == old(self).spec_value(),
    {
        self.channels = value.to_u64().unwrap() as u8;
    }

    pub fn dimms(&self) -> (r: Result<DimmSlots>)
        ensures
            r == match DimmSlots::spec_from_u64(self.spec_dimms() as u64) {
                Some(e) => Ok::<DimmSlots, Error>(e),
                None => Err(Error::EntryTypeMismatch),
            },
    {
        match DimmSlots::from_u64(self.dimms as u64) {
            Some(e) => Ok(e),
            None => Err(Error::EntryTypeMismatch),
        }
    }

    pub fn set_dimms(&mut self, value: DimmSlots)
        requires
            value.spec_has_number(),
        ensures
            final(self).spec_dimms() == value.spec_to_u64() as u8,
            final(self).spec_type_() == old(self).spec_type_(),
            final(self).spec_payload_size() == old(self).spec_payload_size(),
            final(self).spec_sockets() == old(self).spec_sockets(),
            final(self).spec_channels() == old(self).spec_channels(),
            final(self).spec_value() == old(self).spec_value(),
    {
        self.dimms = value.to_u64().unwrap() as u8;
    }

    pub fn value(&self) -> (r: Result<u8>)
        ensures
            r == Ok::<u8, Error>(self.spec_value()),
    {
        Ok(self.value)
    }

    pub fn set_value(&mut self, value: u8)
        ensures
            final(self).spec_value() == value,
            final(self).spec_type_() == old(self).spec_type_(),
            final(self).spec_payload_size() == old(self).spec_payload_size(),
            final(self).spec_sockets() == old(self).spec_sockets(),
            final(self).spec_channels() == old(self).spec_channels(),
            final(self).spec_dimms() == old(self).spec_dimms(),
    {
        self.value = value;
    }

}

impl SolderedDownDimmsPerChannel {
    /// The bytes that store this value on disk.
    pub closed spec fn spec_bytes(self) -> Seq<u8> {
        seq![self.type_]
            + seq![self.payload_size]
            + seq![self.sockets]
            + seq![self.channels]
            + seq![self.dimms]
            + seq![self.value]
    }
}

impl ByteLayout for SolderedDownDimmsPerChannel {
    open spec fn spec_size() -> nat {
        6
    }

    open spec fn spec_to_bytes(self) -> Seq<u8> {
        self.spec_bytes()
    }

    fn size() -> (r: usize) {
        6
    }

    #[verifier::spinoff_prover]
    fn from_bytes(bytes: &[u8]) -> (r: Self) {
        let type_: u8 = bytes[0];
        let payload_size: u8 = bytes[1];
        let sockets: u8 = bytes[2];
        let channels: u8 = bytes[3];
        let dimms: u8 = bytes[4];
        let value: u8 = bytes[5];
        let r = SolderedDownDimmsPerChannel { type_, payload_size, sockets, channels, dimms, value };
        proof {
            lemma_auto_spec_u16_to_from_le_bytes();
            lemma_auto_spec_u32_to_from_le_bytes();
            lemma_auto_spec_u64_to_from_le_bytes();
            lemma_soldered_down_dimms_per_channel_bytes_pieces(r);
            assert(bytes@.subrange(0, 2) =~= bytes@.subrange(0, 1) + bytes@.subrange(1, 2));
            assert(bytes@.subrange(0, 3) =~= bytes@.subrange(0, 2) + bytes@.subrange(2, 3));
            assert(bytes@.subrange(0, 4) =~= bytes@.subrange(0, 3) + bytes@.subrange(3, 4));
            assert(bytes@.subrange(0, 5) =~= bytes@.subrange(0, 4) + bytes@.subrange(4, 5));
            assert(bytes@.subrange(0, 6) =~= bytes@.subrange(0, 5) + bytes@.subrange(5, 6));
            assert(bytes@.subrange(0, 6) =~= bytes@);
            assert(bytes@ == r.spec_bytes());
        }
        r
    }

    #[verifier::spinoff_prover]
    fn to_bytes(&self) -> (r: Vec<u8>) {
        let mut out: Vec<u8> = Vec::new();
        out.push(self.type_);
        out.push(self.payload_size);
        out.push(self.sockets);
        out.push(self.channels);
        out.push(self.dimms);
        out.push(self.value);
        proof {
            lemma_soldered_down_dimms_per_channel_bytes_pieces(*self);
        }
        out
    }
}

/// How the bytes of a SolderedDownDimmsPerChannel split up into its fields.
pub proof fn lemma_soldered_down_dimms_per_channel_bytes_pieces(x: SolderedDownDimmsPerChannel)
    ensures
        x.spec_bytes().len() == 6,
        x.spec_bytes()[0] == x.spec_type_(),
        x.spec_bytes()[1] == x.spec_payload_size(),
        x.spec_bytes()[2] == x.spec_sockets(),
        x.spec_bytes()[3] == x.spec_channels(),
        x.spec_bytes()[4] == x.spec_dimms(),
        x.spec_bytes()[5] == x.spec_value(),
{
    lemma_auto_spec_u16_to_from_le_bytes();
    lemma_auto_spec_u32_to_from_le_bytes();
    lemma_auto_spec_u64_to_from_le_bytes();
}

/// Two values of SolderedDownDimmsPerChannel with the same bytes are the same value.
#[verifier::spinoff_prover]
pub proof fn lemma_soldered_down_dimms_per_channel_bytes_injective(x: SolderedDownDimmsPerChannel, y: SolderedDownDimmsPerChannel)
    requires
        x.spec_bytes() == y.spec_bytes(),
    ensures
        x == y,
{
    lemma_soldered_down_dimms_per_channel_bytes_pieces(x);
    lemma_soldered_down_dimms_per_channel_bytes_pieces(y);
    lemma_auto_spec_u16_to_from_le_bytes();
    lemma_auto_spec_u32_to_from_le_bytes();
    lemma_auto_spec_u64_to_from_le_bytes();
    assert(x.type_ == y.type_);
    assert(x.payload_size == y.payload_size);
    assert(x.sockets == y.sockets);
    assert(x.channels == y.channels);
    assert(x.dimms == y.dimms);
    assert(x.value == y.value);
}

impl SolderedDownDimmsPerChannel {
    /// The type tag of this override.
    pub const TAG: u16 = 19;
}

impl Default for SolderedDownDimmsPerChannel {
    fn default() -> (r: Self)
        ensures
            r.spec_type_() == 19,
            r.spec_payload_size() == 4,
            r.spec_sockets() == 0xff,
            r.spec_channels() == 0xff,
            r.spec_dimms() == 0xff,
            r.spec_value() == 0,
    {
        SolderedDownDimmsPerChannel { type_: 19, payload_size: 4, sockets: 0xff, channels: 0xff, dimms: 0xff, value: 0 }
    }
}

impl SolderedDownDimmsPerChannel {
    /// An override for the given selection; the rest as in the default.
    pub fn new(sockets: SocketIds, channels: ChannelIds, value: u8) -> (e: Self)
        requires
            channels.spec_has_number(),
        ensures
            e.spec_sockets() == sockets.spec_raw(),
            e.spec_channels() == channels.spec_to_u64() as u8,
            e.spec_dimms() == 0xff,
            e.spec_value() == value,
            e.spec_type_() == 19,
            e.spec_payload_size() == 4,
    {
        let mut result = Self::default();
        result.sockets = sockets.into_raw();
        result.channels = channels.to_u64().unwrap() as u8;
        result.value = value;
        result
    }
}

impl EntryCompatible for SolderedDownDimmsPerChannel {
    fn is_entry_compatible(entry_id: EntryId, prefix: &[u8]) -> (r: bool)
        ensures
            r == (entry_id == EntryId::Memory(MemoryEntryId::PlatformSpecificOverride) && prefix@.len() >= 2
                && prefix@[0] == 19 && prefix@[1] + 2 == 6),
    {
        match entry_id {
            EntryId::Memory(MemoryEntryId::PlatformSpecificOverride) => {
                prefix.len() >= 2 && prefix[0] == 19 && prefix[1] as usize + 2 == 6
            },
            _ => false,
        }
    }

    fn skip_step(entry_id: EntryId, prefix: &[u8]) -> (r: Option<(u16, usize)>)
        ensures
            r == spec_tagged_skip_step(entry_id, prefix@),
    {
        tagged_skip_step(entry_id, prefix)
    }
}

impl ElementAsBytes for SolderedDownDimmsPerChannel {
    fn element_as_bytes(&self) -> (r: Vec<u8>)
        ensures
            r@ == self.spec_to_bytes(),
    {
        self.to_bytes()
    }
}

impl SequenceElementAsBytes for SolderedDownDimmsPerChannel {
    /// The bytes of this override, if its type and size fields are right and the entry is
    /// a platform-specific override entry.
    fn checked_as_bytes(&self, entry_id: EntryId) -> (r: Option<Vec<u8>>)
        ensures
            r is Some <==> (entry_id == EntryId::Memory(MemoryEntryId::PlatformSpecificOverride) && self.spec_type_() == 19
                && self.spec_payload_size() + 2 == 6),
            r matches Some(b) ==> b@ == self.spec_to_bytes(),
    {
        let blob = self.to_bytes();
        proof {
            lemma_soldered_down_dimms_per_channel_bytes_pieces(*self);
        }
        if Self::is_entry_compatible(entry_id, blob.as_slice()) {
            Some(blob)
        } else {
            None
        }
    }
}

/// A memory power policy.
#[derive(Debug, PartialEq, Eq, Clone, Copy, Structural)]
pub enum MemPowerPolicyType {
    Performance,
    BatteryLife,
    Auto,
}

impl MemPowerPolicyType {
    /// The number that stands for this value.
    pub open spec fn spec_to_u64(self) -> u64 {
        match self {
            MemPowerPolicyType::Performance => 0x0,
            MemPowerPolicyType::BatteryLife => 0x1,
            MemPowerPolicyType::Auto => 0x2,
        }
    }

    /// The value that VALUE stands for, if any.
    pub open spec fn spec_from_u64(value: u64) -> Option<MemPowerPolicyType> {
        match value {
            0x0 => Some(MemPowerPolicyType::Performance),
            0x1 => Some(MemPowerPolicyType::BatteryLife),
            0x2 => Some(MemPowerPolicyType::Auto),
            _ => None,
        }
    }

    pub fn from_u64(value: u64) -> (r: Option<MemPowerPolicyType>)
        ensures
            r == MemPowerPolicyType::spec_from_u64(value),
    {
        match value {
            0x0 => Some(MemPowerPolicyType::Performance),
            0x1 => Some(MemPowerPolicyType::BatteryLife),
            0x2 => Some(MemPowerPolicyType::Auto),
            _ => None,
        }
    }

    pub fn to_u64(&self) -> (r: Option<u64>)
        ensures
            r == Some(self.spec_to_u64()),
    {
        Some(
            match self {
                MemPowerPolicyType::Performance => 0x0,
                MemPowerPolicyType::BatteryLife => 0x1,
                MemPowerPolicyType::Auto => 0x2,
            },
        )
    }
}

/// Every value of MemPowerPolicyType is read back from its own number, and every number that is
/// read as a value is that value's number.
pub proof fn lemma_mem_power_policy_type_roundtrip(x: MemPowerPolicyType, value: u64)
    ensures
        MemPowerPolicyType::spec_from_u64(x.spec_to_u64()) == Some(x),
        MemPowerPolicyType::spec_from_u64(value) matches Some(y) ==> y.spec_to_u64() == value,
{
}

/// The memory power policy.
#[allow(non_camel_case_types)]
#[derive(Debug, Clone, Copy, PartialEq, Eq, Structural)]
pub struct MemPowerPolicy {
    pub(crate) type_: u8,
    pub(crate) payload_size: u8,
    pub(crate) sockets: u8,
    pub(crate) channels: u8,
    pub(crate) dimms: u8,
    pub(crate) value: u8,
}

impl MemPowerPolicy {
    pub closed spec fn spec_type_(self) -> u8 {
        self.type_
    }

    pub closed spec fn spec_payload_size(self) -> u8 {
        self.payload_size
    }

    pub closed spec fn spec_sockets(self) -> u8 {
        self.sockets
    }

    pub closed spec fn spec_channels(self) -> u8 {
        self.channels
    }

    pub closed spec fn spec_dimms(self) -> u8 {
        self.dimms
    }

    pub closed spec fn spec_value(self) -> u8 {
        self.value
    }

    pub fn type_(&self) -> (r: Result<u8>)
        ensures
            r == Ok::<u8, Error>(self.spec_type_()),
    {
        Ok(self.type_)
    }

    pub fn set_type_(&mut self, value: u8)
        ensures
            final(self).spec_type_() == value,
            final(self).spec_payload_size() == old(self).spec_payload_size(),
            final(self).spec_sockets() == old(self).spec_sockets(),
            final(self).spec_channels() == old(self).spec_channels(),
            final(self).spec_dimms() == old(self).spec_dimms(),
            final(self).spec_value() == old(self).spec_value(),
    {
        self.type_ = value;
    }

    pub fn sockets(&self) -> (r: Result<SocketIds>)
        ensures
            r is Ok <==> (self.spec_sockets() as u64) & !0xffu64 == 0,
            r matches Ok(b) ==> b.spec_raw() == self.spec_sockets(),
    {
        proof {
            if (self.sockets as u64) & !0xffu64 == 0 {
                lemma_masked_bound_u64(self.sockets as u64, 0xffu64);
            }
        }
        match SocketIds::from_u64(self.sockets as u64) {
            Some(b) => Ok(b),
            None => Err(Error::EntryTypeMismatch),
        }
    }

    pub fn set_sockets(&mut self, value: SocketIds)
        ensures
            final(self).spec_sockets() == value.spec_raw() as u8,
            final(self).spec_type_() == old(self).spec_type_(),
            final(self).spec_payload_size() == old(self).spec_payload_size(),
            final(self).spec_channels() == old(self).spec_channels(),
            final(self).spec_dimms() == old(self).spec_dimms(),
            final(self).spec_value() == old(self).spec_value(),
    {
        self.sockets = value.into_raw() as u8;
    }

    pub fn channels(&self) -> (r: Result<ChannelIds>)
        ensures
            r == match ChannelIds::spec_from_u64(self.spec_channels() as u64) {
                Some(e) => Ok::<ChannelIds, Error>(e),
                None => Err(Error::EntryTypeMismatch),
            },
    {
        match ChannelIds::from_u64(self.channels as u64) {
            Some(e) => Ok(e),
            None => Err(Error::EntryTypeMismatch),
        }
    }

    pub fn set_channels(&mut self, value: ChannelIds)
        requires
            value.spec_has_number(),
        ensures
            final(self).spec_channels() == value.spec_to_u64() as u8,
            final(self).spec_type_() == old(self).spec_type_(),
            final(self).spec_payload_size() == old(self).spec_payload_size(),
            final(self).spec_sockets() == old(self).spec_sockets(),
            final(self).spec_dimms() == old(self).spec_dimms(),
            final(self).spec_value() == old(self).spec_value(),
    {
        self.channels = value.to_u64().unwrap() as u8;
    }

    pub fn dimms(&self) -> (r: Result<DimmSlots>)
        ensures
            r == match DimmSlots::spec_from_u64(self.spec_dimms() as u64) {
                Some(e) => Ok::<DimmSlots, Error>(e),
                None => Err(Error::EntryTypeMismatch),
            },
    {
        match DimmSlots::from_u64(self.dimms as u64) {
            Some(e) => Ok(e),
            None => Err(Error::EntryTypeMismatch),
        }
    }

    pub fn set_dimms(&mut self, value: DimmSlots)
        requires
            value.spec_has_number(),
        ensures
            final(self).spec_dimms() == value.spec_to_u64() as u8,
            final(self).spec_type_() == old(self).spec_type_(),
            final(self).spec_payload_size() == old(self).spec_payload_size(),
            final(self).spec_sockets() == old(self).spec_sockets(),
            final(self).spec_channels() == old(self).spec_channels(),
            final(self).spec_value() == old(self).spec_value(),
    {
        self.dimms = value.to_u64().unwrap() as u8;
    }

    pub fn value(&self) -> (r: Result<MemPowerPolicyType>)
        ensures
            r == match MemPowerPolicyType::spec_from_u64(self.spec_value() as u64) {
                Some(e) => Ok::<MemPowerPolicyType, Error>(e),
                None => Err(Error::EntryTypeMismatch),
            },
    {
        match MemPowerPolicyType::from_u64(self.value as u64) {
            Some(e) => Ok(e),
            None => Err(Error::EntryTypeMismatch),
        }
    }

    pub fn set_value(&mut self, value: MemPowerPolicyType)
        ensures
            final(self).spec_value() == value.spec_to_u64() as u8,
            final(self).spec_type_() == old(self).spec_type_(),
            final(self).spec_payload_size() == old(self).spec_payload_size(),
            final(self).spec_sockets() == old(self).spec_sockets(),
            final(self).spec_channels() == old(self).spec_channels(),
            final(self).spec_dimms() == old(self).spec_dimms(),
    {
        self.value = value.to_u64().unwrap() as u8;
    }

}

impl MemPowerPolicy {
    /// The bytes that store this value on disk.
    pub closed spec fn spec_bytes(self) -> Seq<u8> {
        seq![self.type_]
            + seq![self.payload_size]
            + seq![self.sockets]
            + seq![self.channels]
            + seq![self.dimms]
            + seq![self.value]
    }
}

impl ByteLayout for MemPowerPolicy {
    open spec fn spec_size() -> nat {
        6
    }

    open spec fn spec_to_bytes(self) -> Seq<u8> {
        self.spec_bytes()
    }

    fn size() -> (r: usize) {
        6
    }

    #[verifier::spinoff_prover]
    fn from_bytes(bytes: &[u8]) -> (r: Self) {
        let type_: u8 = bytes[0];
        let payload_size: u8 = bytes[1];
        let sockets: u8 = bytes[2];
        let channels: u8 = bytes[3];
        let dimms: u8 = bytes[4];
        let value: u8 = bytes[5];
        let r = MemPowerPolicy { type_, payload_size, sockets, channels, dimms, value };
        proof {
            lemma_auto_spec_u16_to_from_le_bytes();
            lemma_auto_spec_u32_to_from_le_bytes();
            lemma_auto_spec_u64_to_from_le_bytes();
            lemma_mem_power_policy_bytes_pieces(r);
            assert(bytes@.subrange(0, 2) =~= bytes@.subrange(0, 1) + bytes@.subrange(1, 2));
            assert(bytes@.subrange(0, 3) =~= bytes@.subrange(0, 2) + bytes@.subrange(2, 3));
            assert(bytes@.subrange(0, 4) =~= bytes@.subrange(0, 3) + bytes@.subrange(3, 4));
            assert(bytes@.subrange(0, 5) =~= bytes@.subrange(0, 4) + bytes@.subrange(4, 5));
            assert(bytes@.subrange(0, 6) =~= bytes@.subrange(0, 5) + bytes@.subrange(5, 6));
            assert(bytes@.subrange(0, 6) =~= bytes@);
            assert(bytes@ == r.spec_bytes());
        }
        r
    }

    #[verifier::spinoff_prover]
    fn to_bytes(&self) -> (r: Vec<u8>) {
        let mut out: Vec<u8> = Vec::new();
        out.push(self.type_);
        out.push(self.payload_size);
        out.push(self.sockets);
        out.push(self.channels);
        out.push(self.dimms);
        out.push(self.value);
        proof {
            lemma_mem_power_policy_bytes_pieces(*self);
        }
        out
    }
}

/// How the bytes of a MemPowerPolicy split up into its fields.
pub proof fn lemma_mem_power_policy_bytes_pieces(x: MemPowerPolicy)
    ensures
        x.spec_bytes().len() == 6,
        x.spec_bytes()[0] == x.spec_type_(),
        x.spec_bytes()[1] == x.spec_payload_size(),
        x.spec_bytes()[2] == x.spec_sockets(),
        x.spec_bytes()[3] == x.spec_channels(),
        x.spec_bytes()[4] == x.spec_dimms(),
        x.spec_bytes()[5] == x.spec_value(),
{
    lemma_auto_spec_u16_to_from_le_bytes();
    lemma_auto_spec_u32_to_from_le_bytes();
    lemma_auto_spec_u64_to_from_le_bytes();
}

/// Two values of MemPowerPolicy with the same bytes are the same value.
#[verifier::spinoff_prover]
pub proof fn lemma_mem_power_policy_bytes_injective(x: MemPowerPolicy, y: MemPowerPolicy)
    requires
        x.spec_bytes() == y.spec_bytes(),
    ensures
        x == y,
{
    lemma_mem_power_policy_bytes_pieces(x);
    lemma_mem_power_policy_bytes_pieces(y);
    lemma_auto_spec_u16_to_from_le_bytes();
    lemma_auto_spec_u32_to_from_le_bytes();
    lemma_auto_spec_u64_to_from_le_bytes();
    assert(x.type_ == y.type_);
    assert(x.payload_size == y.payload_size);
    assert(x.sockets == y.sockets);
    assert(x.channels == y.channels);
    assert(x.dimms == y.dimms);
    assert(x.value == y.value);
}

impl MemPowerPolicy {
    /// The type tag of this override.
    pub const TAG: u16 = 20;
}

impl Default for MemPowerPolicy {
    fn default() -> (r: Self)
        ensures
            r.spec_type_() == 20,
            r.spec_payload_size() == 4,
            r.spec_sockets() == 0xff,
            r.spec_channels() == 0xff,
            r.spec_dimms() == 0xff,
            r.spec_value() == 0,
    {
        MemPowerPolicy { type_: 20, payload_size: 4, sockets: 0xff, channels: 0xff, dimms: 0xff, value: 0 }
    }
}

impl MemPowerPolicy {
    /// An override for the given selection; the rest as in the default.
    pub fn new(sockets: SocketIds, channels: ChannelIds, dimms: DimmSlots, value: u8) -> (e: Self)
        requires
            channels.spec_has_number(),
            dimms.spec_has_number(),
        ensures
            e.spec_sockets() == sockets.spec_raw(),
            e.spec_channels() == channels.spec_to_u64() as u8,
            e.spec_dimms() == dimms.spec_to_u64() as u8,
            e.spec_value() == value,
            e.spec_type_() == 20,
            e.spec_payload_size() == 4,
    {
        let mut result = Self::default();
        result.sockets = sockets.into_raw();
        result.channels = channels.to_u64().unwrap() as u8;
        result.dimms = dimms.to_u64().unwrap() as u8;
        result.value = value;
        result
    }
}

impl EntryCompatible for MemPowerPolicy {
    fn is_entry_compatible(entry_id: EntryId, prefix: &[u8]) -> (r: bool)
        ensures
            r == (entry_id == EntryId::Memory(MemoryEntryId::PlatformSpecificOverride) && prefix@.len() >= 2
                && prefix@[0] == 20 && prefix@[1] + 2 == 6),
    {
        match entry_id {
            EntryId::Memory(MemoryEntryId::PlatformSpecificOverride) => {
                prefix.len() >= 2 && prefix[0] == 20 && prefix[1] as usize + 2 == 6
            },
            _ => false,
        }
    }

    fn skip_step(entry_id: EntryId, prefix: &[u8]) -> (r: Option<(u16, usize)>)
        ensures
            r == spec_tagged_skip_step(entry_id, prefix@),
    {
        tagged_skip_step(entry_id, prefix)
    }
}

impl ElementAsBytes for MemPowerPolicy {
    fn element_as_bytes(&self) -> (r: Vec<u8>)
        ensures
            r@ == self.spec_to_bytes(),
    {
        self.to_bytes()
    }
}

impl SequenceElementAsBytes for MemPowerPolicy {
    /// The bytes of this override, if its type and size fields are right and the entry is
    /// a platform-specific override entry.
    fn checked_as_bytes(&self, entry_id: EntryId) -> (r: Option<Vec<u8>>)
        ensures
            r is Some <==> (entry_id == EntryId::Memory(MemoryEntryId::PlatformSpecificOverride) && self.spec_type_() == 20
                && self.spec_payload_size() + 2 == 6),
            r matches Some(b) ==> b@ == self.spec_to_bytes(),
    {
        let blob = self.to_bytes();
        proof {
            lemma_mem_power_policy_bytes_pieces(*self);
        }
        if Self::is_entry_compatible(entry_id, blob.as_slice()) {
            Some(blob)
        } else {
            None
        }
    }
}

/// The number of layers of a motherboard.
#[derive(Debug, PartialEq, Eq, Clone, Copy, Structural)]
pub enum MotherboardLayerCount {
    _4,
    _6,
}

impl MotherboardLayerCount {
    /// The number that stands for this value.
    pub open spec fn spec_to_u64(self) -> u64 {
        match self {
            MotherboardLayerCount::_4 => 0x0,
            MotherboardLayerCount::_6 => 0x1,
        }
    }

    /// The value that VALUE stands for, if any.
    pub open spec fn spec_from_u64(value: u64) -> Option<MotherboardLayerCount> {
        match value {
            0x0 => Some(MotherboardLayerCount::_4),
            0x1 => Some(MotherboardLayerCount::_6),
            _ => None,
        }
    }

    pub fn from_u64(value: u64) -> (r: Option<MotherboardLayerCount>)
        ensures
            r == MotherboardLayerCount::spec_from_u64(value),
    {
        match value {
            0x0 => Some(MotherboardLayerCount::_4),
            0x1 => Some(MotherboardLayerCount::_6),
            _ => None,
        }
    }

    pub fn to_u64(&self) -> (r: Option<u64>)
        ensures
            r == Some(self.spec_to_u64()),
    {
        Some(
            match self {
                MotherboardLayerCount::_4 => 0x0,
                MotherboardLayerCount::_6 => 0x1,
            },
        )
    }
}

/// Every value of MotherboardLayerCount is read back from its own number, and every number that is
/// read as a value is that value's number.
pub proof fn lemma_motherboard_layer_count_roundtrip(x: MotherboardLayerCount, value: u64)
    ensures
        MotherboardLayerCount::spec_from_u64(x.spec_to_u64()) == Some(x),
        MotherboardLayerCount::spec_from_u64(value) matches Some(y) ==> y.spec_to_u64() == value,
{
}

/// The number of layers of the motherboard.
#[allow(non_camel_case_types)]
#[derive(Debug, Clone, Copy, PartialEq, Eq, Structural)]
pub struct MotherboardLayers {
    pub(crate) type_: u8,
    pub(crate) payload_size: u8,
    pub(crate) sockets: u8,
    pub(crate) channels: u8,
    pub(crate) dimms: u8,
    pub(crate) value: u8,
}

impl MotherboardLayers {
    pub closed spec fn spec_type_(self) -> u8 {
        self.type_
    }

    pub closed spec fn spec_payload_size(self) -> u8 {
        self.payload_size
    }

    pub closed spec fn spec_sockets(self) -> u8 {
        self.sockets
    }

    pub closed spec fn spec_channels(self) -> u8 {
        self.channels
    }

    pub closed spec fn spec_dimms(self) -> u8 {
        self.dimms
    }

    pub closed spec fn spec_value(self) -> u8 {
        self.value
    }

    pub fn type_(&self) -> (r: Result<u8>)
        ensures
            r == Ok::<u8, Error>(self.spec_type_()),
    {
        Ok(self.type_)
    }

    pub fn set_type_(&mut self, value: u8)
        ensures
            final(self).spec_type_() == value,
            final(self).spec_payload_size() == old(self).spec_payload_size(),
            final(self).spec_sockets() == old(self).spec_sockets(),
            final(self).spec_channels() == old(self).spec_channels(),
            final(self).spec_dimms() == old(self).spec_dimms(),
            final(self).spec_value() == old(self).spec_value(),
    {
        self.type_ = value;
    }

    pub fn sockets(&self) -> (r: Result<SocketIds>)
        ensures
            r is Ok <==> (self.spec_sockets() as u64) & !0xffu64 == 0,
            r matches Ok(b) ==> b.spec_raw() == self.spec_sockets(),
    {
        proof {
            if (self.sockets as u64) & !0xffu64 == 0 {
                lemma_masked_bound_u64(self.sockets as u64, 0xffu64);
            }
        }
        match SocketIds::from_u64(self.sockets as u64) {
            Some(b) => Ok(b),
            None => Err(Error::EntryTypeMismatch),
        }
    }

    pub fn set_sockets(&mut self, value: SocketIds)
        ensures
            final(self).spec_sockets() == value.spec_raw() as u8,
            final(self).spec_type_() == old(self).spec_type_(),
            final(self).spec_payload_size() == old(self).spec_payload_size(),
            final(self).spec_channels() == old(self).spec_channels(),
            final(self).spec_dimms() == old(self).spec_dimms(),
            final(self).spec_value() == old(self).spec_value(),
    {
        self.sockets = value.into_raw() as u8;
    }

    pub fn channels(&self) -> (r: Result<ChannelIds>)
        ensures
            r == match ChannelIds::spec_from_u64(self.spec_channels() as u64) {
                Some(e) => Ok::<ChannelIds, Error>(e),
                None => Err(Error::EntryTypeMismatch),
            },
    {
        match ChannelIds::from_u64(self.channels as u64) {
            Some(e) => Ok(e),
            None => Err(Error::EntryTypeMismatch),
        }
    }

    pub fn set_channels(&mut self, value: ChannelIds)
        requires
            value.spec_has_number(),
        ensures
            final(self).spec_channels() == value.spec_to_u64() as u8,
            final(self).spec_type_() == old(self).spec_type_(),
            final(self).spec_payload_size() == old(self).spec_payload_size(),
            final(self).spec_sockets() == old(self).spec_sockets(),
            final(self).spec_dimms() == old(self).spec_dimms(),
            final(self).spec_value() == old(self).spec_value(),
    {
        self.channels = value.to_u64().unwrap() as u8;
    }

    pub fn dimms(&self) -> (r: Result<DimmSlots>)
        ensures
            r == match DimmSlots::spec_from_u64(self.spec_dimms() as u64) {
                Some(e) => Ok::<DimmSlots, Error>(e),
                None => Err(Error::EntryTypeMismatch),
            },
    {
        match DimmSlots::from_u64(self.dimms as u64) {
            Some(e) => Ok(e),
            None => Err(Error::EntryTypeMismatch),
        }
    }

    pub fn set_dimms(&mut self, value: DimmSlots)
        requires
            value.spec_has_number(),
        ensures
            final(self).spec_dimms() == value.spec_to_u64() as u8,
            final(self).spec_type_() == old(self).spec_type_(),
            final(self).spec_payload_size() == old(self).spec_payload_size(),
            final(self).spec_sockets() == old(self).spec_sockets(),
            final(self).spec_channels() == old(self).spec_channels(),
            final(self).spec_value() == old(self).spec_value(),
    {
        self.dimms = value.to_u64().unwrap() as u8;
    }

    pub fn value(&self) -> (r: Result<MotherboardLayerCount>)
        ensures
            r == match MotherboardLayerCount::spec_from_u64(self.spec_value() as u64) {
                Some(e) => Ok::<MotherboardLayerCount, Error>(e),
                None => Err(Error::EntryTypeMismatch),
            },
    {
        match MotherboardLayerCount::from_u64(self.value as u64) {
            Some(e) => Ok(e),
            None => Err(Error::EntryTypeMismatch),
        }
    }

    pub fn set_value(&mut self, value: MotherboardLayerCount)
        ensures
            final(self).spec_value() == value.spec_to_u64() as u8,
            final(self).spec_type_() == old(self).spec_type_(),
            final(self).spec_payload_size() == old(self).spec_payload_size(),
            final(self).spec_sockets() == old(self).spec_sockets(),
            final(self).spec_channels() == old(self).spec_channels(),
            final(self).spec_dimms() == old(self).spec_dimms(),
    {
        self.value = value.to_u64().unwrap() as u8;
    }

}

impl MotherboardLayers {
    /// The bytes that store this value on disk.
    pub closed spec fn spec_bytes(self) -> Seq<u8> {
        seq![self.type_]
            + seq![self.payload_size]
            + seq![self.sockets]
            + seq![self.channels]
            + seq![self.dimms]
            + seq![self.value]
    }
}

impl ByteLayout for MotherboardLayers {
    open spec fn spec_size() -> nat {
        6
    }

    open spec fn spec_to_bytes(self) -> Seq<u8> {
        self.spec_bytes()
    }

    fn size() -> (r: usize) {
        6
    }

    #[verifier::spinoff_prover]
    fn from_bytes(bytes: &[u8]) -> (r: Self) {
        let type_: u8 = bytes[0];
        let payload_size: u8 = bytes[1];
        let sockets: u8 = bytes[2];
        let channels: u8 = bytes[3];
        let dimms: u8 = bytes[4];
        let value: u8 = bytes[5];
        let r = MotherboardLayers { type_, payload_size, sockets, channels, dimms, value };
        proof {
            lemma_auto_spec_u16_to_from_le_bytes();
            lemma_auto_spec_u32_to_from_le_bytes();
            lemma_auto_spec_u64_to_from_le_bytes();
            lemma_motherboard_layers_bytes_pieces(r);
            assert(bytes@.subrange(0, 2) =~= bytes@.subrange(0, 1) + bytes@.subrange(1, 2));
            assert(bytes@.subrange(0, 3) =~= bytes@.subrange(0, 2) + bytes@.subrange(2, 3));
            assert(bytes@.subrange(0, 4) =~= bytes@.subrange(0, 3) + bytes@.subrange(3, 4));
            assert(bytes@.subrange(0, 5) =~= bytes@.subrange(0, 4) + bytes@.subrange(4, 5));
            assert(bytes@.subrange(0, 6) =~= bytes@.subrange(0, 5) + bytes@.subrange(5, 6));
            assert(bytes@.subrange(0, 6) =~= bytes@);
            assert(bytes@ == r.spec_bytes());
        }
        r
    }

    #[verifier::spinoff_prover]
    fn to_bytes(&self) -> (r: Vec<u8>) {
        let mut out: Vec<u8> = Vec::new();
        out.push(self.type_);
        out.push(self.payload_size);
        out.push(self.sockets);
        out.push(self.channels);
        out.push(self.dimms);
        out.push(self.value);
        proof {
            lemma_motherboard_layers_bytes_pieces(*self);
        }
        out
    }
}

/// How the bytes of a MotherboardLayers split up into its fields.
pub proof fn lemma_motherboard_layers_bytes_pieces(x: MotherboardLayers)
    ensures
        x.spec_bytes().len() == 6,
        x.spec_bytes()[0] == x.spec_type_(),
        x.spec_bytes()[1] == x.spec_payload_size(),
        x.spec_bytes()[2] == x.spec_sockets(),
        x.spec_bytes()[3] == x.spec_channels(),
        x.spec_bytes()[4] == x.spec_dimms(),
        x.spec_bytes()[5] == x.spec_value(),
{
    lemma_auto_spec_u16_to_from_le_bytes();
    lemma_auto_spec_u32_to_from_le_bytes();
    lemma_auto_spec_u64_to_from_le_bytes();
}

/// Two values of MotherboardLayers with the same bytes are the same value.
#[verifier::spinoff_prover]
pub proof fn lemma_motherboard_layers_bytes_injective(x: MotherboardLayers, y: MotherboardLayers)
    requires
        x.spec_bytes() == y.spec_bytes(),
    ensures
        x == y,
{
    lemma_motherboard_layers_bytes_pieces(x);
    lemma_motherboard_layers_bytes_pieces(y);
    lemma_auto_spec_u16_to_from_le_bytes();
    lemma_auto_spec_u32_to_from_le_bytes();
    lemma_auto_spec_u64_to_from_le_bytes();
    assert(x.type_ == y.type_);
    assert(x.payload_size == y.payload_size);
    assert(x.sockets == y.sockets);
    assert(x.channels == y.channels);
    assert(x.dimms == y.dimms);
    assert(x.value == y.value);
}

impl MotherboardLayers {
    /// The type tag of this override.
    pub const TAG: u16 = 21;
}

impl Default for MotherboardLayers {
    fn default() -> (r: Self)
        ensures
            r.spec_type_() == 21,
            r.spec_payload_size() == 4,
            r.spec_sockets() == 0xff,
            r.spec_channels() == 0xff,
            r.spec_dimms() == 0xff,
            r.spec_value() == 0,
    {
        MotherboardLayers { type_: 21, payload_size: 4, sockets: 0xff, channels: 0xff, dimms: 0xff, value: 0 }
    }
}

impl MotherboardLayers {
    /// An override for the given selection; the rest as in the default.
    pub fn new(sockets: SocketIds, channels: ChannelIds, dimms: DimmSlots, value: u8) -> (e: Self)
        requires
            channels.spec_has_number(),
            dimms.spec_has_number(),
        ensures
            e.spec_sockets() == sockets.spec_raw(),
            e.spec_channels() == channels.spec_to_u64() as u8,
            e.spec_dimms() == dimms.spec_to_u64() as u8,
            e.spec_value() == value,
            e.spec_type_() == 21,
            e.spec_payload_size() == 4,
    {
        let mut result = Self::default();
        result.sockets = sockets.into_raw();
        result.channels = channels.to_u64().unwrap() as u8;
        result.dimms = dimms.to_u64().unwrap() as u8;
        result.value = value;
        result
    }
}

impl EntryCompatible for MotherboardLayers {
    fn is_entry_compatible(entry_id: EntryId, prefix: &[u8]) -> (r: bool)
        ensures
            r == (entry_id == EntryId::Memory(MemoryEntryId::PlatformSpecificOverride) && prefix@.len() >= 2
                && prefix@[0] == 21 && prefix@[1] + 2 == 6),
    {
        match entry_id {
            EntryId::Memory(MemoryEntryId::PlatformSpecificOverride) => {
                prefix.len() >= 2 && prefix[0] == 21 && prefix[1] as usize + 2 == 6
            },
            _ => false,
        }
    }

    fn skip_step(entry_id: EntryId, prefix: &[u8]) -> (r: Option<(u16, usize)>)
        ensures
            r == spec_tagged_skip_step(entry_id, prefix@),
    {
        tagged_skip_step(entry_id, prefix)
    }
}

impl ElementAsBytes for MotherboardLayers {
    fn element_as_bytes(&self) -> (r: Vec<u8>)
        ensures
            r@ == self.spec_to_bytes(),
    {
        self.to_bytes()
    }
}

impl SequenceElementAsBytes for MotherboardLayers {
    /// The bytes of this override, if its type and size fields are right and the entry is
    /// a platform-specific override entry.
    fn checked_as_bytes(&self, entry_id: EntryId) -> (r: Option<Vec<u8>>)
        ensures
            r is Some <==> (entry_id == EntryId::Memory(MemoryEntryId::PlatformSpecificOverride) && self.spec_type_() == 21
                && self.spec_payload_size() + 2 == 6),
            r matches Some(b) ==> b@ == self.spec_to_bytes(),
    {
        let blob = self.to_bytes();
        proof {
            lemma_motherboard_layers_bytes_pieces(*self);
        }
        if Self::is_entry_compatible(entry_id, blob.as_slice()) {
            Some(blob)
        } else {
            None
        }
    }
}

/// One platform-specific override, as read from an entry: a known kind, or the raw bytes of
/// one of an unknown kind (or of padding).
#[derive(Debug, Clone, Copy)]
pub enum ElementRef<'a> {
    Unknown(&'a [u8]),
    CkeTristateMap(CkeTristateMap),
    OdtTristateMap(OdtTristateMap),
    CsTristateMap(CsTristateMap),
    MaxDimmsPerChannel(MaxDimmsPerChannel),
    MaxDimmsPerChannel6(MaxDimmsPerChannel6),
    MemclkMap(MemclkMap),
    MaxChannelsPerSocket(MaxChannelsPerSocket),
    MemBusSpeed(MemBusSpeed),
    MaxCsPerChannel(MaxCsPerChannel),
    MemTechnology(MemTechnology),
    WriteLevellingSeedDelay(WriteLevellingSeedDelay),
    RxEnSeed(RxEnSeed),
    LrDimmNoCs6Cs7Routing(LrDimmNoCs6Cs7Routing),
    SolderedDownSodimm(SolderedDownSodimm),
    LvDimmForce1V5(LvDimmForce1V5),
    MinimumRwDataEyeWidth(MinimumRwDataEyeWidth),
    CpuFamilyFilter(CpuFamilyFilter),
    SolderedDownDimmsPerChannel(SolderedDownDimmsPerChannel),
    MemPowerPolicy(MemPowerPolicy),
    MotherboardLayers(MotherboardLayers),
}

impl<'a> ElementRef<'a> {
    /// The bytes of this element.
    pub open spec fn spec_bytes(self) -> Seq<u8> {
        match self {
            ElementRef::Unknown(b) => b@,
            ElementRef::CkeTristateMap(x) => x.spec_to_bytes(),
            ElementRef::OdtTristateMap(x) => x.spec_to_bytes(),
            ElementRef::CsTristateMap(x) => x.spec_to_bytes(),
            ElementRef::MaxDimmsPerChannel(x) => x.spec_to_bytes(),
            ElementRef::MaxDimmsPerChannel6(x) => x.spec_to_bytes(),
            ElementRef::MemclkMap(x) => x.spec_to_bytes(),
            ElementRef::MaxChannelsPerSocket(x) => x.spec_to_bytes(),
            ElementRef::MemBusSpeed(x) => x.spec_to_bytes(),
            ElementRef::MaxCsPerChannel(x) => x.spec_to_bytes(),
            ElementRef::MemTechnology(x) => x.spec_to_bytes(),
            ElementRef::WriteLevellingSeedDelay(x) => x.spec_to_bytes(),
            ElementRef::RxEnSeed(x) => x.spec_to_bytes(),
            ElementRef::LrDimmNoCs6Cs7Routing(x) => x.spec_to_bytes(),
            ElementRef::SolderedDownSodimm(x) => x.spec_to_bytes(),
            ElementRef::LvDimmForce1V5(x) => x.spec_to_bytes(),
            ElementRef::MinimumRwDataEyeWidth(x) => x.spec_to_bytes(),
            ElementRef::CpuFamilyFilter(x) => x.spec_to_bytes(),
            ElementRef::SolderedDownDimmsPerChannel(x) => x.spec_to_bytes(),
            ElementRef::MemPowerPolicy(x) => x.spec_to_bytes(),
            ElementRef::MotherboardLayers(x) => x.spec_to_bytes(),
        }
    }

    /// The type tag of this element, if it is of a known kind.
    pub open spec fn spec_tag(self) -> Option<u16> {
        match self {
            ElementRef::Unknown(_) => None,
            ElementRef::CkeTristateMap(_) => Some(1u16),
            ElementRef::OdtTristateMap(_) => Some(2u16),
            ElementRef::CsTristateMap(_) => Some(3u16),
            ElementRef::MaxDimmsPerChannel(_) => Some(4u16),
            ElementRef::MaxDimmsPerChannel6(_) => Some(4u16),
            ElementRef::MemclkMap(_) => Some(7u16),
            ElementRef::MaxChannelsPerSocket(_) => Some(8u16),
            ElementRef::MemBusSpeed(_) => Some(9u16),
            ElementRef::MaxCsPerChannel(_) => Some(10u16),
            ElementRef::MemTechnology(_) => Some(11u16),
            ElementRef::WriteLevellingSeedDelay(_) => Some(12u16),
            ElementRef::RxEnSeed(_) => Some(13u16),
            ElementRef::LrDimmNoCs6Cs7Routing(_) => Some(14u16),
            ElementRef::SolderedDownSodimm(_) => Some(15u16),
            ElementRef::LvDimmForce1V5(_) => Some(16u16),
            ElementRef::MinimumRwDataEyeWidth(_) => Some(17u16),
            ElementRef::CpuFamilyFilter(_) => Some(18u16),
            ElementRef::SolderedDownDimmsPerChannel(_) => Some(19u16),
            ElementRef::MemPowerPolicy(_) => Some(20u16),
            ElementRef::MotherboardLayers(_) => Some(21u16),
        }
    }
}

impl<'a> EntryCompatible for ElementRef<'a> {
    /// Any chunk of a platform-specific override entry (even an empty one).
    fn is_entry_compatible(entry_id: EntryId, _prefix: &[u8]) -> (r: bool)
        ensures
            r == (entry_id == EntryId::Memory(MemoryEntryId::PlatformSpecificOverride)),
    {
        matches!(entry_id, EntryId::Memory(MemoryEntryId::PlatformSpecificOverride))
    }

    /// The type and the size of the element that PREFIX starts with; a zero byte is
    /// padding and is skipped on its own.
    fn skip_step(entry_id: EntryId, prefix: &[u8]) -> (r: Option<(u16, usize)>)
        ensures
            r == spec_element_skip_step(entry_id, prefix@),
    {
        element_skip_step(entry_id, prefix)
    }
}

impl<'a> From<&'a CkeTristateMap> for ElementRef<'a> {
    fn from(from: &'a CkeTristateMap) -> (r: Self) {
        ElementRef::CkeTristateMap(*from)
    }
}

impl<'a> vstd::std_specs::convert::FromSpecImpl<&'a CkeTristateMap> for ElementRef<'a> {
    open spec fn obeys_from_spec() -> bool {
        true
    }

    open spec fn from_spec(from: &'a CkeTristateMap) -> Self {
        ElementRef::CkeTristateMap(*from)
    }
}

impl<'a> From<&'a OdtTristateMap> for ElementRef<'a> {
    fn from(from: &'a OdtTristateMap) -> (r: Self) {
        ElementRef::OdtTristateMap(*from)
    }
}

impl<'a> vstd::std_specs::convert::FromSpecImpl<&'a OdtTristateMap> for ElementRef<'a> {
    open spec fn obeys_from_spec() -> bool {
        true
    }

    open spec fn from_spec(from: &'a OdtTristateMap) -> Self {
        ElementRef::OdtTristateMap(*from)
    }
}

impl<'a> From<&'a CsTristateMap> for ElementRef<'a> {
    fn from(from: &'a CsTristateMap) -> (r: Self) {
        ElementRef::CsTristateMap(*from)
    }
}

impl<'a> vstd::std_specs::convert::FromSpecImpl<&'a CsTristateMap> for ElementRef<'a> {
    open spec fn obeys_from_spec() -> bool {
        true
    }

    open spec fn from_spec(from: &'a CsTristateMap) -> Self {
        ElementRef::CsTristateMap(*from)
    }
}

impl<'a> From<&'a MaxDimmsPerChannel> for ElementRef<'a> {
    fn from(from: &'a MaxDimmsPerChannel) -> (r: Self) {
        ElementRef::MaxDimmsPerChannel(*from)
    }
}

impl<'a> vstd::std_specs::convert::FromSpecImpl<&'a MaxDimmsPerChannel> for ElementRef<'a> {
    open spec fn obeys_from_spec() -> bool {
        true
    }

    open spec fn from_spec(from: &'a MaxDimmsPerChannel) -> Self {
        ElementRef::MaxDimmsPerChannel(*from)
    }
}

impl<'a> From<&'a MaxDimmsPerChannel6> for ElementRef<'a> {
    fn from(from: &'a MaxDimmsPerChannel6) -> (r: Self) {
        ElementRef::MaxDimmsPerChannel6(*from)
    }
}

impl<'a> vstd::std_specs::convert::FromSpecImpl<&'a MaxDimmsPerChannel6> for ElementRef<'a> {
    open spec fn obeys_from_spec() -> bool {
        true
    }

    open spec fn from_spec(from: &'a MaxDimmsPerChannel6) -> Self {
        ElementRef::MaxDimmsPerChannel6(*from)
    }
}

impl<'a> From<&'a MemclkMap> for ElementRef<'a> {
    fn from(from: &'a MemclkMap) -> (r: Self) {
        ElementRef::MemclkMap(*from)
    }
}

impl<'a> vstd::std_specs::convert::FromSpecImpl<&'a MemclkMap> for ElementRef<'a> {
    open spec fn obeys_from_spec() -> bool {
        true
    }

    open spec fn from_spec(from: &'a MemclkMap) -> Self {
        ElementRef::MemclkMap(*from)
    }
}

impl<'a> From<&'a MaxChannelsPerSocket> for ElementRef<'a> {
    fn from(from: &'a MaxChannelsPerSocket) -> (r: Self) {
        ElementRef::MaxChannelsPerSocket(*from)
    }
}

impl<'a> vstd::std_specs::convert::FromSpecImpl<&'a MaxChannelsPerSocket> for ElementRef<'a> {
    open spec fn obeys_from_spec() -> bool {
        true
    }

    open spec fn from_spec(from: &'a MaxChannelsPerSocket) -> Self {
        ElementRef::MaxChannelsPerSocket(*from)
    }
}

impl<'a> From<&'a MemBusSpeed> for ElementRef<'a> {
    fn from(from: &'a MemBusSpeed) -> (r: Self) {
        ElementRef::MemBusSpeed(*from)
    }
}

impl<'a> vstd::std_specs::convert::FromSpecImpl<&'a MemBusSpeed> for ElementRef<'a> {
    open spec fn obeys_from_spec() -> bool {
        true
    }

    open spec fn from_spec(from: &'a MemBusSpeed) -> Self {
        ElementRef::MemBusSpeed(*from)
    }
}

impl<'a> From<&'a MaxCsPerChannel> for ElementRef<'a> {
    fn from(from: &'a MaxCsPerChannel) -> (r: Self) {
        ElementRef::MaxCsPerChannel(*from)
    }
}

impl<'a> vstd::std_specs::convert::FromSpecImpl<&'a MaxCsPerChannel> for ElementRef<'a> {
    open spec fn obeys_from_spec() -> bool {
        true
    }

    open spec fn from_spec(from: &'a MaxCsPerChannel) -> Self {
        ElementRef::MaxCsPerChannel(*from)
    }
}

impl<'a> From<&'a MemTechnology> for ElementRef<'a> {
    fn from(from: &'a MemTechnology) -> (r: Self) {
        ElementRef::MemTechnology(*from)
    }
}

impl<'a> vstd::std_specs::convert::FromSpecImpl<&'a MemTechnology> for ElementRef<'a> {
    open spec fn obeys_from_spec() -> bool {
        true
    }

    open spec fn from_spec(from: &'a MemTechnology) -> Self {
        ElementRef::MemTechnology(*from)
    }
}

impl<'a> From<&'a WriteLevellingSeedDelay> for ElementRef<'a> {
    fn from(from: &'a WriteLevellingSeedDelay) -> (r: Self) {
        ElementRef::WriteLevellingSeedDelay(*from)
    }
}

impl<'a> vstd::std_specs::convert::FromSpecImpl<&'a WriteLevellingSeedDelay> for ElementRef<'a> {
    open spec fn obeys_from_spec() -> bool {
        true
    }

    open spec fn from_spec(from: &'a WriteLevellingSeedDelay) -> Self {
        ElementRef::WriteLevellingSeedDelay(*from)
    }
}

impl<'a> From<&'a RxEnSeed> for ElementRef<'a> {
    fn from(from: &'a RxEnSeed) -> (r: Self) {
        ElementRef::RxEnSeed(*from)
    }
}

impl<'a> vstd::std_specs::convert::FromSpecImpl<&'a RxEnSeed> for ElementRef<'a> {
    open spec fn obeys_from_spec() -> bool {
        true
    }

    open spec fn from_spec(from: &'a RxEnSeed) -> Self {
        ElementRef::RxEnSeed(*from)
    }
}

impl<'a> From<&'a LrDimmNoCs6Cs7Routing> for ElementRef<'a> {
    fn from(from: &'a LrDimmNoCs6Cs7Routing) -> (r: Self) {
        ElementRef::LrDimmNoCs6Cs7Routing(*from)
    }
}

impl<'a> vstd::std_specs::convert::FromSpecImpl<&'a LrDimmNoCs6Cs7Routing> for ElementRef<'a> {
    open spec fn obeys_from_spec() -> bool {
        true
    }

    open spec fn from_spec(from: &'a LrDimmNoCs6Cs7Routing) -> Self {
        ElementRef::LrDimmNoCs6Cs7Routing(*from)
    }
}

impl<'a> From<&'a SolderedDownSodimm> for ElementRef<'a> {
    fn from(from: &'a SolderedDownSodimm) -> (r: Self) {
        ElementRef::SolderedDownSodimm(*from)
    }
}

impl<'a> vstd::std_specs::convert::FromSpecImpl<&'a SolderedDownSodimm> for ElementRef<'a> {
    open spec fn obeys_from_spec() -> bool {
        true
    }

    open spec fn from_spec(from: &'a SolderedDownSodimm) -> Self {
        ElementRef::SolderedDownSodimm(*from)
    }
}

impl<'a> From<&'a LvDimmForce1V5> for ElementRef<'a> {
    fn from(from: &'a LvDimmForce1V5) -> (r: Self) {
        ElementRef::LvDimmForce1V5(*from)
    }
}

impl<'a> vstd::std_specs::convert::FromSpecImpl<&'a LvDimmForce1V5> for ElementRef<'a> {
    open spec fn obeys_from_spec() -> bool {
        true
    }

    open spec fn from_spec(from: &'a LvDimmForce1V5) -> Self {
        ElementRef::LvDimmForce1V5(*from)
    }
}

impl<'a> From<&'a MinimumRwDataEyeWidth> for ElementRef<'a> {
    fn from(from: &'a MinimumRwDataEyeWidth) -> (r: Self) {
        ElementRef::MinimumRwDataEyeWidth(*from)
    }
}

impl<'a> vstd::std_specs::convert::FromSpecImpl<&'a MinimumRwDataEyeWidth> for ElementRef<'a> {
    open spec fn obeys_from_spec() -> bool {
        true
    }

    open spec fn from_spec(from: &'a MinimumRwDataEyeWidth) -> Self {
        ElementRef::MinimumRwDataEyeWidth(*from)
    }
}

impl<'a> From<&'a CpuFamilyFilter> for ElementRef<'a> {
    fn from(from: &'a CpuFamilyFilter) -> (r: Self) {
        ElementRef::CpuFamilyFilter(*from)
    }
}

impl<'a> vstd::std_specs::convert::FromSpecImpl<&'a CpuFamilyFilter> for ElementRef<'a> {
    open spec fn obeys_from_spec() -> bool {
        true
    }

    open spec fn from_spec(from: &'a CpuFamilyFilter) -> Self {
        ElementRef::CpuFamilyFilter(*from)
    }
}

impl<'a> From<&'a SolderedDownDimmsPerChannel> for ElementRef<'a> {
    fn from(from: &'a SolderedDownDimmsPerChannel) -> (r: Self) {
        ElementRef::SolderedDownDimmsPerChannel(*from)
    }
}

impl<'a> vstd::std_specs::convert::FromSpecImpl<&'a SolderedDownDimmsPerChannel> for ElementRef<'a> {
    open spec fn obeys_from_spec() -> bool {
        true
    }

    open spec fn from_spec(from: &'a SolderedDownDimmsPerChannel) -> Self {
        ElementRef::SolderedDownDimmsPerChannel(*from)
    }
}

impl<'a> From<&'a MemPowerPolicy> for ElementRef<'a> {
    fn from(from: &'a MemPowerPolicy) -> (r: Self) {
        ElementRef::MemPowerPolicy(*from)
    }
}

impl<'a> vstd::std_specs::convert::FromSpecImpl<&'a MemPowerPolicy> for ElementRef<'a> {
    open spec fn obeys_from_spec() -> bool {
        true
    }

    open spec fn from_spec(from: &'a MemPowerPolicy) -> Self {
        ElementRef::MemPowerPolicy(*from)
    }
}

impl<'a> From<&'a MotherboardLayers> for ElementRef<'a> {
    fn from(from: &'a MotherboardLayers) -> (r: Self) {
        ElementRef::MotherboardLayers(*from)
    }
}

impl<'a> vstd::std_specs::convert::FromSpecImpl<&'a MotherboardLayers> for ElementRef<'a> {
    open spec fn obeys_from_spec() -> bool {
        true
    }

    open spec fn from_spec(from: &'a MotherboardLayers) -> Self {
        ElementRef::MotherboardLayers(*from)
    }
}

/// One platform-specific override, as read from an entry for changing: a known kind, or the
/// raw bytes of one of an unknown kind (or of padding).
#[derive(Debug)]
pub enum MutElementRef<'a> {
    Unknown(&'a mut [u8]),
    CkeTristateMap(&'a mut CkeTristateMap),
    OdtTristateMap(&'a mut OdtTristateMap),
    CsTristateMap(&'a mut CsTristateMap),
    MaxDimmsPerChannel(&'a mut MaxDimmsPerChannel),
    MaxDimmsPerChannel6(&'a mut MaxDimmsPerChannel6),
    MemclkMap(&'a mut MemclkMap),
    MaxChannelsPerSocket(&'a mut MaxChannelsPerSocket),
    MemBusSpeed(&'a mut MemBusSpeed),
    MaxCsPerChannel(&'a mut MaxCsPerChannel),
    MemTechnology(&'a mut MemTechnology),
    WriteLevellingSeedDelay(&'a mut WriteLevellingSeedDelay),
    RxEnSeed(&'a mut RxEnSeed),
    LrDimmNoCs6Cs7Routing(&'a mut LrDimmNoCs6Cs7Routing),
    SolderedDownSodimm(&'a mut SolderedDownSodimm),
    LvDimmForce1V5(&'a mut LvDimmForce1V5),
    MinimumRwDataEyeWidth(&'a mut MinimumRwDataEyeWidth),
    CpuFamilyFilter(&'a mut CpuFamilyFilter),
    SolderedDownDimmsPerChannel(&'a mut SolderedDownDimmsPerChannel),
    MemPowerPolicy(&'a mut MemPowerPolicy),
    MotherboardLayers(&'a mut MotherboardLayers),
}

impl<'a> MutElementRef<'a> {
    /// The bytes of this element.
    pub open spec fn spec_bytes(self) -> Seq<u8> {
        match self {
            MutElementRef::Unknown(b) => b@,
            MutElementRef::CkeTristateMap(x) => x.spec_to_bytes(),
            MutElementRef::OdtTristateMap(x) => x.spec_to_bytes(),
            MutElementRef::CsTristateMap(x) => x.spec_to_bytes(),
            MutElementRef::MaxDimmsPerChannel(x) => x.spec_to_bytes(),
            MutElementRef::MaxDimmsPerChannel6(x) => x.spec_to_bytes(),
            MutElementRef::MemclkMap(x) => x.spec_to_bytes(),
            MutElementRef::MaxChannelsPerSocket(x) => x.spec_to_bytes(),
            MutElementRef::MemBusSpeed(x) => x.spec_to_bytes(),
            MutElementRef::MaxCsPerChannel(x) => x.spec_to_bytes(),
            MutElementRef::MemTechnology(x) => x.spec_to_bytes(),
            MutElementRef::WriteLevellingSeedDelay(x) => x.spec_to_bytes(),
            MutElementRef::RxEnSeed(x) => x.spec_to_bytes(),
            MutElementRef::LrDimmNoCs6Cs7Routing(x) => x.spec_to_bytes(),
            MutElementRef::SolderedDownSodimm(x) => x.spec_to_bytes(),
            MutElementRef::LvDimmForce1V5(x) => x.spec_to_bytes(),
            MutElementRef::MinimumRwDataEyeWidth(x) => x.spec_to_bytes(),
            MutElementRef::CpuFamilyFilter(x) => x.spec_to_bytes(),
            MutElementRef::SolderedDownDimmsPerChannel(x) => x.spec_to_bytes(),
            MutElementRef::MemPowerPolicy(x) => x.spec_to_bytes(),
            MutElementRef::MotherboardLayers(x) => x.spec_to_bytes(),
        }
    }

    /// The type tag of this element, if it is of a known kind.
    pub open spec fn spec_tag(self) -> Option<u16> {
        match self {
            MutElementRef::Unknown(_) => None,
            MutElementRef::CkeTristateMap(_) => Some(1u16),
            MutElementRef::OdtTristateMap(_) => Some(2u16),
            MutElementRef::CsTristateMap(_) => Some(3u16),
            MutElementRef::MaxDimmsPerChannel(_) => Some(4u16),
            MutElementRef::MaxDimmsPerChannel6(_) => Some(4u16),
            MutElementRef::MemclkMap(_) => Some(7u16),
            MutElementRef::MaxChannelsPerSocket(_) => Some(8u16),
            MutElementRef::MemBusSpeed(_) => Some(9u16),
            MutElementRef::MaxCsPerChannel(_) => Some(10u16),
            MutElementRef::MemTechnology(_) => Some(11u16),
            MutElementRef::WriteLevellingSeedDelay(_) => Some(12u16),
            MutElementRef::RxEnSeed(_) => Some(13u16),
            MutElementRef::LrDimmNoCs6Cs7Routing(_) => Some(14u16),
            MutElementRef::SolderedDownSodimm(_) => Some(15u16),
            MutElementRef::LvDimmForce1V5(_) => Some(16u16),
            MutElementRef::MinimumRwDataEyeWidth(_) => Some(17u16),
            MutElementRef::CpuFamilyFilter(_) => Some(18u16),
            MutElementRef::SolderedDownDimmsPerChannel(_) => Some(19u16),
            MutElementRef::MemPowerPolicy(_) => Some(20u16),
            MutElementRef::MotherboardLayers(_) => Some(21u16),
        }
    }
}

impl<'a> EntryCompatible for MutElementRef<'a> {
    /// Any chunk of a platform-specific override entry (even an empty one).
    fn is_entry_compatible(entry_id: EntryId, _prefix: &[u8]) -> (r: bool)
        ensures
            r == (entry_id == EntryId::Memory(MemoryEntryId::PlatformSpecificOverride)),
    {
        matches!(entry_id, EntryId::Memory(MemoryEntryId::PlatformSpecificOverride))
    }

    /// The type and the size of the element that PREFIX starts with; a zero byte is
    /// padding and is skipped on its own.
    fn skip_step(entry_id: EntryId, prefix: &[u8]) -> (r: Option<(u16, usize)>)
        ensures
            r == spec_element_skip_step(entry_id, prefix@),
    {
        element_skip_step(entry_id, prefix)
    }
}

impl<'a> From<&'a mut CkeTristateMap> for MutElementRef<'a> {
    fn from(from: &'a mut CkeTristateMap) -> (r: Self)
        ensures
            r matches MutElementRef::CkeTristateMap(x) && *x == *old(from) && *final(x) == *final(from),
    {
        MutElementRef::CkeTristateMap(from)
    }
}

impl<'a> vstd::std_specs::convert::FromSpecImpl<&'a mut CkeTristateMap> for MutElementRef<'a> {
    /// The element holds the very reference it was made from, which a contract cannot
    /// compare for equality; `from` states instead what the element points to.
    open spec fn obeys_from_spec() -> bool {
        false
    }

    open spec fn from_spec(from: &'a mut CkeTristateMap) -> Self {
        MutElementRef::CkeTristateMap(from)
    }
}

impl<'a> From<&'a mut OdtTristateMap> for MutElementRef<'a> {
    fn from(from: &'a mut OdtTristateMap) -> (r: Self)
        ensures
            r matches MutElementRef::OdtTristateMap(x) && *x == *old(from) && *final(x) == *final(from),
    {
        MutElementRef::OdtTristateMap(from)
    }
}

impl<'a> vstd::std_specs::convert::FromSpecImpl<&'a mut OdtTristateMap> for MutElementRef<'a> {
    /// The element holds the very reference it was made from, which a contract cannot
    /// compare for equality; `from` states instead what the element points to.
    open spec fn obeys_from_spec() -> bool {
        false
    }

    open spec fn from_spec(from: &'a mut OdtTristateMap) -> Self {
        MutElementRef::OdtTristateMap(from)
    }
}

impl<'a> From<&'a mut CsTristateMap> for MutElementRef<'a> {
    fn from(from: &'a mut CsTristateMap) -> (r: Self)
        ensures
            r matches MutElementRef::CsTristateMap(x) && *x == *old(from) && *final(x) == *final(from),
    {
        MutElementRef::CsTristateMap(from)
    }
}

impl<'a> vstd::std_specs::convert::FromSpecImpl<&'a mut CsTristateMap> for MutElementRef<'a> {
    /// The element holds the very reference it was made from, which a contract cannot
    /// compare for equality; `from` states instead what the element points to.
    open spec fn obeys_from_spec() -> bool {
        false
    }

    open spec fn from_spec(from: &'a mut CsTristateMap) -> Self {
        MutElementRef::CsTristateMap(from)
    }
}

impl<'a> From<&'a mut MaxDimmsPerChannel> for MutElementRef<'a> {
    fn from(from: &'a mut MaxDimmsPerChannel) -> (r: Self)
        ensures
            r matches MutElementRef::MaxDimmsPerChannel(x) && *x == *old(from) && *final(x) == *final(from),
    {
        MutElementRef::MaxDimmsPerChannel(from)
    }
}

impl<'a> vstd::std_specs::convert::FromSpecImpl<&'a mut MaxDimmsPerChannel> for MutElementRef<'a> {
    /// The element holds the very reference it was made from, which a contract cannot
    /// compare for equality; `from` states instead what the element points to.
    open spec fn obeys_from_spec() -> bool {
        false
    }

    open spec fn from_spec(from: &'a mut MaxDimmsPerChannel) -> Self {
        MutElementRef::MaxDimmsPerChannel(from)
    }
}

impl<'a> From<&'a mut MaxDimmsPerChannel6> for MutElementRef<'a> {
    fn from(from: &'a mut MaxDimmsPerChannel6) -> (r: Self)
        ensures
            r matches MutElementRef::MaxDimmsPerChannel6(x) && *x == *old(from) && *final(x) == *final(from),
    {
        MutElementRef::MaxDimmsPerChannel6(from)
    }
}

impl<'a> vstd::std_specs::convert::FromSpecImpl<&'a mut MaxDimmsPerChannel6> for MutElementRef<'a> {
    /// The element holds the very reference it was made from, which a contract cannot
    /// compare for equality; `from` states instead what the element points to.
    open spec fn obeys_from_spec() -> bool {
        false
    }

    open spec fn from_spec(from: &'a mut MaxDimmsPerChannel6) -> Self {
        MutElementRef::MaxDimmsPerChannel6(from)
    }
}

impl<'a> From<&'a mut MemclkMap> for MutElementRef<'a> {
    fn from(from: &'a mut MemclkMap) -> (r: Self)
        ensures
            r matches MutElementRef::MemclkMap(x) && *x == *old(from) && *final(x) == *final(from),
    {
        MutElementRef::MemclkMap(from)
    }
}

impl<'a> vstd::std_specs::convert::FromSpecImpl<&'a mut MemclkMap> for MutElementRef<'a> {
    /// The element holds the very reference it was made from, which a contract cannot
    /// compare for equality; `from` states instead what the element points to.
    open spec fn obeys_from_spec() -> bool {
        false
    }

    open spec fn from_spec(from: &'a mut MemclkMap) -> Self {
        MutElementRef::MemclkMap(from)
    }
}

impl<'a> From<&'a mut MaxChannelsPerSocket> for MutElementRef<'a> {
    fn from(from: &'a mut MaxChannelsPerSocket) -> (r: Self)
        ensures
            r matches MutElementRef::MaxChannelsPerSocket(x) && *x == *old(from) && *final(x) == *final(from),
    {
        MutElementRef::MaxChannelsPerSocket(from)
    }
}

impl<'a> vstd::std_specs::convert::FromSpecImpl<&'a mut MaxChannelsPerSocket> for MutElementRef<'a> {
    /// The element holds the very reference it was made from, which a contract cannot
    /// compare for equality; `from` states instead what the element points to.
    open spec fn obeys_from_spec() -> bool {
        false
    }

    open spec fn from_spec(from: &'a mut MaxChannelsPerSocket) -> Self {
        MutElementRef::MaxChannelsPerSocket(from)
    }
}

impl<'a> From<&'a mut MemBusSpeed> for MutElementRef<'a> {
    fn from(from: &'a mut MemBusSpeed) -> (r: Self)
        ensures
            r matches MutElementRef::MemBusSpeed(x) && *x == *old(from) && *final(x) == *final(from),
    {
        MutElementRef::MemBusSpeed(from)
    }
}

impl<'a> vstd::std_specs::convert::FromSpecImpl<&'a mut MemBusSpeed> for MutElementRef<'a> {
    /// The element holds the very reference it was made from, which a contract cannot
    /// compare for equality; `from` states instead what the element points to.
    open spec fn obeys_from_spec() -> bool {
        false
    }

    open spec fn from_spec(from: &'a mut MemBusSpeed) -> Self {
        MutElementRef::MemBusSpeed(from)
    }
}

impl<'a> From<&'a mut MaxCsPerChannel> for MutElementRef<'a> {
    fn from(from: &'a mut MaxCsPerChannel) -> (r: Self)
        ensures
            r matches MutElementRef::MaxCsPerChannel(x) && *x == *old(from) && *final(x) == *final(from),
    {
        MutElementRef::MaxCsPerChannel(from)
    }
}

impl<'a> vstd::std_specs::convert::FromSpecImpl<&'a mut MaxCsPerChannel> for MutElementRef<'a> {
    /// The element holds the very reference it was made from, which a contract cannot
    /// compare for equality; `from` states instead what the element points to.
    open spec fn obeys_from_spec() -> bool {
        false
    }

    open spec fn from_spec(from: &'a mut MaxCsPerChannel) -> Self {
        MutElementRef::MaxCsPerChannel(from)
    }
}

impl<'a> From<&'a mut MemTechnology> for MutElementRef<'a> {
    fn from(from: &'a mut MemTechnology) -> (r: Self)
        ensures
            r matches MutElementRef::MemTechnology(x) && *x == *old(from) && *final(x) == *final(from),
    {
        MutElementRef::MemTechnology(from)
    }
}

impl<'a> vstd::std_specs::convert::FromSpecImpl<&'a mut MemTechnology> for MutElementRef<'a> {
    /// The element holds the very reference it was made from, which a contract cannot
    /// compare for equality; `from` states instead what the element points to.
    open spec fn obeys_from_spec() -> bool {
        false
    }

    open spec fn from_spec(from: &'a mut MemTechnology) -> Self {
        MutElementRef::MemTechnology(from)
    }
}

impl<'a> From<&'a mut WriteLevellingSeedDelay> for MutElementRef<'a> {
    fn from(from: &'a mut WriteLevellingSeedDelay) -> (r: Self)
        ensures
            r matches MutElementRef::WriteLevellingSeedDelay(x) && *x == *old(from) && *final(x) == *final(from),
    {
        MutElementRef::WriteLevellingSeedDelay(from)
    }
}

impl<'a> vstd::std_specs::convert::FromSpecImpl<&'a mut WriteLevellingSeedDelay> for MutElementRef<'a> {
    /// The element holds the very reference it was made from, which a contract cannot
    /// compare for equality; `from` states instead what the element points to.
    open spec fn obeys_from_spec() -> bool {
        false
    }

    open spec fn from_spec(from: &'a mut WriteLevellingSeedDelay) -> Self {
        MutElementRef::WriteLevellingSeedDelay(from)
    }
}

impl<'a> From<&'a mut RxEnSeed> for MutElementRef<'a> {
    fn from(from: &'a mut RxEnSeed) -> (r: Self)
        ensures
            r matches MutElementRef::RxEnSeed(x) && *x == *old(from) && *final(x) == *final(from),
    {
        MutElementRef::RxEnSeed(from)
    }
}

impl<'a> vstd::std_specs::convert::FromSpecImpl<&'a mut RxEnSeed> for MutElementRef<'a> {
    /// The element holds the very reference it was made from, which a contract cannot
    /// compare for equality; `from` states instead what the element points to.
    open spec fn obeys_from_spec() -> bool {
        false
    }

    open spec fn from_spec(from: &'a mut RxEnSeed) -> Self {
        MutElementRef::RxEnSeed(from)
    }
}

impl<'a> From<&'a mut LrDimmNoCs6Cs7Routing> for MutElementRef<'a> {
    fn from(from: &'a mut LrDimmNoCs6Cs7Routing) -> (r: Self)
        ensures
            r matches MutElementRef::LrDimmNoCs6Cs7Routing(x) && *x == *old(from) && *final(x) == *final(from),
    {
        MutElementRef::LrDimmNoCs6Cs7Routing(from)
    }
}

impl<'a> vstd::std_specs::convert::FromSpecImpl<&'a mut LrDimmNoCs6Cs7Routing> for MutElementRef<'a> {
    /// The element holds the very reference it was made from, which a contract cannot
    /// compare for equality; `from` states instead what the element points to.
    open spec fn obeys_from_spec() -> bool {
        false
    }

    open spec fn from_spec(from: &'a mut LrDimmNoCs6Cs7Routing) -> Self {
        MutElementRef::LrDimmNoCs6Cs7Routing(from)
    }
}

impl<'a> From<&'a mut SolderedDownSodimm> for MutElementRef<'a> {
    fn from(from: &'a mut SolderedDownSodimm) -> (r: Self)
        ensures
            r matches MutElementRef::SolderedDownSodimm(x) && *x == *old(from) && *final(x) == *final(from),
    {
        MutElementRef::SolderedDownSodimm(from)
    }
}

impl<'a> vstd::std_specs::convert::FromSpecImpl<&'a mut SolderedDownSodimm> for MutElementRef<'a> {
    /// The element holds the very reference it was made from, which a contract cannot
    /// compare for equality; `from` states instead what the element points to.
    open spec fn obeys_from_spec() -> bool {
        false
    }

    open spec fn from_spec(from: &'a mut SolderedDownSodimm) -> Self {
        MutElementRef::SolderedDownSodimm(from)
    }
}

impl<'a> From<&'a mut LvDimmForce1V5> for MutElementRef<'a> {
    fn from(from: &'a mut LvDimmForce1V5) -> (r: Self)
        ensures
            r matches MutElementRef::LvDimmForce1V5(x) && *x == *old(from) && *final(x) == *final(from),
    {
        MutElementRef::LvDimmForce1V5(from)
    }
}

impl<'a> vstd::std_specs::convert::FromSpecImpl<&'a mut LvDimmForce1V5> for MutElementRef<'a> {
    /// The element holds the very reference it was made from, which a contract cannot
    /// compare for equality; `from` states instead what the element points to.
    open spec fn obeys_from_spec() -> bool {
        false
    }

    open spec fn from_spec(from: &'a mut LvDimmForce1V5) -> Self {
        MutElementRef::LvDimmForce1V5(from)
    }
}

impl<'a> From<&'a mut MinimumRwDataEyeWidth> for MutElementRef<'a> {
    fn from(from: &'a mut MinimumRwDataEyeWidth) -> (r: Self)
        ensures
            r matches MutElementRef::MinimumRwDataEyeWidth(x) && *x == *old(from) && *final(x) == *final(from),
    {
        MutElementRef::MinimumRwDataEyeWidth(from)
    }
}

impl<'a> vstd::std_specs::convert::FromSpecImpl<&'a mut MinimumRwDataEyeWidth> for MutElementRef<'a> {
    /// The element holds the very reference it was made from, which a contract cannot
    /// compare for equality; `from` states instead what the element points to.
    open spec fn obeys_from_spec() -> bool {
        false
    }

    open spec fn from_spec(from: &'a mut MinimumRwDataEyeWidth) -> Self {
        MutElementRef::MinimumRwDataEyeWidth(from)
    }
}

impl<'a> From<&'a mut CpuFamilyFilter> for MutElementRef<'a> {
    fn from(from: &'a mut CpuFamilyFilter) -> (r: Self)
        ensures
            r matches MutElementRef::CpuFamilyFilter(x) && *x == *old(from) && *final(x) == *final(from),
    {
        MutElementRef::CpuFamilyFilter(from)
    }
}

impl<'a> vstd::std_specs::convert::FromSpecImpl<&'a mut CpuFamilyFilter> for MutElementRef<'a> {
    /// The element holds the very reference it was made from, which a contract cannot
    /// compare for equality; `from` states instead what the element points to.
    open spec fn obeys_from_spec() -> bool {
        false
    }

    open spec fn from_spec(from: &'a mut CpuFamilyFilter) -> Self {
        MutElementRef::CpuFamilyFilter(from)
    }
}

impl<'a> From<&'a mut SolderedDownDimmsPerChannel> for MutElementRef<'a> {
    fn from(from: &'a mut SolderedDownDimmsPerChannel) -> (r: Self)
        ensures
            r matches MutElementRef::SolderedDownDimmsPerChannel(x) && *x == *old(from) && *final(x) == *final(from),
    {
        MutElementRef::SolderedDownDimmsPerChannel(from)
    }
}

impl<'a> vstd::std_specs::convert::FromSpecImpl<&'a mut SolderedDownDimmsPerChannel> for MutElementRef<'a> {
    /// The element holds the very reference it was made from, which a contract cannot
    /// compare for equality; `from` states instead what the element points to.
    open spec fn obeys_from_spec() -> bool {
        false
    }

    open spec fn from_spec(from: &'a mut SolderedDownDimmsPerChannel) -> Self {
        MutElementRef::SolderedDownDimmsPerChannel(from)
    }
}

impl<'a> From<&'a mut MemPowerPolicy> for MutElementRef<'a> {
    fn from(from: &'a mut MemPowerPolicy) -> (r: Self)
        ensures
            r matches MutElementRef::MemPowerPolicy(x) && *x == *old(from) && *final(x) == *final(from),
    {
        MutElementRef::MemPowerPolicy(from)
    }
}

impl<'a> vstd::std_specs::convert::FromSpecImpl<&'a mut MemPowerPolicy> for MutElementRef<'a> {
    /// The element holds the very reference it was made from, which a contract cannot
    /// compare for equality; `from` states instead what the element points to.
    open spec fn obeys_from_spec() -> bool {
        false
    }

    open spec fn from_spec(from: &'a mut MemPowerPolicy) -> Self {
        MutElementRef::MemPowerPolicy(from)
    }
}

impl<'a> From<&'a mut MotherboardLayers> for MutElementRef<'a> {
    fn from(from: &'a mut MotherboardLayers) -> (r: Self)
        ensures
            r matches MutElementRef::MotherboardLayers(x) && *x == *old(from) && *final(x) == *final(from),
    {
        MutElementRef::MotherboardLayers(from)
    }
}

impl<'a> vstd::std_specs::convert::FromSpecImpl<&'a mut MotherboardLayers> for MutElementRef<'a> {
    /// The element holds the very reference it was made from, which a contract cannot
    /// compare for equality; `from` states instead what the element points to.
    open spec fn obeys_from_spec() -> bool {
        false
    }

    open spec fn from_spec(from: &'a mut MotherboardLayers) -> Self {
        MutElementRef::MotherboardLayers(from)
    }
}

/// Whether an element of type TYPE_ and SIZE bytes is of a known kind.
pub open spec fn spec_is_known_element(type_: u16, size: usize) -> bool {
    (type_ == 1 && size == 9)
        || (type_ == 2 && size == 9)
        || (type_ == 3 && size == 13)
        || (type_ == 4 && size == 6)
        || (type_ == 4 && size == 8)
        || (type_ == 7 && size == 13)
        || (type_ == 8 && size == 6)
        || (type_ == 9 && size == 13)
        || (type_ == 10 && size == 6)
        || (type_ == 11 && size == 9)
        || (type_ == 12 && size == 14)
        || (type_ == 13 && size == 23)
        || (type_ == 14 && size == 6)
        || (type_ == 15 && size == 6)
        || (type_ == 16 && size == 6)
        || (type_ == 17 && size == 7)
        || (type_ == 18 && size == 6)
        || (type_ == 19 && size == 6)
        || (type_ == 20 && size == 6)
        || (type_ == 21 && size == 6)
}

impl<'a> SequenceElementFromBytes<'a> for ElementRef<'a> {
    /// An element of an unknown kind must fit in WORLD.
    open spec fn spec_parse_defined(entry_id: EntryId, world: Seq<u8>) -> bool {
        match spec_element_skip_step(entry_id, world) {
            Some((t, s)) => spec_is_known_element(t, s) || s <= world.len(),
            None => true,
        }
    }

    /// Parses the element that (*WORLD) starts with. A known kind must have its exact size
    /// and must fit in (*WORLD); if it does not, the result is an error and (*WORLD) is left
    /// empty.
    fn checked_from_bytes(entry_id: EntryId, world: &mut &'a [u8]) -> (r: Result<Self>)
        ensures
            match spec_element_skip_step(entry_id, old(world)@) {
                None => r == Err::<ElementRef<'a>, Error>(Error::EntryTypeMismatch) && final(world)@ == old(world)@,
                Some((t, s)) => if spec_is_known_element(t, s) {
                    if s <= old(world)@.len() {
                        &&& r matches Ok(e) && e.spec_tag() == Some(t) && e.spec_bytes() == old(world)@.subrange(0, s as int)
                        &&& final(world)@ == old(world)@.subrange(s as int, old(world)@.len() as int)
                    } else {
                        r == Err::<ElementRef<'a>, Error>(Error::EntryTypeMismatch) && final(world)@.len() == 0
                    }
                } else {
                    &&& r matches Ok(ElementRef::Unknown(b)) && b@ == old(world)@.subrange(0, s as int)
                    &&& final(world)@ == old(world)@.subrange(s as int, old(world)@.len() as int)
                },
            },
    {
        let step = element_skip_step(entry_id, *world);
        match step {
            None => Err(Error::EntryTypeMismatch),
            Some((type_, skip_step)) => {
                let mut xbuf: &'a [u8] = *world;
                let (_, empty) = xbuf.split_at(xbuf.len());
                *world = empty;
                let result: ElementRef<'a> = if skip_step == 9 && type_ == 1 {
                match take_header_from_collection::<CkeTristateMap>(&mut xbuf) {
                    Some(x) => ElementRef::CkeTristateMap(x),
                    None => {
                        return Err(Error::EntryTypeMismatch);
                    },
                }
            } else if skip_step == 9 && type_ == 2 {
                match take_header_from_collection::<OdtTristateMap>(&mut xbuf) {
                    Some(x) => ElementRef::OdtTristateMap(x),
                    None => {
                        return Err(Error::EntryTypeMismatch);
                    },
                }
            } else if skip_step == 13 && type_ == 3 {
                match take_header_from_collection::<CsTristateMap>(&mut xbuf) {
                    Some(x) => ElementRef::CsTristateMap(x),
                    None => {
                        return Err(Error::EntryTypeMismatch);
                    },
                }
            } else if skip_step == 6 && type_ == 4 {
                match take_header_from_collection::<MaxDimmsPerChannel>(&mut xbuf) {
                    Some(x) => ElementRef::MaxDimmsPerChannel(x),
                    None => {
                        return Err(Error::EntryTypeMismatch);
                    },
                }
            } else if skip_step == 8 && type_ == 4 {
                match take_header_from_collection::<MaxDimmsPerChannel6>(&mut xbuf) {
                    Some(x) => ElementRef::MaxDimmsPerChannel6(x),
                    None => {
                        return Err(Error::EntryTypeMismatch);
                    },
                }
            } else if skip_step == 13 && type_ == 7 {
                match take_header_from_collection::<MemclkMap>(&mut xbuf) {
                    Some(x) => ElementRef::MemclkMap(x),
                    None => {
                        return Err(Error::EntryTypeMismatch);
                    },
                }
            } else if skip_step == 6 && type_ == 8 {
                match take_header_from_collection::<MaxChannelsPerSocket>(&mut xbuf) {
                    Some(x) => ElementRef::MaxChannelsPerSocket(x),
                    None => {
                        return Err(Error::EntryTypeMismatch);
                    },
                }
            } else if skip_step == 13 && type_ == 9 {
                match take_header_from_collection::<MemBusSpeed>(&mut xbuf) {
                    Some(x) => ElementRef::MemBusSpeed(x),
                    None => {
                        return Err(Error::EntryTypeMismatch);
                    },
                }
            } else if skip_step == 6 && type_ == 10 {
                match take_header_from_collection::<MaxCsPerChannel>(&mut xbuf) {
                    Some(x) => ElementRef::MaxCsPerChannel(x),
                    None => {
                        return Err(Error::EntryTypeMismatch);
                    },
                }
            } else if skip_step == 9 && type_ == 11 {
                match take_header_from_collection::<MemTechnology>(&mut xbuf) {
                    Some(x) => ElementRef::MemTechnology(x),
                    None => {
                        return Err(Error::EntryTypeMismatch);
                    },
                }
            } else if skip_step == 14 && type_ == 12 {
                match take_header_from_collection::<WriteLevellingSeedDelay>(&mut xbuf) {
                    Some(x) => ElementRef::WriteLevellingSeedDelay(x),
                    None => {
                        return Err(Error::EntryTypeMismatch);
                    },
                }
            } else if skip_step == 23 && type_ == 13 {
                match take_header_from_collection::<RxEnSeed>(&mut xbuf) {
                    Some(x) => ElementRef::RxEnSeed(x),
                    None => {
                        return Err(Error::EntryTypeMismatch);
                    },
                }
            } else if skip_step == 6 && type_ == 14 {
                match take_header_from_collection::<LrDimmNoCs6Cs7Routing>(&mut xbuf) {
                    Some(x) => ElementRef::LrDimmNoCs6Cs7Routing(x),
                    None => {
                        return Err(Error::EntryTypeMismatch);
                    },
                }
            } else if skip_step == 6 && type_ == 15 {
                match take_header_from_collection::<SolderedDownSodimm>(&mut xbuf) {
                    Some(x) => ElementRef::SolderedDownSodimm(x),
                    None => {
                        return Err(Error::EntryTypeMismatch);
                    },
                }
            } else if skip_step == 6 && type_ == 16 {
                match take_header_from_collection::<LvDimmForce1V5>(&mut xbuf) {
                    Some(x) => ElementRef::LvDimmForce1V5(x),
                    None => {
                        return Err(Error::EntryTypeMismatch);
                    },
                }
            } else if skip_step == 7 && type_ == 17 {
                match take_header_from_collection::<MinimumRwDataEyeWidth>(&mut xbuf) {
                    Some(x) => ElementRef::MinimumRwDataEyeWidth(x),
                    None => {
                        return Err(Error::EntryTypeMismatch);
                    },
                }
            } else if skip_step == 6 && type_ == 18 {
                match take_header_from_collection::<CpuFamilyFilter>(&mut xbuf) {
                    Some(x) => ElementRef::CpuFamilyFilter(x),
                    None => {
                        return Err(Error::EntryTypeMismatch);
                    },
                }
            } else if skip_step == 6 && type_ == 19 {
                match take_header_from_collection::<SolderedDownDimmsPerChannel>(&mut xbuf) {
                    Some(x) => ElementRef::SolderedDownDimmsPerChannel(x),
                    None => {
                        return Err(Error::EntryTypeMismatch);
                    },
                }
            } else if skip_step == 6 && type_ == 20 {
                match take_header_from_collection::<MemPowerPolicy>(&mut xbuf) {
                    Some(x) => ElementRef::MemPowerPolicy(x),
                    None => {
                        return Err(Error::EntryTypeMismatch);
                    },
                }
            } else if skip_step == 6 && type_ == 21 {
                match take_header_from_collection::<MotherboardLayers>(&mut xbuf) {
                    Some(x) => ElementRef::MotherboardLayers(x),
                    None => {
                        return Err(Error::EntryTypeMismatch);
                    },
                }
            } else {
                    let (raw_value, b) = xbuf.split_at(skip_step);
                    xbuf = b;
                    ElementRef::Unknown(raw_value)
                };
                *world = xbuf;
                Ok(result)
            },
        }
    }
}

impl<'a> ElementRef<'a> {
    /// Whether this element is of a known kind and its type and size fields are those of
    /// its kind.
    pub open spec fn spec_has_own_header(self) -> bool {
        match self {
            ElementRef::Unknown(_) => false,
            ElementRef::CkeTristateMap(x) => x.spec_type_() == 1 && x.spec_payload_size() == 7,
            ElementRef::OdtTristateMap(x) => x.spec_type_() == 2 && x.spec_payload_size() == 7,
            ElementRef::CsTristateMap(x) => x.spec_type_() == 3 && x.spec_payload_size() == 11,
            ElementRef::MaxDimmsPerChannel(x) => x.spec_type_() == 4 && x.spec_payload_size() == 4,
            ElementRef::MaxDimmsPerChannel6(x) => x.spec_type_() == 4 && x.spec_payload_size() == 6,
            ElementRef::MemclkMap(x) => x.spec_type_() == 7 && x.spec_payload_size() == 11,
            ElementRef::MaxChannelsPerSocket(x) => x.spec_type_() == 8 && x.spec_payload_size() == 4,
            ElementRef::MemBusSpeed(x) => x.spec_type_() == 9 && x.spec_payload_size() == 11,
            ElementRef::MaxCsPerChannel(x) => x.spec_type_() == 10 && x.spec_payload_size() == 4,
            ElementRef::MemTechnology(x) => x.spec_type_() == 11 && x.spec_payload_size() == 7,
            ElementRef::WriteLevellingSeedDelay(x) => x.spec_type_() == 12 && x.spec_payload_size() == 12,
            ElementRef::RxEnSeed(x) => x.spec_type_() == 13 && x.spec_payload_size() == 21,
            ElementRef::LrDimmNoCs6Cs7Routing(x) => x.spec_type_() == 14 && x.spec_payload_size() == 4,
            ElementRef::SolderedDownSodimm(x) => x.spec_type_() == 15 && x.spec_payload_size() == 4,
            ElementRef::LvDimmForce1V5(x) => x.spec_type_() == 16 && x.spec_payload_size() == 4,
            ElementRef::MinimumRwDataEyeWidth(x) => x.spec_type_() == 17 && x.spec_payload_size() == 5,
            ElementRef::CpuFamilyFilter(x) => x.spec_type_() == 18 && x.spec_payload_size() == 4,
            ElementRef::SolderedDownDimmsPerChannel(x) => x.spec_type_() == 19 && x.spec_payload_size() == 4,
            ElementRef::MemPowerPolicy(x) => x.spec_type_() == 20 && x.spec_payload_size() == 4,
            ElementRef::MotherboardLayers(x) => x.spec_type_() == 21 && x.spec_payload_size() == 4,
        }
    }
}

/// Writing an element of a known kind (with the type and size fields of its kind) and
/// reading from its bytes, whatever follows them, finds an element of that kind and that
/// size: so the parse gives back an element with the same tag and the same bytes.
pub proof fn lemma_element_roundtrip<'a>(e: ElementRef<'a>, rest: Seq<u8>)
    requires
        e.spec_has_own_header(),
    ensures
        ({
            let bytes = e.spec_bytes() + rest;
            &&& spec_element_skip_step(EntryId::Memory(MemoryEntryId::PlatformSpecificOverride), bytes) == Some(
                (e.spec_tag()->0, e.spec_bytes().len() as usize),
            )
            &&& spec_is_known_element(e.spec_tag()->0, e.spec_bytes().len() as usize)
            &&& e.spec_bytes().len() <= bytes.len()
        }),
{
    match e {
        ElementRef::Unknown(_) => {},
        ElementRef::CkeTristateMap(x) => {
            lemma_cke_tristate_map_bytes_pieces(x);
            assert((x.spec_to_bytes() + rest).subrange(0, 2) =~= x.spec_to_bytes().subrange(0, 2));
        },
        ElementRef::OdtTristateMap(x) => {
            lemma_odt_tristate_map_bytes_pieces(x);
            assert((x.spec_to_bytes() + rest).subrange(0, 2) =~= x.spec_to_bytes().subrange(0, 2));
        },
        ElementRef::CsTristateMap(x) => {
            lemma_cs_tristate_map_bytes_pieces(x);
            assert((x.spec_to_bytes() + rest).subrange(0, 2) =~= x.spec_to_bytes().subrange(0, 2));
        },
        ElementRef::MaxDimmsPerChannel(x) => {
            lemma_max_dimms_per_channel_bytes_pieces(x);
            assert((x.spec_to_bytes() + rest).subrange(0, 2) =~= x.spec_to_bytes().subrange(0, 2));
        },
        ElementRef::MaxDimmsPerChannel6(x) => {
            lemma_max_dimms_per_channel6_bytes_pieces(x);
            assert((x.spec_to_bytes() + rest).subrange(0, 2) =~= x.spec_to_bytes().subrange(0, 2));
        },
        ElementRef::MemclkMap(x) => {
            lemma_memclk_map_bytes_pieces(x);
            assert((x.spec_to_bytes() + rest).subrange(0, 2) =~= x.spec_to_bytes().subrange(0, 2));
        },
        ElementRef::MaxChannelsPerSocket(x) => {
            lemma_max_channels_per_socket_bytes_pieces(x);
            assert((x.spec_to_bytes() + rest).subrange(0, 2) =~= x.spec_to_bytes().subrange(0, 2));
        },
        ElementRef::MemBusSpeed(x) => {
            lemma_mem_bus_speed_bytes_pieces(x);
            assert((x.spec_to_bytes() + rest).subrange(0, 2) =~= x.spec_to_bytes().subrange(0, 2));
        },
        ElementRef::MaxCsPerChannel(x) => {
            lemma_max_cs_per_channel_bytes_pieces(x);
            assert((x.spec_to_bytes() + rest).subrange(0, 2) =~= x.spec_to_bytes().subrange(0, 2));
        },
        ElementRef::MemTechnology(x) => {
            lemma_mem_technology_bytes_pieces(x);
            assert((x.spec_to_bytes() + rest).subrange(0, 2) =~= x.spec_to_bytes().subrange(0, 2));
        },
        ElementRef::WriteLevellingSeedDelay(x) => {
            lemma_write_levelling_seed_delay_bytes_pieces(x);
            assert((x.spec_to_bytes() + rest).subrange(0, 2) =~= x.spec_to_bytes().subrange(0, 2));
        },
        ElementRef::RxEnSeed(x) => {
            lemma_rx_en_seed_bytes_pieces(x);
            assert((x.spec_to_bytes() + rest).subrange(0, 2) =~= x.spec_to_bytes().subrange(0, 2));
        },
        ElementRef::LrDimmNoCs6Cs7Routing(x) => {
            lemma_lr_dimm_no_cs6_cs7_routing_bytes_pieces(x);
            assert((x.spec_to_bytes() + rest).subrange(0, 2) =~= x.spec_to_bytes().subrange(0, 2));
        },
        ElementRef::SolderedDownSodimm(x) => {
            lemma_soldered_down_sodimm_bytes_pieces(x);
            assert((x.spec_to_bytes() + rest).subrange(0, 2) =~= x.spec_to_bytes().subrange(0, 2));
        },
        ElementRef::LvDimmForce1V5(x) => {
            lemma_lv_dimm_force1v5_bytes_pieces(x);
            assert((x.spec_to_bytes() + rest).subrange(0, 2) =~= x.spec_to_bytes().subrange(0, 2));
        },
        ElementRef::MinimumRwDataEyeWidth(x) => {
            lemma_minimum_rw_data_eye_width_bytes_pieces(x);
            assert((x.spec_to_bytes() + rest).subrange(0, 2) =~= x.spec_to_bytes().subrange(0, 2));
        },
        ElementRef::CpuFamilyFilter(x) => {
            lemma_cpu_family_filter_bytes_pieces(x);
            assert((x.spec_to_bytes() + rest).subrange(0, 2) =~= x.spec_to_bytes().subrange(0, 2));
        },
        ElementRef::SolderedDownDimmsPerChannel(x) => {
            lemma_soldered_down_dimms_per_channel_bytes_pieces(x);
            assert((x.spec_to_bytes() + rest).subrange(0, 2) =~= x.spec_to_bytes().subrange(0, 2));
        },
        ElementRef::MemPowerPolicy(x) => {
            lemma_mem_power_policy_bytes_pieces(x);
            assert((x.spec_to_bytes() + rest).subrange(0, 2) =~= x.spec_to_bytes().subrange(0, 2));
        },
        ElementRef::MotherboardLayers(x) => {
            lemma_motherboard_layers_bytes_pieces(x);
            assert((x.spec_to_bytes() + rest).subrange(0, 2) =~= x.spec_to_bytes().subrange(0, 2));
        },
    }
}

} // verus!
