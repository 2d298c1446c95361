use crate::bits::{field_u8, field_u16, field_u32, field_u64, lemma_masked_bound_u64, lemma_shift_table_u8, lemma_shift_table_u16, lemma_shift_table_u32, lemma_shift_table_u64, lemma_with_field_other_u8, lemma_with_field_other_u16, lemma_with_field_other_u32, lemma_with_field_other_u64, lemma_with_field_same_u8, lemma_with_field_same_u16, lemma_with_field_same_u32, lemma_with_field_same_u64, spec_field_u8, spec_field_u16, spec_field_u32, spec_field_u64, spec_with_field_u8, spec_with_field_u16, spec_with_field_u32, spec_with_field_u64, with_field_u8, with_field_u16, with_field_u32, with_field_u64};
use crate::le::{append_bytes, le_bytes_u16, le_bytes_u32, le_bytes_u64, lemma_auto_spec_u64_to_from_le_bytes, spec_u64_from_le_bytes, spec_u64_to_le_bytes, u64_from_le_bytes};
use crate::ondisk::collection::{ByteLayout, HeaderWithTail};
use crate::ondisk::compat::EntryCompatible;
use crate::ondisk::ids::{EntryId, GnbEntryId};
use crate::struct_accessors::{spec_bool_result_of_raw, spec_raw_of_bool};
use crate::types::{Error, Result};
use vstd::prelude::*;
use vstd::slice::slice_subrange;

verus! {

/// The link speed of an early PCIe port (three bits).
#[derive(Debug, PartialEq, Eq, Clone, Copy, Structural)]
pub enum EarlyPcieLinkSpeed {
    Maximum,
    Gen1,
    Gen2,
    Gen3,
    Gen4,
    Gen5,
    _Reserved6,
    _Reserved7,
}

impl EarlyPcieLinkSpeed {
    /// The number that stands for this value.
    pub open spec fn spec_to_u64(self) -> u64 {
        match self {
            EarlyPcieLinkSpeed::Maximum => 0x0,
            EarlyPcieLinkSpeed::Gen1 => 0x1,
            EarlyPcieLinkSpeed::Gen2 => 0x2,
            EarlyPcieLinkSpeed::Gen3 => 0x3,
            EarlyPcieLinkSpeed::Gen4 => 0x4,
            EarlyPcieLinkSpeed::Gen5 => 0x5,
            EarlyPcieLinkSpeed::_Reserved6 => 0x6,
            EarlyPcieLinkSpeed::_Reserved7 => 0x7,
        }
    }

    /// The value that VALUE stands for, if any.
    pub open spec fn spec_from_u64(value: u64) -> Option<EarlyPcieLinkSpeed> {
        match value {
            0x0 => Some(EarlyPcieLinkSpeed::Maximum),
            0x1 => Some(EarlyPcieLinkSpeed::Gen1),
            0x2 => Some(EarlyPcieLinkSpeed::Gen2),
            0x3 => Some(EarlyPcieLinkSpeed::Gen3),
            0x4 => Some(EarlyPcieLinkSpeed::Gen4),
            0x5 => Some(EarlyPcieLinkSpeed::Gen5),
            0x6 => Some(EarlyPcieLinkSpeed::_Reserved6),
            0x7 => Some(EarlyPcieLinkSpeed::_Reserved7),
            _ => None,
        }
    }

    pub fn from_u64(value: u64) -> (r: Option<EarlyPcieLinkSpeed>)
        ensures
            r == EarlyPcieLinkSpeed::spec_from_u64(value),
    {
        match value {
            0x0 => Some(EarlyPcieLinkSpeed::Maximum),
            0x1 => Some(EarlyPcieLinkSpeed::Gen1),
            0x2 => Some(EarlyPcieLinkSpeed::Gen2),
            0x3 => Some(EarlyPcieLinkSpeed::Gen3),
            0x4 => Some(EarlyPcieLinkSpeed::Gen4),
            0x5 => Some(EarlyPcieLinkSpeed::Gen5),
            0x6 => Some(EarlyPcieLinkSpeed::_Reserved6),
            0x7 => Some(EarlyPcieLinkSpeed::_Reserved7),
            _ => None,
        }
    }

    pub fn to_u64(&self) -> (r: Option<u64>)
        ensures
            r == Some(self.spec_to_u64()),
    {
        Some(
            match self {
                EarlyPcieLinkSpeed::Maximum => 0x0,
                EarlyPcieLinkSpeed::Gen1 => 0x1,
                EarlyPcieLinkSpeed::Gen2 => 0x2,
                EarlyPcieLinkSpeed::Gen3 => 0x3,
                EarlyPcieLinkSpeed::Gen4 => 0x4,
                EarlyPcieLinkSpeed::Gen5 => 0x5,
                EarlyPcieLinkSpeed::_Reserved6 => 0x6,
                EarlyPcieLinkSpeed::_Reserved7 => 0x7,
            },
        )
    }
}

/// Every value of EarlyPcieLinkSpeed is read back from its own number, and every number that is
/// read as a value is that value's number.
pub proof fn lemma_early_pcie_link_speed_roundtrip(x: EarlyPcieLinkSpeed, value: u64)
    ensures
        EarlyPcieLinkSpeed::spec_from_u64(x.spec_to_u64()) == Some(x),
        EarlyPcieLinkSpeed::spec_from_u64(value) matches Some(y) ==> y.spec_to_u64() == value,
{
}

impl EarlyPcieLinkSpeed {
    /// What the name of this value says: the PCIe generation (0 for the values that do not name one).
    pub open spec fn spec_generation(self) -> int {
        match self {
            EarlyPcieLinkSpeed::Gen1 => 1,
            EarlyPcieLinkSpeed::Gen2 => 2,
            EarlyPcieLinkSpeed::Gen3 => 3,
            EarlyPcieLinkSpeed::Gen4 => 4,
            EarlyPcieLinkSpeed::Gen5 => 5,
            EarlyPcieLinkSpeed::Maximum => 0,
            EarlyPcieLinkSpeed::_Reserved6 => 0,
            EarlyPcieLinkSpeed::_Reserved7 => 0,
        }
    }
}

/// The number of each value follows from what its name says: 1 times the number is
/// 1 times the named quantity plus 0 for the values that name one; each other value has a number of its own.
pub proof fn lemma_early_pcie_link_speed_numbers_follow_names(x: EarlyPcieLinkSpeed)
    ensures
        (x != EarlyPcieLinkSpeed::Maximum && x != EarlyPcieLinkSpeed::_Reserved6 && x != EarlyPcieLinkSpeed::_Reserved7) ==> x.spec_to_u64() == x.spec_generation(),
        x == EarlyPcieLinkSpeed::Maximum <==> x.spec_to_u64() == 0,
        x == EarlyPcieLinkSpeed::_Reserved6 <==> x.spec_to_u64() == 6,
        x == EarlyPcieLinkSpeed::_Reserved7 <==> x.spec_to_u64() == 7,
{
}

/// The reset pin of an early PCIe port (two bits).
#[derive(Debug, PartialEq, Eq, Clone, Copy, Structural)]
pub enum EarlyPcieResetPin {
    NoPin,
    Gpio26,
    Gpio266,
    _Reserved3,
}

impl EarlyPcieResetPin {
    /// The number that stands for this value.
    pub open spec fn spec_to_u64(self) -> u64 {
        match self {
            EarlyPcieResetPin::NoPin => 0x0,
            EarlyPcieResetPin::Gpio26 => 0x1,
            EarlyPcieResetPin::Gpio266 => 0x2,
            EarlyPcieResetPin::_Reserved3 => 0x3,
        }
    }

    /// The value that VALUE stands for, if any.
    pub open spec fn spec_from_u64(value: u64) -> Option<EarlyPcieResetPin> {
        match value {
            0x0 => Some(EarlyPcieResetPin::NoPin),
            0x1 => Some(EarlyPcieResetPin::Gpio26),
            0x2 => Some(EarlyPcieResetPin::Gpio266),
            0x3 => Some(EarlyPcieResetPin::_Reserved3),
            _ => None,
        }
    }

    pub fn from_u64(value: u64) -> (r: Option<EarlyPcieResetPin>)
        ensures
            r == EarlyPcieResetPin::spec_from_u64(value),
    {
        match value {
            0x0 => Some(EarlyPcieResetPin::NoPin),
            0x1 => Some(EarlyPcieResetPin::Gpio26),
            0x2 => Some(EarlyPcieResetPin::Gpio266),
            0x3 => Some(EarlyPcieResetPin::_Reserved3),
            _ => None,
        }
    }

    pub fn to_u64(&self) -> (r: Option<u64>)
        ensures
            r == Some(self.spec_to_u64()),
    {
        Some(
            match self {
                EarlyPcieResetPin::NoPin => 0x0,
                EarlyPcieResetPin::Gpio26 => 0x1,
                EarlyPcieResetPin::Gpio266 => 0x2,
                EarlyPcieResetPin::_Reserved3 => 0x3,
            },
        )
    }
}

/// Every value of EarlyPcieResetPin is read back from its own number, and every number that is
/// read as a value is that value's number.
pub proof fn lemma_early_pcie_reset_pin_roundtrip(x: EarlyPcieResetPin, value: u64)
    ensures
        EarlyPcieResetPin::spec_from_u64(x.spec_to_u64()) == Some(x),
        EarlyPcieResetPin::spec_from_u64(value) matches Some(y) ==> y.spec_to_u64() == value,
{
}

/// The configuration of one early PCIe port.
#[derive(Debug, Clone, Copy, PartialEq, Eq, Structural)]
pub struct EarlyPcieConfigBody(u64);

impl EarlyPcieConfigBody {
    /// The packed bits.
    pub closed spec fn spec_raw(self) -> u64 {
        self.0
    }

    /// The value with the given packed bits.
    pub closed spec fn spec_from_raw(raw: u64) -> Self {
        EarlyPcieConfigBody(raw)
    }

    /// The packed bits determine the value, and any packed bits make a value.
    pub proof fn lemma_raw(x: Self, raw: u64)
        ensures
            Self::spec_from_raw(raw).spec_raw() == raw,
            Self::spec_from_raw(x.spec_raw()) == x,
    {
    }

    pub open spec fn spec_start_lane(self) -> u64 {
        spec_field_u64(self.spec_raw(), 0, 8)
    }

    pub open spec fn spec_end_lane(self) -> u64 {
        spec_field_u64(self.spec_raw(), 8, 8)
    }

    pub open spec fn spec_socket(self) -> u64 {
        spec_field_u64(self.spec_raw(), 16, 2)
    }

    pub open spec fn spec_port_present(self) -> bool {
        spec_field_u64(self.spec_raw(), 18, 1) == 1
    }

    pub open spec fn spec_link_speed(self) -> u64 {
        spec_field_u64(self.spec_raw(), 19, 3)
    }

    pub open spec fn spec_reset_pin(self) -> u64 {
        spec_field_u64(self.spec_raw(), 22, 2)
    }

    pub open spec fn spec_root_function(self) -> u64 {
        spec_field_u64(self.spec_raw(), 24, 3)
    }

    pub open spec fn spec_root_device(self) -> u64 {
        spec_field_u64(self.spec_raw(), 27, 5)
    }

    pub open spec fn spec_max_payload(self) -> u64 {
        spec_field_u64(self.spec_raw(), 32, 8)
    }

    pub open spec fn spec_tx_deemphasis(self) -> u64 {
        spec_field_u64(self.spec_raw(), 40, 8)
    }

    /// All bits clear.
    pub fn new() -> (r: Self)
        ensures
            r.spec_raw() == 0,
    {
        EarlyPcieConfigBody(0)
    }

    /// The value with the given packed bits.
    pub fn from_raw(raw: u64) -> (r: Self)
        ensures
            r.spec_raw() == raw,
            r == Self::spec_from_raw(raw),
    {
        EarlyPcieConfigBody(raw)
    }

    /// The packed bits.
    pub fn into_raw(self) -> (r: u64)
        ensures
            r == self.spec_raw(),
    {
        self.0
    }

    pub fn start_lane(&self) -> (r: u8)
        ensures
            r == self.spec_start_lane(),
            r < 0x100,
    {
        proof {
            lemma_shift_table_u64();
        }
        field_u64(self.0, 0, 8) as u8
    }

    pub fn set_start_lane(&mut self, value: u8)
        requires
            value < 0x100,
        ensures
            final(self).spec_raw() == spec_with_field_u64(old(self).spec_raw(), 0, 8, value as u64),
            final(self).spec_start_lane() == value as u64,
            final(self).spec_end_lane() == old(self).spec_end_lane(),
            final(self).spec_socket() == old(self).spec_socket(),
            final(self).spec_port_present() == old(self).spec_port_present(),
            final(self).spec_link_speed() == old(self).spec_link_speed(),
            final(self).spec_reset_pin() == old(self).spec_reset_pin(),
            final(self).spec_root_function() == old(self).spec_root_function(),
            final(self).spec_root_device() == old(self).spec_root_device(),
            final(self).spec_max_payload() == old(self).spec_max_payload(),
            final(self).spec_tx_deemphasis() == old(self).spec_tx_deemphasis(),
    {
        let x: u64 = value as u64;
        let ghost old_raw = self.0;
        proof {
            lemma_shift_table_u64();
            lemma_with_field_same_u64(old_raw, 0, 8, x);
            lemma_with_field_other_u64(old_raw, 0, 8, x, 8, 8);
            lemma_with_field_other_u64(old_raw, 0, 8, x, 16, 2);
            lemma_with_field_other_u64(old_raw, 0, 8, x, 18, 1);
            lemma_with_field_other_u64(old_raw, 0, 8, x, 19, 3);
            lemma_with_field_other_u64(old_raw, 0, 8, x, 22, 2);
            lemma_with_field_other_u64(old_raw, 0, 8, x, 24, 3);
            lemma_with_field_other_u64(old_raw, 0, 8, x, 27, 5);
            lemma_with_field_other_u64(old_raw, 0, 8, x, 32, 8);
            lemma_with_field_other_u64(old_raw, 0, 8, x, 40, 8);
        }
        self.0 = with_field_u64(self.0, 0, 8, x);
    }

    pub fn with_start_lane(self, value: u8) -> (r: Self)
        requires
            value < 0x100,
        ensures
            r.spec_raw() == spec_with_field_u64(self.spec_raw(), 0, 8, value as u64),
            r.spec_start_lane() == value as u64,
            r.spec_end_lane() == self.spec_end_lane(),
            r.spec_socket() == self.spec_socket(),
            r.spec_port_present() == self.spec_port_present(),
            r.spec_link_speed() == self.spec_link_speed(),
            r.spec_reset_pin() == self.spec_reset_pin(),
            r.spec_root_function() == self.spec_root_function(),
            r.spec_root_device() == self.spec_root_device(),
            r.spec_max_payload() == self.spec_max_payload(),
            r.spec_tx_deemphasis() == self.spec_tx_deemphasis(),
    {
        let mut r = self;
        r.set_start_lane(value);
        r
    }

    pub fn end_lane(&self) -> (r: u8)
        ensures
            r == self.spec_end_lane(),
            r < 0x100,
    {
        proof {
            lemma_shift_table_u64();
        }
        field_u64(self.0, 8, 8) as u8
    }

    pub fn set_end_lane(&mut self, value: u8)
        requires
            value < 0x100,
        ensures
            final(self).spec_raw() == spec_with_field_u64(old(self).spec_raw(), 8, 8, value as u64),
            final(self).spec_end_lane() == value as u64,
            final(self).spec_start_lane() == old(self).spec_start_lane(),
            final(self).spec_socket() == old(self).spec_socket(),
            final(self).spec_port_present() == old(self).spec_port_present(),
            final(self).spec_link_speed() == old(self).spec_link_speed(),
            final(self).spec_reset_pin() == old(self).spec_reset_pin(),
            final(self).spec_root_function() == old(self).spec_root_function(),
            final(self).spec_root_device() == old(self).spec_root_device(),
            final(self).spec_max_payload() == old(self).spec_max_payload(),
            final(self).spec_tx_deemphasis() == old(self).spec_tx_deemphasis(),
    {
        let x: u64 = value as u64;
        let ghost old_raw = self.0;
        proof {
            lemma_shift_table_u64();
            lemma_with_field_same_u64(old_raw, 8, 8, x);
            lemma_with_field_other_u64(old_raw, 8, 8, x, 0, 8);
            lemma_with_field_other_u64(old_raw, 8, 8, x, 16, 2);
            lemma_with_field_other_u64(old_raw, 8, 8, x, 18, 1);
            lemma_with_field_other_u64(old_raw, 8, 8, x, 19, 3);
            lemma_with_field_other_u64(old_raw, 8, 8, x, 22, 2);
            lemma_with_field_other_u64(old_raw, 8, 8, x, 24, 3);
            lemma_with_field_other_u64(old_raw, 8, 8, x, 27, 5);
            lemma_with_field_other_u64(old_raw, 8, 8, x, 32, 8);
            lemma_with_field_other_u64(old_raw, 8, 8, x, 40, 8);
        }
        self.0 = with_field_u64(self.0, 8, 8, x);
    }

    pub fn with_end_lane(self, value: u8) -> (r: Self)
        requires
            value < 0x100,
        ensures
            r.spec_raw() == spec_with_field_u64(self.spec_raw(), 8, 8, value as u64),
            r.spec_end_lane() == value as u64,
            r.spec_start_lane() == self.spec_start_lane(),
            r.spec_socket() == self.spec_socket(),
            r.spec_port_present() == self.spec_port_present(),
            r.spec_link_speed() == self.spec_link_speed(),
            r.spec_reset_pin() == self.spec_reset_pin(),
            r.spec_root_function() == self.spec_root_function(),
            r.spec_root_device() == self.spec_root_device(),
            r.spec_max_payload() == self.spec_max_payload(),
            r.spec_tx_deemphasis() == self.spec_tx_deemphasis(),
    {
        let mut r = self;
        r.set_end_lane(value);
        r
    }

    pub fn socket(&self) -> (r: u8)
        ensures
            r == self.spec_socket(),
            r < 0x4,
    {
        proof {
            lemma_shift_table_u64();
        }
        field_u64(self.0, 16, 2) as u8
    }

    pub fn set_socket(&mut self, value: u8)
        requires
            value < 0x4,
        ensures
            final(self).spec_raw() == spec_with_field_u64(old(self).spec_raw(), 16, 2, value as u64),
            final(self).spec_socket() == value as u64,
            final(self).spec_start_lane() == old(self).spec_start_lane(),
            final(self).spec_end_lane() == old(self).spec_end_lane(),
            final(self).spec_port_present() == old(self).spec_port_present(),
            final(self).spec_link_speed() == old(self).spec_link_speed(),
            final(self).spec_reset_pin() == old(self).spec_reset_pin(),
            final(self).spec_root_function() == old(self).spec_root_function(),
            final(self).spec_root_device() == old(self).spec_root_device(),
            final(self).spec_max_payload() == old(self).spec_max_payload(),
            final(self).spec_tx_deemphasis() == old(self).spec_tx_deemphasis(),
    {
        let x: u64 = value as u64;
        let ghost old_raw = self.0;
        proof {
            lemma_shift_table_u64();
            lemma_with_field_same_u64(old_raw, 16, 2, x);
            lemma_with_field_other_u64(old_raw, 16, 2, x, 0, 8);
            lemma_with_field_other_u64(old_raw, 16, 2, x, 8, 8);
            lemma_with_field_other_u64(old_raw, 16, 2, x, 18, 1);
            lemma_with_field_other_u64(old_raw, 16, 2, x, 19, 3);
            lemma_with_field_other_u64(old_raw, 16, 2, x, 22, 2);
            lemma_with_field_other_u64(old_raw, 16, 2, x, 24, 3);
            lemma_with_field_other_u64(old_raw, 16, 2, x, 27, 5);
            lemma_with_field_other_u64(old_raw, 16, 2, x, 32, 8);
            lemma_with_field_other_u64(old_raw, 16, 2, x, 40, 8);
        }
        self.0 = with_field_u64(self.0, 16, 2, x);
    }

    pub fn with_socket(self, value: u8) -> (r: Self)
        requires
            value < 0x4,
        ensures
            r.spec_raw() == spec_with_field_u64(self.spec_raw(), 16, 2, value as u64),
            r.spec_socket() == value as u64,
            r.spec_start_lane() == self.spec_start_lane(),
            r.spec_end_lane() == self.spec_end_lane(),
            r.spec_port_present() == self.spec_port_present(),
            r.spec_link_speed() == self.spec_link_speed(),
            r.spec_reset_pin() == self.spec_reset_pin(),
            r.spec_root_function() == self.spec_root_function(),
            r.spec_root_device() == self.spec_root_device(),
            r.spec_max_payload() == self.spec_max_payload(),
            r.spec_tx_deemphasis() == self.spec_tx_deemphasis(),
    {
        let mut r = self;
        r.set_socket(value);
        r
    }

    pub fn port_present(&self) -> (r: bool)
        ensures
            r == self.spec_port_present(),
    {
        field_u64(self.0, 18, 1) == 1
    }

    pub fn set_port_present(&mut self, value: bool)
        ensures
            final(self).spec_raw() == spec_with_field_u64(old(self).spec_raw(), 18, 1, (if value { 1u64 } else { 0u64 })),
            final(self).spec_port_present() == value,
            final(self).spec_start_lane() == old(self).spec_start_lane(),
            final(self).spec_end_lane() == old(self).spec_end_lane(),
            final(self).spec_socket() == old(self).spec_socket(),
            final(self).spec_link_speed() == old(self).spec_link_speed(),
            final(self).spec_reset_pin() == old(self).spec_reset_pin(),
            final(self).spec_root_function() == old(self).spec_root_function(),
            final(self).spec_root_device() == old(self).spec_root_device(),
            final(self).spec_max_payload() == old(self).spec_max_payload(),
            final(self).spec_tx_deemphasis() == old(self).spec_tx_deemphasis(),
    {
        let x: u64 = if value { 1 } else { 0 };
        let ghost old_raw = self.0;
        proof {
            lemma_shift_table_u64();
            lemma_with_field_same_u64(old_raw, 18, 1, x);
            lemma_with_field_other_u64(old_raw, 18, 1, x, 0, 8);
            lemma_with_field_other_u64(old_raw, 18, 1, x, 8, 8);
            lemma_with_field_other_u64(old_raw, 18, 1, x, 16, 2);
            lemma_with_field_other_u64(old_raw, 18, 1, x, 19, 3);
            lemma_with_field_other_u64(old_raw, 18, 1, x, 22, 2);
            lemma_with_field_other_u64(old_raw, 18, 1, x, 24, 3);
            lemma_with_field_other_u64(old_raw, 18, 1, x, 27, 5);
            lemma_with_field_other_u64(old_raw, 18, 1, x, 32, 8);
            lemma_with_field_other_u64(old_raw, 18, 1, x, 40, 8);
        }
        self.0 = with_field_u64(self.0, 18, 1, x);
    }

    pub fn with_port_present(self, value: bool) -> (r: Self)
        ensures
            r.spec_raw() == spec_with_field_u64(self.spec_raw(), 18, 1, (if value { 1u64 } else { 0u64 })),
            r.spec_port_present() == value,
            r.spec_start_lane() == self.spec_start_lane(),
            r.spec_end_lane() == self.spec_end_lane(),
            r.spec_socket() == self.spec_socket(),
            r.spec_link_speed() == self.spec_link_speed(),
            r.spec_reset_pin() == self.spec_reset_pin(),
            r.spec_root_function() == self.spec_root_function(),
            r.spec_root_device() == self.spec_root_device(),
            r.spec_max_payload() == self.spec_max_payload(),
            r.spec_tx_deemphasis() == self.spec_tx_deemphasis(),
    {
        let mut r = self;
        r.set_port_present(value);
        r
    }

    pub fn link_speed(&self) -> (r: EarlyPcieLinkSpeed)
        ensures
            Some(r) == EarlyPcieLinkSpeed::spec_from_u64(self.spec_link_speed() as u64),
    {
        proof {
            lemma_shift_table_u64();
        }
        EarlyPcieLinkSpeed::from_u64(field_u64(self.0, 19, 3) as u64).unwrap()
    }

    pub fn set_link_speed(&mut self, value: EarlyPcieLinkSpeed)
        ensures
            final(self).spec_raw() == spec_with_field_u64(old(self).spec_raw(), 19, 3, value.spec_to_u64() as u64),
            final(self).spec_link_speed() == value.spec_to_u64() as u64,
            final(self).spec_start_lane() == old(self).spec_start_lane(),
            final(self).spec_end_lane() == old(self).spec_end_lane(),
            final(self).spec_socket() == old(self).spec_socket(),
            final(self).spec_port_present() == old(self).spec_port_present(),
            final(self).spec_reset_pin() == old(self).spec_reset_pin(),
            final(self).spec_root_function() == old(self).spec_root_function(),
            final(self).spec_root_device() == old(self).spec_root_device(),
            final(self).spec_max_payload() == old(self).spec_max_payload(),
            final(self).spec_tx_deemphasis() == old(self).spec_tx_deemphasis(),
    {
        let x: u64 = value.to_u64().unwrap() as u64;
        let ghost old_raw = self.0;
        proof {
            lemma_shift_table_u64();
            lemma_with_field_same_u64(old_raw, 19, 3, x);
            lemma_with_field_other_u64(old_raw, 19, 3, x, 0, 8);
            lemma_with_field_other_u64(old_raw, 19, 3, x, 8, 8);
            lemma_with_field_other_u64(old_raw, 19, 3, x, 16, 2);
            lemma_with_field_other_u64(old_raw, 19, 3, x, 18, 1);
            lemma_with_field_other_u64(old_raw, 19, 3, x, 22, 2);
            lemma_with_field_other_u64(old_raw, 19, 3, x, 24, 3);
            lemma_with_field_other_u64(old_raw, 19, 3, x, 27, 5);
            lemma_with_field_other_u64(old_raw, 19, 3, x, 32, 8);
            lemma_with_field_other_u64(old_raw, 19, 3, x, 40, 8);
        }
        self.0 = with_field_u64(self.0, 19, 3, x);
    }

    pub fn with_link_speed(self, value: EarlyPcieLinkSpeed) -> (r: Self)
        ensures
            r.spec_raw() == spec_with_field_u64(self.spec_raw(), 19, 3, value.spec_to_u64() as u64),
            r.spec_link_speed() == value.spec_to_u64() as u64,
            r.spec_start_lane() == self.spec_start_lane(),
            r.spec_end_lane() == self.spec_end_lane(),
            r.spec_socket() == self.spec_socket(),
            r.spec_port_present() == self.spec_port_present(),
            r.spec_reset_pin() == self.spec_reset_pin(),
            r.spec_root_function() == self.spec_root_function(),
            r.spec_root_device() == self.spec_root_device(),
            r.spec_max_payload() == self.spec_max_payload(),
            r.spec_tx_deemphasis() == self.spec_tx_deemphasis(),
    {
        let mut r = self;
        r.set_link_speed(value);
        r
    }

    pub fn reset_pin(&self) -> (r: EarlyPcieResetPin)
        ensures
            Some(r) == EarlyPcieResetPin::spec_from_u64(self.spec_reset_pin() as u64),
    {
        proof {
            lemma_shift_table_u64();
        }
        EarlyPcieResetPin::from_u64(field_u64(self.0, 22, 2) as u64).unwrap()
    }

    pub fn set_reset_pin(&mut self, value: EarlyPcieResetPin)
        ensures
            final(self).spec_raw() == spec_with_field_u64(old(self).spec_raw(), 22, 2, value.spec_to_u64() as u64),
            final(self).spec_reset_pin() == value.spec_to_u64() as u64,
            final(self).spec_start_lane() == old(self).spec_start_lane(),
            final(self).spec_end_lane() == old(self).spec_end_lane(),
            final(self).spec_socket() == old(self).spec_socket(),
            final(self).spec_port_present() == old(self).spec_port_present(),
            final(self).spec_link_speed() == old(self).spec_link_speed(),
            final(self).spec_root_function() == old(self).spec_root_function(),
            final(self).spec_root_device() == old(self).spec_root_device(),
            final(self).spec_max_payload() == old(self).spec_max_payload(),
            final(self).spec_tx_deemphasis() == old(self).spec_tx_deemphasis(),
    {
        let x: u64 = value.to_u64().unwrap() as u64;
        let ghost old_raw = self.0;
        proof {
            lemma_shift_table_u64();
            lemma_with_field_same_u64(old_raw, 22, 2, x);
            lemma_with_field_other_u64(old_raw, 22, 2, x, 0, 8);
            lemma_with_field_other_u64(old_raw, 22, 2, x, 8, 8);
            lemma_with_field_other_u64(old_raw, 22, 2, x, 16, 2);
            lemma_with_field_other_u64(old_raw, 22, 2, x, 18, 1);
            lemma_with_field_other_u64(old_raw, 22, 2, x, 19, 3);
            lemma_with_field_other_u64(old_raw, 22, 2, x, 24, 3);
            lemma_with_field_other_u64(old_raw, 22, 2, x, 27, 5);
            lemma_with_field_other_u64(old_raw, 22, 2, x, 32, 8);
            lemma_with_field_other_u64(old_raw, 22, 2, x, 40, 8);
        }
        self.0 = with_field_u64(self.0, 22, 2, x);
    }

    pub fn with_reset_pin(self, value: EarlyPcieResetPin) -> (r: Self)
        ensures
            r.spec_raw() == spec_with_field_u64(self.spec_raw(), 22, 2, value.spec_to_u64() as u64),
            r.spec_reset_pin() == value.spec_to_u64() as u64,
            r.spec_start_lane() == self.spec_start_lane(),
            r.spec_end_lane() == self.spec_end_lane(),
            r.spec_socket() == self.spec_socket(),
            r.spec_port_present() == self.spec_port_present(),
            r.spec_link_speed() == self.spec_link_speed(),
            r.spec_root_function() == self.spec_root_function(),
            r.spec_root_device() == self.spec_root_device(),
            r.spec_max_payload() == self.spec_max_payload(),
            r.spec_tx_deemphasis() == self.spec_tx_deemphasis(),
    {
        let mut r = self;
        r.set_reset_pin(value);
        r
    }

    pub fn root_function(&self) -> (r: u8)
        ensures
            r == self.spec_root_function(),
            r < 0x8,
    {
        proof {
            lemma_shift_table_u64();
        }
        field_u64(self.0, 24, 3) as u8
    }

    pub fn set_root_function(&mut self, value: u8)
        requires
            value < 0x8,
        ensures
            final(self).spec_raw() == spec_with_field_u64(old(self).spec_raw(), 24, 3, value as u64),
            final(self).spec_root_function() == value as u64,
            final(self).spec_start_lane() == old(self).spec_start_lane(),
            final(self).spec_end_lane() == old(self).spec_end_lane(),
            final(self).spec_socket() == old(self).spec_socket(),
            final(self).spec_port_present() == old(self).spec_port_present(),
            final(self).spec_link_speed() == old(self).spec_link_speed(),
            final(self).spec_reset_pin() == old(self).spec_reset_pin(),
            final(self).spec_root_device() == old(self).spec_root_device(),
            final(self).spec_max_payload() == old(self).spec_max_payload(),
            final(self).spec_tx_deemphasis() == old(self).spec_tx_deemphasis(),
    {
        let x: u64 = value as u64;
        let ghost old_raw = self.0;
        proof {
            lemma_shift_table_u64();
            lemma_with_field_same_u64(old_raw, 24, 3, x);
            lemma_with_field_other_u64(old_raw, 24, 3, x, 0, 8);
            lemma_with_field_other_u64(old_raw, 24, 3, x, 8, 8);
            lemma_with_field_other_u64(old_raw, 24, 3, x, 16, 2);
            lemma_with_field_other_u64(old_raw, 24, 3, x, 18, 1);
            lemma_with_field_other_u64(old_raw, 24, 3, x, 19, 3);
            lemma_with_field_other_u64(old_raw, 24, 3, x, 22, 2);
            lemma_with_field_other_u64(old_raw, 24, 3, x, 27, 5);
            lemma_with_field_other_u64(old_raw, 24, 3, x, 32, 8);
            lemma_with_field_other_u64(old_raw, 24, 3, x, 40, 8);
        }
        self.0 = with_field_u64(self.0, 24, 3, x);
    }

    pub fn with_root_function(self, value: u8) -> (r: Self)
        requires
            value < 0x8,
        ensures
            r.spec_raw() == spec_with_field_u64(self.spec_raw(), 24, 3, value as u64),
            r.spec_root_function() == value as u64,
            r.spec_start_lane() == self.spec_start_lane(),
            r.spec_end_lane() == self.spec_end_lane(),
            r.spec_socket() == self.spec_socket(),
            r.spec_port_present() == self.spec_port_present(),
            r.spec_link_speed() == self.spec_link_speed(),
            r.spec_reset_pin() == self.spec_reset_pin(),
            r.spec_root_device() == self.spec_root_device(),
            r.spec_max_payload() == self.spec_max_payload(),
            r.spec_tx_deemphasis() == self.spec_tx_deemphasis(),
    {
        let mut r = self;
        r.set_root_function(value);
        r
    }

    pub fn root_device(&self) -> (r: u8)
        ensures
            r == self.spec_root_device(),
            r < 0x20,
    {
        proof {
            lemma_shift_table_u64();
        }
        field_u64(self.0, 27, 5) as u8
    }

    pub fn set_root_device(&mut self, value: u8)
        requires
            value < 0x20,
        ensures
            final(self).spec_raw() == spec_with_field_u64(old(self).spec_raw(), 27, 5, value as u64),
            final(self).spec_root_device() == value as u64,
            final(self).spec_start_lane() == old(self).spec_start_lane(),
            final(self).spec_end_lane() == old(self).spec_end_lane(),
            final(self).spec_socket() == old(self).spec_socket(),
            final(self).spec_port_present() == old(self).spec_port_present(),
            final(self).spec_link_speed() == old(self).spec_link_speed(),
            final(self).spec_reset_pin() == old(self).spec_reset_pin(),
            final(self).spec_root_function() == old(self).spec_root_function(),
            final(self).spec_max_payload() == old(self).spec_max_payload(),
            final(self).spec_tx_deemphasis() == old(self).spec_tx_deemphasis(),
    {
        let x: u64 = value as u64;
        let ghost old_raw = self.0;
        proof {
            lemma_shift_table_u64();
            lemma_with_field_same_u64(old_raw, 27, 5, x);
            lemma_with_field_other_u64(old_raw, 27, 5, x, 0, 8);
            lemma_with_field_other_u64(old_raw, 27, 5, x, 8, 8);
            lemma_with_field_other_u64(old_raw, 27, 5, x, 16, 2);
            lemma_with_field_other_u64(old_raw, 27, 5, x, 18, 1);
            lemma_with_field_other_u64(old_raw, 27, 5, x, 19, 3);
            lemma_with_field_other_u64(old_raw, 27, 5, x, 22, 2);
            lemma_with_field_other_u64(old_raw, 27, 5, x, 24, 3);
            lemma_with_field_other_u64(old_raw, 27, 5, x, 32, 8);
            lemma_with_field_other_u64(old_raw, 27, 5, x, 40, 8);
        }
        self.0 = with_field_u64(self.0, 27, 5, x);
    }

    pub fn with_root_device(self, value: u8) -> (r: Self)
        requires
            value < 0x20,
        ensures
            r.spec_raw() == spec_with_field_u64(self.spec_raw(), 27, 5, value as u64),
            r.spec_root_device() == value as u64,
            r.spec_start_lane() == self.spec_start_lane(),
            r.spec_end_lane() == self.spec_end_lane(),
            r.spec_socket() == self.spec_socket(),
            r.spec_port_present() == self.spec_port_present(),
            r.spec_link_speed() == self.spec_link_speed(),
            r.spec_reset_pin() == self.spec_reset_pin(),
            r.spec_root_function() == self.spec_root_function(),
            r.spec_max_payload() == self.spec_max_payload(),
            r.spec_tx_deemphasis() == self.spec_tx_deemphasis(),
    {
        let mut r = self;
        r.set_root_device(value);
        r
    }

    pub fn max_payload(&self) -> (r: u8)
        ensures
            r == self.spec_max_payload(),
            r < 0x100,
    {
        proof {
            lemma_shift_table_u64();
        }
        field_u64(self.0, 32, 8) as u8
    }

    pub fn set_max_payload(&mut self, value: u8)
        requires
            value < 0x100,
        ensures
            final(self).spec_raw() == spec_with_field_u64(old(self).spec_raw(), 32, 8, value as u64),
            final(self).spec_max_payload() == value as u64,
            final(self).spec_start_lane() == old(self).spec_start_lane(),
            final(self).spec_end_lane() == old(self).spec_end_lane(),
            final(self).spec_socket() == old(self).spec_socket(),
            final(self).spec_port_present() == old(self).spec_port_present(),
            final(self).spec_link_speed() == old(self).spec_link_speed(),
            final(self).spec_reset_pin() == old(self).spec_reset_pin(),
            final(self).spec_root_function() == old(self).spec_root_function(),
            final(self).spec_root_device() == old(self).spec_root_device(),
            final(self).spec_tx_deemphasis() == old(self).spec_tx_deemphasis(),
    {
        let x: u64 = value as u64;
        let ghost old_raw = self.0;
        proof {
            lemma_shift_table_u64();
            lemma_with_field_same_u64(old_raw, 32, 8, x);
            lemma_with_field_other_u64(old_raw, 32, 8, x, 0, 8);
            lemma_with_field_other_u64(old_raw, 32, 8, x, 8, 8);
            lemma_with_field_other_u64(old_raw, 32, 8, x, 16, 2);
            lemma_with_field_other_u64(old_raw, 32, 8, x, 18, 1);
            lemma_with_field_other_u64(old_raw, 32, 8, x, 19, 3);
            lemma_with_field_other_u64(old_raw, 32, 8, x, 22, 2);
            lemma_with_field_other_u64(old_raw, 32, 8, x, 24, 3);
            lemma_with_field_other_u64(old_raw, 32, 8, x, 27, 5);
            lemma_with_field_other_u64(old_raw, 32, 8, x, 40, 8);
        }
        self.0 = with_field_u64(self.0, 32, 8, x);
    }

    pub fn with_max_payload(self, value: u8) -> (r: Self)
        requires
            value < 0x100,
        ensures
            r.spec_raw() == spec_with_field_u64(self.spec_raw(), 32, 8, value as u64),
            r.spec_max_payload() == value as u64,
            r.spec_start_lane() == self.spec_start_lane(),
            r.spec_end_lane() == self.spec_end_lane(),
            r.spec_socket() == self.spec_socket(),
            r.spec_port_present() == self.spec_port_present(),
            r.spec_link_speed() == self.spec_link_speed(),
            r.spec_reset_pin() == self.spec_reset_pin(),
            r.spec_root_function() == self.spec_root_function(),
            r.spec_root_device() == self.spec_root_device(),
            r.spec_tx_deemphasis() == self.spec_tx_deemphasis(),
    {
        let mut r = self;
        r.set_max_payload(value);
        r
    }

    pub fn tx_deemphasis(&self) -> (r: u8)
        ensures
            r == self.spec_tx_deemphasis(),
            r < 0x100,
    {
        proof {
            lemma_shift_table_u64();
        }
        field_u64(self.0, 40, 8) as u8
    }

    pub fn set_tx_deemphasis(&mut self, value: u8)
        requires
            value < 0x100,
        ensures
            final(self).spec_raw() == spec_with_field_u64(old(self).spec_raw(), 40, 8, value as u64),
            final(self).spec_tx_deemphasis() == value as u64,
            final(self).spec_start_lane() == old(self).spec_start_lane(),
            final(self).spec_end_lane() == old(self).spec_end_lane(),
            final(self).spec_socket() == old(self).spec_socket(),
            final(self).spec_port_present() == old(self).spec_port_present(),
            final(self).spec_link_speed() == old(self).spec_link_speed(),
            final(self).spec_reset_pin() == old(self).spec_reset_pin(),
            final(self).spec_root_function() == old(self).spec_root_function(),
            final(self).spec_root_device() == old(self).spec_root_device(),
            final(self).spec_max_payload() == old(self).spec_max_payload(),
    {
        let x: u64 = value as u64;
        let ghost old_raw = self.0;
        proof {
            lemma_shift_table_u64();
            lemma_with_field_same_u64(old_raw, 40, 8, x);
            lemma_with_field_other_u64(old_raw, 40, 8, x, 0, 8);
            lemma_with_field_other_u64(old_raw, 40, 8, x, 8, 8);
            lemma_with_field_other_u64(old_raw, 40, 8, x, 16, 2);
            lemma_with_field_other_u64(old_raw, 40, 8, x, 18, 1);
            lemma_with_field_other_u64(old_raw, 40, 8, x, 19, 3);
            lemma_with_field_other_u64(old_raw, 40, 8, x, 22, 2);
            lemma_with_field_other_u64(old_raw, 40, 8, x, 24, 3);
            lemma_with_field_other_u64(old_raw, 40, 8, x, 27, 5);
            lemma_with_field_other_u64(old_raw, 40, 8, x, 32, 8);
        }
        self.0 = with_field_u64(self.0, 40, 8, x);
    }

    pub fn with_tx_deemphasis(self, value: u8) -> (r: Self)
        requires
            value < 0x100,
        ensures
            r.spec_raw() == spec_with_field_u64(self.spec_raw(), 40, 8, value as u64),
            r.spec_tx_deemphasis() == value as u64,
            r.spec_start_lane() == self.spec_start_lane(),
            r.spec_end_lane() == self.spec_end_lane(),
            r.spec_socket() == self.spec_socket(),
            r.spec_port_present() == self.spec_port_present(),
            r.spec_link_speed() == self.spec_link_speed(),
            r.spec_reset_pin() == self.spec_reset_pin(),
            r.spec_root_function() == self.spec_root_function(),
            r.spec_root_device() == self.spec_root_device(),
            r.spec_max_payload() == self.spec_max_payload(),
    {
        let mut r = self;
        r.set_tx_deemphasis(value);
        r
    }

    /// The bits that have a meaning; the others are reserved.
    pub const VALID_BITS: u64 = 0xffffffffffffffff;

    /// Whether VALUE leaves all reserved bits clear.
    pub fn all_reserved_bits_are_unused(value: u64) -> (r: bool)
        ensures
            r == (value & !0xffffffffffffffffu64 == 0),
    {
        value & !Self::VALID_BITS == 0
    }

    pub fn from_u64(value: u64) -> (r: Option<Self>)
        ensures
            r is Some <==> (value & !0xffffffffffffffffu64 == 0 && value <= 0xffffffffffffffff),
            r matches Some(x) ==> x.spec_raw() == value,
    {
        if Self::all_reserved_bits_are_unused(value) {
            if value <= 0xffffffffffffffff {
                Some(EarlyPcieConfigBody(value as u64))
            } else {
                None
            }
        } else {
            None
        }
    }

    pub fn from_i64(value: i64) -> (r: Option<Self>)
        ensures
            r is Some <==> (value >= 0 && (value as u64) & !0xffffffffffffffffu64 == 0 && value <= 0xffffffffffffffff),
            r matches Some(x) ==> x.spec_raw() == value,
    {
        if value >= 0 {
            Self::from_u64(value as u64)
        } else {
            None
        }
    }

    pub fn to_u64(&self) -> (r: Option<u64>)
        ensures
            r == Some(self.spec_raw() as u64),
    {
        Some(self.0 as u64)
    }

    pub fn to_i64(&self) -> (r: Option<i64>)
        ensures
            r == Some(self.spec_raw() as i64),
    {
        Some(self.0 as i64)
    }

}

impl Default for EarlyPcieConfigBody {
    /// Lanes 0xFF to 0xFF on socket 0, present, Gen3, no reset pin, default root port,
    /// and no payload or de-emphasis setting (0xFF).
    fn default() -> (r: Self)
        ensures
            r.spec_raw() == 0x0000_ffff_001c_ffff,
            r.spec_start_lane() == 0xff,
            r.spec_end_lane() == 0xff,
            r.spec_socket() == 0,
            r.spec_port_present(),
            r.spec_link_speed() == 3,
            r.spec_reset_pin() == 0,
            r.spec_root_function() == 0,
            r.spec_root_device() == 0,
            r.spec_max_payload() == 0xff,
            r.spec_tx_deemphasis() == 0xff,
    {
        let r0 = Self::new();
        let r1 = r0.with_start_lane(0xff);
        let r2 = r1.with_end_lane(0xff);
        let r3 = r2.with_socket(0);
        let r4 = r3.with_port_present(true);
        let r5 = r4.with_link_speed(EarlyPcieLinkSpeed::Gen3);
        let r6 = r5.with_reset_pin(EarlyPcieResetPin::NoPin);
        let r7 = r6.with_root_function(0);
        let r8 = r7.with_root_device(0);
        let r9 = r8.with_max_payload(0xff);
        let r10 = r9.with_tx_deemphasis(0xff);
        proof {
            lemma_default_pcie_raw(
                r1.spec_raw(),
                r2.spec_raw(),
                r3.spec_raw(),
                r4.spec_raw(),
                r5.spec_raw(),
                r6.spec_raw(),
                r7.spec_raw(),
                r8.spec_raw(),
                r9.spec_raw(),
                r10.spec_raw(),
            );
        }
        r10
    }
}

proof fn lemma_default_pcie_raw(r1: u64, r2: u64, r3: u64, r4: u64, r5: u64, r6: u64, r7: u64, r8: u64, r9: u64, r10: u64)
    by (bit_vector)
    requires
        r1 == spec_with_field_u64(0, 0, 8, 0xff),
        r2 == spec_with_field_u64(r1, 8, 8, 0xff),
        r3 == spec_with_field_u64(r2, 16, 2, 0),
        r4 == spec_with_field_u64(r3, 18, 1, 1),
        r5 == spec_with_field_u64(r4, 19, 3, 3),
        r6 == spec_with_field_u64(r5, 22, 2, 0),
        r7 == spec_with_field_u64(r6, 24, 3, 0),
        r8 == spec_with_field_u64(r7, 27, 5, 0),
        r9 == spec_with_field_u64(r8, 32, 8, 0xff),
        r10 == spec_with_field_u64(r9, 40, 8, 0xff),
    ensures
        r10 == 0x0000_ffff_001c_ffff,
{
}

/// The configuration of one early PCIe port, as the eight bytes of its body.
#[derive(Debug, Clone, Copy)]
pub struct EarlyPcieConfigElement {
    pub(crate) body: [u8; 8],
}

impl EarlyPcieConfigElement {
    /// The stored body bytes.
    pub closed spec fn spec_body(self) -> [u8; 8] {
        self.body
    }

    /// The configuration that the body bytes hold (always present).
    pub fn body(&self) -> (r: Option<EarlyPcieConfigBody>)
        ensures
            r == Some(EarlyPcieConfigBody::spec_from_raw(spec_u64_from_le_bytes(self.spec_body()@))),
    {
        Some(EarlyPcieConfigBody::from_raw(u64_from_le_bytes(self.body.as_slice())))
    }

    /// Stores BODY.
    pub fn set_body(&mut self, body: EarlyPcieConfigBody)
        ensures
            final(self).spec_body()@ == spec_u64_to_le_bytes(body.spec_raw()),
    {
        self.body = le_bytes_u64(body.into_raw());
    }
}

/// Storing a configuration and reading it back gives the same configuration.
pub proof fn lemma_early_pcie_config_roundtrip(element: EarlyPcieConfigElement, body: EarlyPcieConfigBody)
    requires
        element.spec_body()@ == spec_u64_to_le_bytes(body.spec_raw()),
    ensures
        EarlyPcieConfigBody::spec_from_raw(spec_u64_from_le_bytes(element.spec_body()@)) == body,
{
    lemma_auto_spec_u64_to_from_le_bytes();
    EarlyPcieConfigBody::lemma_raw(body, body.spec_raw());
}

impl Default for EarlyPcieConfigElement {
    fn default() -> (r: Self)
        ensures
            r.spec_body()@ == spec_u64_to_le_bytes(0x0000_ffff_001c_ffff),
    {
        let body = EarlyPcieConfigBody::default();
        Self { body: le_bytes_u64(body.into_raw()) }
    }
}

impl ByteLayout for EarlyPcieConfigElement {
    open spec fn spec_size() -> nat {
        8
    }

    open spec fn spec_to_bytes(self) -> Seq<u8> {
        self.spec_body()@
    }

    fn size() -> (r: usize) {
        8
    }

    fn from_bytes(bytes: &[u8]) -> (r: Self) {
        let body: [u8; 8] = [bytes[0], bytes[1], bytes[2], bytes[3], bytes[4], bytes[5], bytes[6], bytes[7]];
        let r = Self { body };
        proof {
            assert(r.body@ =~= bytes@);
        }
        r
    }

    fn to_bytes(&self) -> (r: Vec<u8>) {
        let mut out: Vec<u8> = Vec::new();
        append_bytes(&mut out, &self.body);
        out
    }
}

impl EntryCompatible for EarlyPcieConfigElement {
    fn is_entry_compatible(entry_id: EntryId, _prefix: &[u8]) -> (r: bool)
        ensures
            r == (entry_id == EntryId::Gnb(GnbEntryId::EarlyPcieConfig)),
    {
        matches!(entry_id, EntryId::Gnb(GnbEntryId::EarlyPcieConfig))
    }
}

} // verus!
