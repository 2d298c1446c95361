#![allow(non_camel_case_types)]

use crate::bits::{field_u8, lemma_field_bound_u8, lemma_with_field_other_u8, lemma_with_field_same_u8, lemma_shift_table_u8, spec_field_u8, spec_with_field_u8, with_field_u8, field_u16, lemma_field_bound_u16, lemma_with_field_other_u16, lemma_with_field_same_u16, lemma_shift_table_u16, spec_field_u16, spec_with_field_u16, with_field_u16, field_u32, lemma_field_bound_u32, lemma_with_field_other_u32, lemma_with_field_same_u32, lemma_shift_table_u32, spec_field_u32, spec_with_field_u32, with_field_u32};
use vstd::prelude::*;

verus! {

#[derive(Debug, PartialEq, Eq, Clone, Copy, Structural)]
pub enum BaudRate {
    _2400Baud,
    _3600Baud,
    _4800Baud,
    _7200Baud,
    _9600Baud,
    _19200Baud,
    _38400Baud,
    _57600Baud,
    _115200Baud,
    _3000000Baud,
}

impl BaudRate {
    /// The number that stands for this value.
    pub open spec fn spec_to_u64(self) -> u64 {
        match self {
            BaudRate::_2400Baud => 0x0,
            BaudRate::_3600Baud => 0x1,
            BaudRate::_4800Baud => 0x2,
            BaudRate::_7200Baud => 0x3,
            BaudRate::_9600Baud => 0x4,
            BaudRate::_19200Baud => 0x5,
            BaudRate::_38400Baud => 0x6,
            BaudRate::_57600Baud => 0x7,
            BaudRate::_115200Baud => 0x8,
            BaudRate::_3000000Baud => 0x9,
        }
    }

    /// The value that VALUE stands for, if any.
    pub open spec fn spec_from_u64(value: u64) -> Option<BaudRate> {
        match value {
            0x0 => Some(BaudRate::_2400Baud),
            0x1 => Some(BaudRate::_3600Baud),
            0x2 => Some(BaudRate::_4800Baud),
            0x3 => Some(BaudRate::_7200Baud),
            0x4 => Some(BaudRate::_9600Baud),
            0x5 => Some(BaudRate::_19200Baud),
            0x6 => Some(BaudRate::_38400Baud),
            0x7 => Some(BaudRate::_57600Baud),
            0x8 => Some(BaudRate::_115200Baud),
            0x9 => Some(BaudRate::_3000000Baud),
            _ => None,
        }
    }

    pub fn from_u64(value: u64) -> (r: Option<BaudRate>)
        ensures
            r == BaudRate::spec_from_u64(value),
    {
        match value {
            0x0 => Some(BaudRate::_2400Baud),
            0x1 => Some(BaudRate::_3600Baud),
            0x2 => Some(BaudRate::_4800Baud),
            0x3 => Some(BaudRate::_7200Baud),
            0x4 => Some(BaudRate::_9600Baud),
            0x5 => Some(BaudRate::_19200Baud),
            0x6 => Some(BaudRate::_38400Baud),
            0x7 => Some(BaudRate::_57600Baud),
            0x8 => Some(BaudRate::_115200Baud),
            0x9 => Some(BaudRate::_3000000Baud),
            _ => None,
        }
    }

    pub fn to_u64(&self) -> (r: Option<u64>)
        ensures
            r == Some(self.spec_to_u64()),
    {
        Some(
            match self {
                BaudRate::_2400Baud => 0x0,
                BaudRate::_3600Baud => 0x1,
                BaudRate::_4800Baud => 0x2,
                BaudRate::_7200Baud => 0x3,
                BaudRate::_9600Baud => 0x4,
                BaudRate::_19200Baud => 0x5,
                BaudRate::_38400Baud => 0x6,
                BaudRate::_57600Baud => 0x7,
                BaudRate::_115200Baud => 0x8,
                BaudRate::_3000000Baud => 0x9,
            },
        )
    }
}

/// Every value of BaudRate is read back from its own number, and every number that is
/// read as a value is that value's number.
pub proof fn lemma_baud_rate_roundtrip(x: BaudRate, value: u64)
    ensures
        BaudRate::spec_from_u64(x.spec_to_u64()) == Some(x),
        BaudRate::spec_from_u64(value) matches Some(y) ==> y.spec_to_u64() == value,
{
}

impl BaudRate {
    /// The speed of the serial line, in bits per second.
    pub open spec fn spec_bits_per_second(self) -> nat {
        match self {
            BaudRate::_2400Baud => 2400,
            BaudRate::_3600Baud => 3600,
            BaudRate::_4800Baud => 4800,
            BaudRate::_7200Baud => 7200,
            BaudRate::_9600Baud => 9600,
            BaudRate::_19200Baud => 19200,
            BaudRate::_38400Baud => 38400,
            BaudRate::_57600Baud => 57600,
            BaudRate::_115200Baud => 115200,
            BaudRate::_3000000Baud => 3000000,
        }
    }
}

/// The token numbers of the baud rates are 0 to 9, in the order of the speeds: a faster
/// baud rate has a larger number, and of two numbers that decode, the larger one decodes to
/// the faster baud rate.
pub proof fn lemma_baud_rate_numbers_follow_speed(x: BaudRate, y: BaudRate, v: u64, w: u64)
    ensures
        x.spec_to_u64() < 10,
        x.spec_bits_per_second() < y.spec_bits_per_second() <==> x.spec_to_u64() < y.spec_to_u64(),
        BaudRate::spec_from_u64(v) is Some <==> v < 10,
        BaudRate::spec_from_u64(v) is Some && BaudRate::spec_from_u64(w) is Some ==> (v < w
            <==> BaudRate::spec_from_u64(v)->0.spec_bits_per_second() < BaudRate::spec_from_u64(w)->0.spec_bits_per_second()),
{
    lemma_order_of_baud_rate_numbers_follow_speed(x, y);
    lemma_baud_rate_roundtrip(x, v);
    lemma_baud_rate_roundtrip(x, w);
    if let Some(a) = BaudRate::spec_from_u64(v) {
        if let Some(b) = BaudRate::spec_from_u64(w) {
            lemma_order_of_baud_rate_numbers_follow_speed(a, b);
        }
    }
}

/// A faster value has a larger number.
proof fn lemma_order_of_baud_rate_numbers_follow_speed(x: BaudRate, y: BaudRate)
    ensures
        x.spec_bits_per_second() < y.spec_bits_per_second() <==> x.spec_to_u64() < y.spec_to_u64(),
{
}

#[derive(Debug, PartialEq, Eq, Clone, Copy, Structural)]
pub enum MemActionOnBistFailure {
    DoNothing,
    DisableProblematicCcds,
}

impl MemActionOnBistFailure {
    /// The number that stands for this value.
    pub open spec fn spec_to_u64(self) -> u64 {
        match self {
            MemActionOnBistFailure::DoNothing => 0x0,
            MemActionOnBistFailure::DisableProblematicCcds => 0x1,
        }
    }

    /// The value that VALUE stands for, if any.
    pub open spec fn spec_from_u64(value: u64) -> Option<MemActionOnBistFailure> {
        match value {
            0x0 => Some(MemActionOnBistFailure::DoNothing),
            0x1 => Some(MemActionOnBistFailure::DisableProblematicCcds),
            _ => None,
        }
    }

    pub fn from_u64(value: u64) -> (r: Option<MemActionOnBistFailure>)
        ensures
            r == MemActionOnBistFailure::spec_from_u64(value),
    {
        match value {
            0x0 => Some(MemActionOnBistFailure::DoNothing),
            0x1 => Some(MemActionOnBistFailure::DisableProblematicCcds),
            _ => None,
        }
    }

    pub fn to_u64(&self) -> (r: Option<u64>)
        ensures
            r == Some(self.spec_to_u64()),
    {
        Some(
            match self {
                MemActionOnBistFailure::DoNothing => 0x0,
                MemActionOnBistFailure::DisableProblematicCcds => 0x1,
            },
        )
    }
}

/// Every value of MemActionOnBistFailure is read back from its own number, and every number that is
/// read as a value is that value's number.
pub proof fn lemma_mem_action_on_bist_failure_roundtrip(x: MemActionOnBistFailure, value: u64)
    ensures
        MemActionOnBistFailure::spec_from_u64(x.spec_to_u64()) == Some(x),
        MemActionOnBistFailure::spec_from_u64(value) matches Some(y) ==> y.spec_to_u64() == value,
{
}

#[derive(Debug, PartialEq, Eq, Clone, Copy, Structural)]
pub enum MemDataPoison {
    Disabled,
    Enabled,
    Auto,
}

impl MemDataPoison {
    /// The number that stands for this value.
    pub open spec fn spec_to_u64(self) -> u64 {
        match self {
            MemDataPoison::Disabled => 0x0,
            MemDataPoison::Enabled => 0x1,
            MemDataPoison::Auto => 0xff,
        }
    }

    /// The value that VALUE stands for, if any.
    pub open spec fn spec_from_u64(value: u64) -> Option<MemDataPoison> {
        match value {
            0x0 => Some(MemDataPoison::Disabled),
            0x1 => Some(MemDataPoison::Enabled),
            0xff => Some(MemDataPoison::Auto),
            _ => None,
        }
    }

    pub fn from_u64(value: u64) -> (r: Option<MemDataPoison>)
        ensures
            r == MemDataPoison::spec_from_u64(value),
    {
        match value {
            0x0 => Some(MemDataPoison::Disabled),
            0x1 => Some(MemDataPoison::Enabled),
            0xff => Some(MemDataPoison::Auto),
            _ => None,
        }
    }

    pub fn to_u64(&self) -> (r: Option<u64>)
        ensures
            r == Some(self.spec_to_u64()),
    {
        Some(
            match self {
                MemDataPoison::Disabled => 0x0,
                MemDataPoison::Enabled => 0x1,
                MemDataPoison::Auto => 0xff,
            },
        )
    }
}

/// Every value of MemDataPoison is read back from its own number, and every number that is
/// read as a value is that value's number.
pub proof fn lemma_mem_data_poison_roundtrip(x: MemDataPoison, value: u64)
    ensures
        MemDataPoison::spec_from_u64(x.spec_to_u64()) == Some(x),
        MemDataPoison::spec_from_u64(value) matches Some(y) ==> y.spec_to_u64() == value,
{
}

#[derive(Debug, PartialEq, Eq, Clone, Copy, Structural)]
pub enum MemSpdVerifyCrc {
    Skip,
    Verify,
}

impl MemSpdVerifyCrc {
    /// The number that stands for this value.
    pub open spec fn spec_to_u64(self) -> u64 {
        match self {
            MemSpdVerifyCrc::Skip => 0x0,
            MemSpdVerifyCrc::Verify => 0x1,
        }
    }

    /// The value that VALUE stands for, if any.
    pub open spec fn spec_from_u64(value: u64) -> Option<MemSpdVerifyCrc> {
        match value {
            0x0 => Some(MemSpdVerifyCrc::Skip),
            0x1 => Some(MemSpdVerifyCrc::Verify),
            _ => None,
        }
    }

    pub fn from_u64(value: u64) -> (r: Option<MemSpdVerifyCrc>)
        ensures
            r == MemSpdVerifyCrc::spec_from_u64(value),
    {
        match value {
            0x0 => Some(MemSpdVerifyCrc::Skip),
            0x1 => Some(MemSpdVerifyCrc::Verify),
            _ => None,
        }
    }

    pub fn to_u64(&self) -> (r: Option<u64>)
        ensures
            r == Some(self.spec_to_u64()),
    {
        Some(
            match self {
                MemSpdVerifyCrc::Skip => 0x0,
                MemSpdVerifyCrc::Verify => 0x1,
            },
        )
    }
}

/// Every value of MemSpdVerifyCrc is read back from its own number, and every number that is
/// read as a value is that value's number.
pub proof fn lemma_mem_spd_verify_crc_roundtrip(x: MemSpdVerifyCrc, value: u64)
    ensures
        MemSpdVerifyCrc::spec_from_u64(x.spec_to_u64()) == Some(x),
        MemSpdVerifyCrc::spec_from_u64(value) matches Some(y) ==> y.spec_to_u64() == value,
{
}

#[derive(Debug, PartialEq, Eq, Clone, Copy, Structural)]
pub enum MemOdtsMode {
    Disabled,
    Enabled,
}

impl MemOdtsMode {
    /// The number that stands for this value.
    pub open spec fn spec_to_u64(self) -> u64 {
        match self {
            MemOdtsMode::Disabled => 0x0,
            MemOdtsMode::Enabled => 0x1,
        }
    }

    /// The value that VALUE stands for, if any.
    pub open spec fn spec_from_u64(value: u64) -> Option<MemOdtsMode> {
        match value {
            0x0 => Some(MemOdtsMode::Disabled),
            0x1 => Some(MemOdtsMode::Enabled),
            _ => None,
        }
    }

    pub fn from_u64(value: u64) -> (r: Option<MemOdtsMode>)
        ensures
            r == MemOdtsMode::spec_from_u64(value),
    {
        match value {
            0x0 => Some(MemOdtsMode::Disabled),
            0x1 => Some(MemOdtsMode::Enabled),
            _ => None,
        }
    }

    pub fn to_u64(&self) -> (r: Option<u64>)
        ensures
            r == Some(self.spec_to_u64()),
    {
        Some(
            match self {
                MemOdtsMode::Disabled => 0x0,
                MemOdtsMode::Enabled => 0x1,
            },
        )
    }
}

/// Every value of MemOdtsMode is read back from its own number, and every number that is
/// read as a value is that value's number.
pub proof fn lemma_mem_odts_mode_roundtrip(x: MemOdtsMode, value: u64)
    ensures
        MemOdtsMode::spec_from_u64(x.spec_to_u64()) == Some(x),
        MemOdtsMode::spec_from_u64(value) matches Some(y) ==> y.spec_to_u64() == value,
{
}

#[derive(Debug, PartialEq, Eq, Clone, Copy, Structural)]
pub enum MemEcsModeDdr {
    EcsAuto,
    EcsManual,
    Auto,
}

impl MemEcsModeDdr {
    /// The number that stands for this value.
    pub open spec fn spec_to_u64(self) -> u64 {
        match self {
            MemEcsModeDdr::EcsAuto => 0x0,
            MemEcsModeDdr::EcsManual => 0x1,
            MemEcsModeDdr::Auto => 0xff,
        }
    }

    /// The value that VALUE stands for, if any.
    pub open spec fn spec_from_u64(value: u64) -> Option<MemEcsModeDdr> {
        match value {
            0x0 => Some(MemEcsModeDdr::EcsAuto),
            0x1 => Some(MemEcsModeDdr::EcsManual),
            0xff => Some(MemEcsModeDdr::Auto),
            _ => None,
        }
    }

    pub fn from_u64(value: u64) -> (r: Option<MemEcsModeDdr>)
        ensures
            r == MemEcsModeDdr::spec_from_u64(value),
    {
        match value {
            0x0 => Some(MemEcsModeDdr::EcsAuto),
            0x1 => Some(MemEcsModeDdr::EcsManual),
            0xff => Some(MemEcsModeDdr::Auto),
            _ => None,
        }
    }

    pub fn to_u64(&self) -> (r: Option<u64>)
        ensures
            r == Some(self.spec_to_u64()),
    {
        Some(
            match self {
                MemEcsModeDdr::EcsAuto => 0x0,
                MemEcsModeDdr::EcsManual => 0x1,
                MemEcsModeDdr::Auto => 0xff,
            },
        )
    }
}

/// Every value of MemEcsModeDdr is read back from its own number, and every number that is
/// read as a value is that value's number.
pub proof fn lemma_mem_ecs_mode_ddr_roundtrip(x: MemEcsModeDdr, value: u64)
    ensures
        MemEcsModeDdr::spec_from_u64(x.spec_to_u64()) == Some(x),
        MemEcsModeDdr::spec_from_u64(value) matches Some(y) ==> y.spec_to_u64() == value,
{
}

#[derive(Debug, PartialEq, Eq, Clone, Copy, Structural)]
pub enum MemBootTimePostPackageRepair {
    Disabled,
    Enabled,
}

impl MemBootTimePostPackageRepair {
    /// The number that stands for this value.
    pub open spec fn spec_to_u64(self) -> u64 {
        match self {
            MemBootTimePostPackageRepair::Disabled => 0x0,
            MemBootTimePostPackageRepair::Enabled => 0x1,
        }
    }

    /// The value that VALUE stands for, if any.
    pub open spec fn spec_from_u64(value: u64) -> Option<MemBootTimePostPackageRepair> {
        match value {
            0x0 => Some(MemBootTimePostPackageRepair::Disabled),
            0x1 => Some(MemBootTimePostPackageRepair::Enabled),
            _ => None,
        }
    }

    pub fn from_u64(value: u64) -> (r: Option<MemBootTimePostPackageRepair>)
        ensures
            r == MemBootTimePostPackageRepair::spec_from_u64(value),
    {
        match value {
            0x0 => Some(MemBootTimePostPackageRepair::Disabled),
            0x1 => Some(MemBootTimePostPackageRepair::Enabled),
            _ => None,
        }
    }

    pub fn to_u64(&self) -> (r: Option<u64>)
        ensures
            r == Some(self.spec_to_u64()),
    {
        Some(
            match self {
                MemBootTimePostPackageRepair::Disabled => 0x0,
                MemBootTimePostPackageRepair::Enabled => 0x1,
            },
        )
    }
}

/// Every value of MemBootTimePostPackageRepair is read back from its own number, and every number that is
/// read as a value is that value's number.
pub proof fn lemma_mem_boot_time_post_package_repair_roundtrip(x: MemBootTimePostPackageRepair, value: u64)
    ensures
        MemBootTimePostPackageRepair::spec_from_u64(x.spec_to_u64()) == Some(x),
        MemBootTimePostPackageRepair::spec_from_u64(value) matches Some(y) ==> y.spec_to_u64() == value,
{
}

#[derive(Debug, PartialEq, Eq, Clone, Copy, Structural)]
pub enum MemMaxActivityCount {
    Untested,
    _700000,
    _600000,
    _500000,
    _400000,
    _300000,
    _200000,
    Unlimited,
    Auto,
}

impl MemMaxActivityCount {
    /// The number that stands for this value.
    pub open spec fn spec_to_u64(self) -> u64 {
        match self {
            MemMaxActivityCount::Untested => 0x0,
            MemMaxActivityCount::_700000 => 0x1,
            MemMaxActivityCount::_600000 => 0x2,
            MemMaxActivityCount::_500000 => 0x3,
            MemMaxActivityCount::_400000 => 0x4,
            MemMaxActivityCount::_300000 => 0x5,
            MemMaxActivityCount::_200000 => 0x6,
            MemMaxActivityCount::Unlimited => 0x8,
            MemMaxActivityCount::Auto => 0xff,
        }
    }

    /// The value that VALUE stands for, if any.
    pub open spec fn spec_from_u64(value: u64) -> Option<MemMaxActivityCount> {
        match value {
            0x0 => Some(MemMaxActivityCount::Untested),
            0x1 => Some(MemMaxActivityCount::_700000),
            0x2 => Some(MemMaxActivityCount::_600000),
            0x3 => Some(MemMaxActivityCount::_500000),
            0x4 => Some(MemMaxActivityCount::_400000),
            0x5 => Some(MemMaxActivityCount::_300000),
            0x6 => Some(MemMaxActivityCount::_200000),
            0x8 => Some(MemMaxActivityCount::Unlimited),
            0xff => Some(MemMaxActivityCount::Auto),
            _ => None,
        }
    }

    pub fn from_u64(value: u64) -> (r: Option<MemMaxActivityCount>)
        ensures
            r == MemMaxActivityCount::spec_from_u64(value),
    {
        match value {
            0x0 => Some(MemMaxActivityCount::Untested),
            0x1 => Some(MemMaxActivityCount::_700000),
            0x2 => Some(MemMaxActivityCount::_600000),
            0x3 => Some(MemMaxActivityCount::_500000),
            0x4 => Some(MemMaxActivityCount::_400000),
            0x5 => Some(MemMaxActivityCount::_300000),
            0x6 => Some(MemMaxActivityCount::_200000),
            0x8 => Some(MemMaxActivityCount::Unlimited),
            0xff => Some(MemMaxActivityCount::Auto),
            _ => None,
        }
    }

    pub fn to_u64(&self) -> (r: Option<u64>)
        ensures
            r == Some(self.spec_to_u64()),
    {
        Some(
            match self {
                MemMaxActivityCount::Untested => 0x0,
                MemMaxActivityCount::_700000 => 0x1,
                MemMaxActivityCount::_600000 => 0x2,
                MemMaxActivityCount::_500000 => 0x3,
                MemMaxActivityCount::_400000 => 0x4,
                MemMaxActivityCount::_300000 => 0x5,
                MemMaxActivityCount::_200000 => 0x6,
                MemMaxActivityCount::Unlimited => 0x8,
                MemMaxActivityCount::Auto => 0xff,
            },
        )
    }
}

/// Every value of MemMaxActivityCount is read back from its own number, and every number that is
/// read as a value is that value's number.
pub proof fn lemma_mem_max_activity_count_roundtrip(x: MemMaxActivityCount, value: u64)
    ensures
        MemMaxActivityCount::spec_from_u64(x.spec_to_u64()) == Some(x),
        MemMaxActivityCount::spec_from_u64(value) matches Some(y) ==> y.spec_to_u64() == value,
{
}

impl MemMaxActivityCount {
    /// What the name of this value says: the number in its name (0 for the values that do not name one).
    pub open spec fn spec_named_number(self) -> int {
        match self {
            MemMaxActivityCount::_700000 => 700000,
            MemMaxActivityCount::_600000 => 600000,
            MemMaxActivityCount::_500000 => 500000,
            MemMaxActivityCount::_400000 => 400000,
            MemMaxActivityCount::_300000 => 300000,
            MemMaxActivityCount::_200000 => 200000,
            MemMaxActivityCount::Untested => 0,
            MemMaxActivityCount::Unlimited => 0,
            MemMaxActivityCount::Auto => 0,
        }
    }
}

/// The number of each value follows from what its name says: 100000 times the number is
/// -1 times the named quantity plus 800000 for the values that name one; each other value has a number of its own.
pub proof fn lemma_mem_max_activity_count_numbers_follow_names(x: MemMaxActivityCount)
    ensures
        (x != MemMaxActivityCount::Untested && x != MemMaxActivityCount::Unlimited && x != MemMaxActivityCount::Auto) ==> 100000 * x.spec_to_u64() == -x.spec_named_number() + 800000,
        x == MemMaxActivityCount::Untested <==> x.spec_to_u64() == 0,
        x == MemMaxActivityCount::Unlimited <==> x.spec_to_u64() == 8,
        x == MemMaxActivityCount::Auto <==> x.spec_to_u64() == 255,
{
}

#[derive(Debug, PartialEq, Eq, Clone, Copy, Structural)]
pub enum MemRcwWeakDriveDisable {
    Disabled,
    Enabled,
}

impl MemRcwWeakDriveDisable {
    /// The number that stands for this value.
    pub open spec fn spec_to_u64(self) -> u64 {
        match self {
            MemRcwWeakDriveDisable::Disabled => 0x0,
            MemRcwWeakDriveDisable::Enabled => 0x1,
        }
    }

    /// The value that VALUE stands for, if any.
    pub open spec fn spec_from_u64(value: u64) -> Option<MemRcwWeakDriveDisable> {
        match value {
            0x0 => Some(MemRcwWeakDriveDisable::Disabled),
            0x1 => Some(MemRcwWeakDriveDisable::Enabled),
            _ => None,
        }
    }

    pub fn from_u64(value: u64) -> (r: Option<MemRcwWeakDriveDisable>)
        ensures
            r == MemRcwWeakDriveDisable::spec_from_u64(value),
    {
        match value {
            0x0 => Some(MemRcwWeakDriveDisable::Disabled),
            0x1 => Some(MemRcwWeakDriveDisable::Enabled),
            _ => None,
        }
    }

    pub fn to_u64(&self) -> (r: Option<u64>)
        ensures
            r == Some(self.spec_to_u64()),
    {
        Some(
            match self {
                MemRcwWeakDriveDisable::Disabled => 0x0,
                MemRcwWeakDriveDisable::Enabled => 0x1,
            },
        )
    }
}

/// Every value of MemRcwWeakDriveDisable is read back from its own number, and every number that is
/// read as a value is that value's number.
pub proof fn lemma_mem_rcw_weak_drive_disable_roundtrip(x: MemRcwWeakDriveDisable, value: u64)
    ensures
        MemRcwWeakDriveDisable::spec_from_u64(x.spec_to_u64()) == Some(x),
        MemRcwWeakDriveDisable::spec_from_u64(value) matches Some(y) ==> y.spec_to_u64() == value,
{
}

#[derive(Debug, PartialEq, Eq, Clone, Copy, Structural)]
pub enum MemSelfRefreshExitStaggering {
    Disabled,
    OneThird,
    OneFourth,
}

impl MemSelfRefreshExitStaggering {
    /// The number that stands for this value.
    pub open spec fn spec_to_u64(self) -> u64 {
        match self {
            MemSelfRefreshExitStaggering::Disabled => 0x0,
            MemSelfRefreshExitStaggering::OneThird => 0x3,
            MemSelfRefreshExitStaggering::OneFourth => 0x4,
        }
    }

    /// The value that VALUE stands for, if any.
    pub open spec fn spec_from_u64(value: u64) -> Option<MemSelfRefreshExitStaggering> {
        match value {
            0x0 => Some(MemSelfRefreshExitStaggering::Disabled),
            0x3 => Some(MemSelfRefreshExitStaggering::OneThird),
            0x4 => Some(MemSelfRefreshExitStaggering::OneFourth),
            _ => None,
        }
    }

    pub fn from_u64(value: u64) -> (r: Option<MemSelfRefreshExitStaggering>)
        ensures
            r == MemSelfRefreshExitStaggering::spec_from_u64(value),
    {
        match value {
            0x0 => Some(MemSelfRefreshExitStaggering::Disabled),
            0x3 => Some(MemSelfRefreshExitStaggering::OneThird),
            0x4 => Some(MemSelfRefreshExitStaggering::OneFourth),
            _ => None,
        }
    }

    pub fn to_u64(&self) -> (r: Option<u64>)
        ensures
            r == Some(self.spec_to_u64()),
    {
        Some(
            match self {
                MemSelfRefreshExitStaggering::Disabled => 0x0,
                MemSelfRefreshExitStaggering::OneThird => 0x3,
                MemSelfRefreshExitStaggering::OneFourth => 0x4,
            },
        )
    }
}

/// Every value of MemSelfRefreshExitStaggering is read back from its own number, and every number that is
/// read as a value is that value's number.
pub proof fn lemma_mem_self_refresh_exit_staggering_roundtrip(x: MemSelfRefreshExitStaggering, value: u64)
    ensures
        MemSelfRefreshExitStaggering::spec_from_u64(x.spec_to_u64()) == Some(x),
        MemSelfRefreshExitStaggering::spec_from_u64(value) matches Some(y) ==> y.spec_to_u64() == value,
{
}

#[derive(Debug, PartialEq, Eq, Clone, Copy, Structural)]
pub enum CbsMemAddrCmdParityRetryDdr4 {
    Disabled,
    Enabled,
    Auto,
}

impl CbsMemAddrCmdParityRetryDdr4 {
    /// The number that stands for this value.
    pub open spec fn spec_to_u64(self) -> u64 {
        match self {
            CbsMemAddrCmdParityRetryDdr4::Disabled => 0x0,
            CbsMemAddrCmdParityRetryDdr4::Enabled => 0x1,
            CbsMemAddrCmdParityRetryDdr4::Auto => 0xff,
        }
    }

    /// The value that VALUE stands for, if any.
    pub open spec fn spec_from_u64(value: u64) -> Option<CbsMemAddrCmdParityRetryDdr4> {
        match value {
            0x0 => Some(CbsMemAddrCmdParityRetryDdr4::Disabled),
            0x1 => Some(CbsMemAddrCmdParityRetryDdr4::Enabled),
            0xff => Some(CbsMemAddrCmdParityRetryDdr4::Auto),
            _ => None,
        }
    }

    pub fn from_u64(value: u64) -> (r: Option<CbsMemAddrCmdParityRetryDdr4>)
        ensures
            r == CbsMemAddrCmdParityRetryDdr4::spec_from_u64(value),
    {
        match value {
            0x0 => Some(CbsMemAddrCmdParityRetryDdr4::Disabled),
            0x1 => Some(CbsMemAddrCmdParityRetryDdr4::Enabled),
            0xff => Some(CbsMemAddrCmdParityRetryDdr4::Auto),
            _ => None,
        }
    }

    pub fn to_u64(&self) -> (r: Option<u64>)
        ensures
            r == Some(self.spec_to_u64()),
    {
        Some(
            match self {
                CbsMemAddrCmdParityRetryDdr4::Disabled => 0x0,
                CbsMemAddrCmdParityRetryDdr4::Enabled => 0x1,
                CbsMemAddrCmdParityRetryDdr4::Auto => 0xff,
            },
        )
    }
}

/// Every value of CbsMemAddrCmdParityRetryDdr4 is read back from its own number, and every number that is
/// read as a value is that value's number.
pub proof fn lemma_cbs_mem_addr_cmd_parity_retry_ddr4_roundtrip(x: CbsMemAddrCmdParityRetryDdr4, value: u64)
    ensures
        CbsMemAddrCmdParityRetryDdr4::spec_from_u64(x.spec_to_u64()) == Some(x),
        CbsMemAddrCmdParityRetryDdr4::spec_from_u64(value) matches Some(y) ==> y.spec_to_u64() == value,
{
}

#[derive(Debug, PartialEq, Eq, Clone, Copy, Structural)]
pub enum CcxSevAsidCount {
    _253,
    _509,
    Auto,
}

impl CcxSevAsidCount {
    /// The number that stands for this value.
    pub open spec fn spec_to_u64(self) -> u64 {
        match self {
            CcxSevAsidCount::_253 => 0x0,
            CcxSevAsidCount::_509 => 0x1,
            CcxSevAsidCount::Auto => 0x3,
        }
    }

    /// The value that VALUE stands for, if any.
    pub open spec fn spec_from_u64(value: u64) -> Option<CcxSevAsidCount> {
        match value {
            0x0 => Some(CcxSevAsidCount::_253),
            0x1 => Some(CcxSevAsidCount::_509),
            0x3 => Some(CcxSevAsidCount::Auto),
            _ => None,
        }
    }

    pub fn from_u64(value: u64) -> (r: Option<CcxSevAsidCount>)
        ensures
            r == CcxSevAsidCount::spec_from_u64(value),
    {
        match value {
            0x0 => Some(CcxSevAsidCount::_253),
            0x1 => Some(CcxSevAsidCount::_509),
            0x3 => Some(CcxSevAsidCount::Auto),
            _ => None,
        }
    }

    pub fn to_u64(&self) -> (r: Option<u64>)
        ensures
            r == Some(self.spec_to_u64()),
    {
        Some(
            match self {
                CcxSevAsidCount::_253 => 0x0,
                CcxSevAsidCount::_509 => 0x1,
                CcxSevAsidCount::Auto => 0x3,
            },
        )
    }
}

/// Every value of CcxSevAsidCount is read back from its own number, and every number that is
/// read as a value is that value's number.
pub proof fn lemma_ccx_sev_asid_count_roundtrip(x: CcxSevAsidCount, value: u64)
    ensures
        CcxSevAsidCount::spec_from_u64(x.spec_to_u64()) == Some(x),
        CcxSevAsidCount::spec_from_u64(value) matches Some(y) ==> y.spec_to_u64() == value,
{
}

#[derive(Debug, PartialEq, Eq, Clone, Copy, Structural)]
pub enum CcxApicMode {
    Compatibility,
    XApic,
    X2Apic,
    Auto,
}

impl CcxApicMode {
    /// The number that stands for this value.
    pub open spec fn spec_to_u64(self) -> u64 {
        match self {
            CcxApicMode::Compatibility => 0x0,
            CcxApicMode::XApic => 0x1,
            CcxApicMode::X2Apic => 0x2,
            CcxApicMode::Auto => 0xff,
        }
    }

    /// The value that VALUE stands for, if any.
    pub open spec fn spec_from_u64(value: u64) -> Option<CcxApicMode> {
        match value {
            0x0 => Some(CcxApicMode::Compatibility),
            0x1 => Some(CcxApicMode::XApic),
            0x2 => Some(CcxApicMode::X2Apic),
            0xff => Some(CcxApicMode::Auto),
            _ => None,
        }
    }

    pub fn from_u64(value: u64) -> (r: Option<CcxApicMode>)
        ensures
            r == CcxApicMode::spec_from_u64(value),
    {
        match value {
            0x0 => Some(CcxApicMode::Compatibility),
            0x1 => Some(CcxApicMode::XApic),
            0x2 => Some(CcxApicMode::X2Apic),
            0xff => Some(CcxApicMode::Auto),
            _ => None,
        }
    }

    pub fn to_u64(&self) -> (r: Option<u64>)
        ensures
            r == Some(self.spec_to_u64()),
    {
        Some(
            match self {
                CcxApicMode::Compatibility => 0x0,
                CcxApicMode::XApic => 0x1,
                CcxApicMode::X2Apic => 0x2,
                CcxApicMode::Auto => 0xff,
            },
        )
    }
}

/// Every value of CcxApicMode is read back from its own number, and every number that is
/// read as a value is that value's number.
pub proof fn lemma_ccx_apic_mode_roundtrip(x: CcxApicMode, value: u64)
    ensures
        CcxApicMode::spec_from_u64(x.spec_to_u64()) == Some(x),
        CcxApicMode::spec_from_u64(value) matches Some(y) ==> y.spec_to_u64() == value,
{
}

#[derive(Debug, PartialEq, Eq, Clone, Copy, Structural)]
pub enum CcxSmtControl {
    Disabled,
    Enabled,
    Auto,
}

impl CcxSmtControl {
    /// The number that stands for this value.
    pub open spec fn spec_to_u64(self) -> u64 {
        match self {
            CcxSmtControl::Disabled => 0x0,
            CcxSmtControl::Enabled => 0x1,
            CcxSmtControl::Auto => 0xf,
        }
    }

    /// The value that VALUE stands for, if any.
    pub open spec fn spec_from_u64(value: u64) -> Option<CcxSmtControl> {
        match value {
            0x0 => Some(CcxSmtControl::Disabled),
            0x1 => Some(CcxSmtControl::Enabled),
            0xf => Some(CcxSmtControl::Auto),
            _ => None,
        }
    }

    pub fn from_u64(value: u64) -> (r: Option<CcxSmtControl>)
        ensures
            r == CcxSmtControl::spec_from_u64(value),
    {
        match value {
            0x0 => Some(CcxSmtControl::Disabled),
            0x1 => Some(CcxSmtControl::Enabled),
            0xf => Some(CcxSmtControl::Auto),
            _ => None,
        }
    }

    pub fn to_u64(&self) -> (r: Option<u64>)
        ensures
            r == Some(self.spec_to_u64()),
    {
        Some(
            match self {
                CcxSmtControl::Disabled => 0x0,
                CcxSmtControl::Enabled => 0x1,
                CcxSmtControl::Auto => 0xf,
            },
        )
    }
}

/// Every value of CcxSmtControl is read back from its own number, and every number that is
/// read as a value is that value's number.
pub proof fn lemma_ccx_smt_control_roundtrip(x: CcxSmtControl, value: u64)
    ensures
        CcxSmtControl::spec_from_u64(x.spec_to_u64()) == Some(x),
        CcxSmtControl::spec_from_u64(value) matches Some(y) ==> y.spec_to_u64() == value,
{
}

#[derive(Debug, PartialEq, Eq, Clone, Copy, Structural)]
pub enum CcxCoreControl {
    Auto,
    _1Plus0,
    _2Plus0,
    _3Plus0,
    _4Plus0,
    _5Plus0,
    _6Plus0,
    _7Plus0,
    _8Plus0,
    _9Plus0,
    _10Plus0,
    _11Plus0,
    _12Plus0,
    _13Plus0,
    _14Plus0,
    _15Plus0,
}

impl CcxCoreControl {
    /// The number that stands for this value.
    pub open spec fn spec_to_u64(self) -> u64 {
        match self {
            CcxCoreControl::Auto => 0x0,
            CcxCoreControl::_1Plus0 => 0x1,
            CcxCoreControl::_2Plus0 => 0x2,
            CcxCoreControl::_3Plus0 => 0x3,
            CcxCoreControl::_4Plus0 => 0x4,
            CcxCoreControl::_5Plus0 => 0x5,
            CcxCoreControl::_6Plus0 => 0x6,
            CcxCoreControl::_7Plus0 => 0x7,
            CcxCoreControl::_8Plus0 => 0x8,
            CcxCoreControl::_9Plus0 => 0x9,
            CcxCoreControl::_10Plus0 => 0xa,
            CcxCoreControl::_11Plus0 => 0xb,
            CcxCoreControl::_12Plus0 => 0xc,
            CcxCoreControl::_13Plus0 => 0xd,
            CcxCoreControl::_14Plus0 => 0xe,
            CcxCoreControl::_15Plus0 => 0xf,
        }
    }

    /// The value that VALUE stands for, if any.
    pub open spec fn spec_from_u64(value: u64) -> Option<CcxCoreControl> {
        match value {
            0x0 => Some(CcxCoreControl::Auto),
            0x1 => Some(CcxCoreControl::_1Plus0),
            0x2 => Some(CcxCoreControl::_2Plus0),
            0x3 => Some(CcxCoreControl::_3Plus0),
            0x4 => Some(CcxCoreControl::_4Plus0),
            0x5 => Some(CcxCoreControl::_5Plus0),
            0x6 => Some(CcxCoreControl::_6Plus0),
            0x7 => Some(CcxCoreControl::_7Plus0),
            0x8 => Some(CcxCoreControl::_8Plus0),
            0x9 => Some(CcxCoreControl::_9Plus0),
            0xa => Some(CcxCoreControl::_10Plus0),
            0xb => Some(CcxCoreControl::_11Plus0),
            0xc => Some(CcxCoreControl::_12Plus0),
            0xd => Some(CcxCoreControl::_13Plus0),
            0xe => Some(CcxCoreControl::_14Plus0),
            0xf => Some(CcxCoreControl::_15Plus0),
            _ => None,
        }
    }

    pub fn from_u64(value: u64) -> (r: Option<CcxCoreControl>)
        ensures
            r == CcxCoreControl::spec_from_u64(value),
    {
        match value {
            0x0 => Some(CcxCoreControl::Auto),
            0x1 => Some(CcxCoreControl::_1Plus0),
            0x2 => Some(CcxCoreControl::_2Plus0),
            0x3 => Some(CcxCoreControl::_3Plus0),
            0x4 => Some(CcxCoreControl::_4Plus0),
            0x5 => Some(CcxCoreControl::_5Plus0),
            0x6 => Some(CcxCoreControl::_6Plus0),
            0x7 => Some(CcxCoreControl::_7Plus0),
            0x8 => Some(CcxCoreControl::_8Plus0),
            0x9 => Some(CcxCoreControl::_9Plus0),
            0xa => Some(CcxCoreControl::_10Plus0),
            0xb => Some(CcxCoreControl::_11Plus0),
            0xc => Some(CcxCoreControl::_12Plus0),
            0xd => Some(CcxCoreControl::_13Plus0),
            0xe => Some(CcxCoreControl::_14Plus0),
            0xf => Some(CcxCoreControl::_15Plus0),
            _ => None,
        }
    }

    pub fn to_u64(&self) -> (r: Option<u64>)
        ensures
            r == Some(self.spec_to_u64()),
    {
        Some(
            match self {
                CcxCoreControl::Auto => 0x0,
                CcxCoreControl::_1Plus0 => 0x1,
                CcxCoreControl::_2Plus0 => 0x2,
                CcxCoreControl::_3Plus0 => 0x3,
                CcxCoreControl::_4Plus0 => 0x4,
                CcxCoreControl::_5Plus0 => 0x5,
                CcxCoreControl::_6Plus0 => 0x6,
                CcxCoreControl::_7Plus0 => 0x7,
                CcxCoreControl::_8Plus0 => 0x8,
                CcxCoreControl::_9Plus0 => 0x9,
                CcxCoreControl::_10Plus0 => 0xa,
                CcxCoreControl::_11Plus0 => 0xb,
                CcxCoreControl::_12Plus0 => 0xc,
                CcxCoreControl::_13Plus0 => 0xd,
                CcxCoreControl::_14Plus0 => 0xe,
                CcxCoreControl::_15Plus0 => 0xf,
            },
        )
    }
}

/// Every value of CcxCoreControl is read back from its own number, and every number that is
/// read as a value is that value's number.
pub proof fn lemma_ccx_core_control_roundtrip(x: CcxCoreControl, value: u64)
    ensures
        CcxCoreControl::spec_from_u64(x.spec_to_u64()) == Some(x),
        CcxCoreControl::spec_from_u64(value) matches Some(y) ==> y.spec_to_u64() == value,
{
}

impl CcxCoreControl {
    /// What the name of this value says: the number of cores (0 for the values that do not name one).
    pub open spec fn spec_core_count(self) -> int {
        match self {
            CcxCoreControl::_1Plus0 => 1,
            CcxCoreControl::_2Plus0 => 2,
            CcxCoreControl::_3Plus0 => 3,
            CcxCoreControl::_4Plus0 => 4,
            CcxCoreControl::_5Plus0 => 5,
            CcxCoreControl::_6Plus0 => 6,
            CcxCoreControl::_7Plus0 => 7,
            CcxCoreControl::_8Plus0 => 8,
            CcxCoreControl::_9Plus0 => 9,
            CcxCoreControl::_10Plus0 => 10,
            CcxCoreControl::_11Plus0 => 11,
            CcxCoreControl::_12Plus0 => 12,
            CcxCoreControl::_13Plus0 => 13,
            CcxCoreControl::_14Plus0 => 14,
            CcxCoreControl::_15Plus0 => 15,
            CcxCoreControl::Auto => 0,
        }
    }
}

/// The number of each value follows from what its name says: 1 times the number is
/// 1 times the named quantity plus 0 for the values that name one; each other value has a number of its own.
pub proof fn lemma_ccx_core_control_numbers_follow_names(x: CcxCoreControl)
    ensures
        (x != CcxCoreControl::Auto) ==> x.spec_to_u64() == x.spec_core_count(),
        x == CcxCoreControl::Auto <==> x.spec_to_u64() == 0,
{
}

#[derive(Debug, PartialEq, Eq, Clone, Copy, Structural)]
pub enum CcxL3XiPrefetchReqThrottleEnable {
    Disabled,
    Enabled,
    Auto,
}

impl CcxL3XiPrefetchReqThrottleEnable {
    /// The number that stands for this value.
    pub open spec fn spec_to_u64(self) -> u64 {
        match self {
            CcxL3XiPrefetchReqThrottleEnable::Disabled => 0x0,
            CcxL3XiPrefetchReqThrottleEnable::Enabled => 0x1,
            CcxL3XiPrefetchReqThrottleEnable::Auto => 0xff,
        }
    }

    /// The value that VALUE stands for, if any.
    pub open spec fn spec_from_u64(value: u64) -> Option<CcxL3XiPrefetchReqThrottleEnable> {
        match value {
            0x0 => Some(CcxL3XiPrefetchReqThrottleEnable::Disabled),
            0x1 => Some(CcxL3XiPrefetchReqThrottleEnable::Enabled),
            0xff => Some(CcxL3XiPrefetchReqThrottleEnable::Auto),
            _ => None,
        }
    }

    pub fn from_u64(value: u64) -> (r: Option<CcxL3XiPrefetchReqThrottleEnable>)
        ensures
            r == CcxL3XiPrefetchReqThrottleEnable::spec_from_u64(value),
    {
        match value {
            0x0 => Some(CcxL3XiPrefetchReqThrottleEnable::Disabled),
            0x1 => Some(CcxL3XiPrefetchReqThrottleEnable::Enabled),
            0xff => Some(CcxL3XiPrefetchReqThrottleEnable::Auto),
            _ => None,
        }
    }

    pub fn to_u64(&self) -> (r: Option<u64>)
        ensures
            r == Some(self.spec_to_u64()),
    {
        Some(
            match self {
                CcxL3XiPrefetchReqThrottleEnable::Disabled => 0x0,
                CcxL3XiPrefetchReqThrottleEnable::Enabled => 0x1,
                CcxL3XiPrefetchReqThrottleEnable::Auto => 0xff,
            },
        )
    }
}

/// Every value of CcxL3XiPrefetchReqThrottleEnable is read back from its own number, and every number that is
/// read as a value is that value's number.
pub proof fn lemma_ccx_l3_xi_prefetch_req_throttle_enable_roundtrip(x: CcxL3XiPrefetchReqThrottleEnable, value: u64)
    ensures
        CcxL3XiPrefetchReqThrottleEnable::spec_from_u64(x.spec_to_u64()) == Some(x),
        CcxL3XiPrefetchReqThrottleEnable::spec_from_u64(value) matches Some(y) ==> y.spec_to_u64() == value,
{
}

#[derive(Debug, PartialEq, Eq, Clone, Copy, Structural)]
pub enum CcxCcdControl {
    Auto,
    _2,
    _4,
    _6,
    _8,
    _10,
    _12,
    _14,
}

impl CcxCcdControl {
    /// The number that stands for this value.
    pub open spec fn spec_to_u64(self) -> u64 {
        match self {
            CcxCcdControl::Auto => 0x0,
            CcxCcdControl::_2 => 0x2,
            CcxCcdControl::_4 => 0x4,
            CcxCcdControl::_6 => 0x6,
            CcxCcdControl::_8 => 0x8,
            CcxCcdControl::_10 => 0xa,
            CcxCcdControl::_12 => 0xc,
            CcxCcdControl::_14 => 0xe,
        }
    }

    /// The value that VALUE stands for, if any.
    pub open spec fn spec_from_u64(value: u64) -> Option<CcxCcdControl> {
        match value {
            0x0 => Some(CcxCcdControl::Auto),
            0x2 => Some(CcxCcdControl::_2),
            0x4 => Some(CcxCcdControl::_4),
            0x6 => Some(CcxCcdControl::_6),
            0x8 => Some(CcxCcdControl::_8),
            0xa => Some(CcxCcdControl::_10),
            0xc => Some(CcxCcdControl::_12),
            0xe => Some(CcxCcdControl::_14),
            _ => None,
        }
    }

    pub fn from_u64(value: u64) -> (r: Option<CcxCcdControl>)
        ensures
            r == CcxCcdControl::spec_from_u64(value),
    {
        match value {
            0x0 => Some(CcxCcdControl::Auto),
            0x2 => Some(CcxCcdControl::_2),
            0x4 => Some(CcxCcdControl::_4),
            0x6 => Some(CcxCcdControl::_6),
            0x8 => Some(CcxCcdControl::_8),
            0xa => Some(CcxCcdControl::_10),
            0xc => Some(CcxCcdControl::_12),
            0xe => Some(CcxCcdControl::_14),
            _ => None,
        }
    }

    pub fn to_u64(&self) -> (r: Option<u64>)
        ensures
            r == Some(self.spec_to_u64()),
    {
        Some(
            match self {
                CcxCcdControl::Auto => 0x0,
                CcxCcdControl::_2 => 0x2,
                CcxCcdControl::_4 => 0x4,
                CcxCcdControl::_6 => 0x6,
                CcxCcdControl::_8 => 0x8,
                CcxCcdControl::_10 => 0xa,
                CcxCcdControl::_12 => 0xc,
                CcxCcdControl::_14 => 0xe,
            },
        )
    }
}

/// Every value of CcxCcdControl is read back from its own number, and every number that is
/// read as a value is that value's number.
pub proof fn lemma_ccx_ccd_control_roundtrip(x: CcxCcdControl, value: u64)
    ensures
        CcxCcdControl::spec_from_u64(x.spec_to_u64()) == Some(x),
        CcxCcdControl::spec_from_u64(value) matches Some(y) ==> y.spec_to_u64() == value,
{
}

impl CcxCcdControl {
    /// What the name of this value says: the number in its name (0 for the values that do not name one).
    pub open spec fn spec_named_number(self) -> int {
        match self {
            CcxCcdControl::_2 => 2,
            CcxCcdControl::_4 => 4,
            CcxCcdControl::_6 => 6,
            CcxCcdControl::_8 => 8,
            CcxCcdControl::_10 => 10,
            CcxCcdControl::_12 => 12,
            CcxCcdControl::_14 => 14,
            CcxCcdControl::Auto => 0,
        }
    }
}

/// The number of each value follows from what its name says: 1 times the number is
/// 1 times the named quantity plus 0 for the values that name one; each other value has a number of its own.
pub proof fn lemma_ccx_ccd_control_numbers_follow_names(x: CcxCcdControl)
    ensures
        (x != CcxCcdControl::Auto) ==> x.spec_to_u64() == x.spec_named_number(),
        x == CcxCcdControl::Auto <==> x.spec_to_u64() == 0,
{
}

#[derive(Debug, PartialEq, Eq, Clone, Copy, Structural)]
pub enum FchConsoleOutMode {
    Disabled,
    Enabled,
}

impl FchConsoleOutMode {
    /// The number that stands for this value.
    pub open spec fn spec_to_u64(self) -> u64 {
        match self {
            FchConsoleOutMode::Disabled => 0x0,
            FchConsoleOutMode::Enabled => 0x1,
        }
    }

    /// The value that VALUE stands for, if any.
    pub open spec fn spec_from_u64(value: u64) -> Option<FchConsoleOutMode> {
        match value {
            0x0 => Some(FchConsoleOutMode::Disabled),
            0x1 => Some(FchConsoleOutMode::Enabled),
            _ => None,
        }
    }

    pub fn from_u64(value: u64) -> (r: Option<FchConsoleOutMode>)
        ensures
            r == FchConsoleOutMode::spec_from_u64(value),
    {
        match value {
            0x0 => Some(FchConsoleOutMode::Disabled),
            0x1 => Some(FchConsoleOutMode::Enabled),
            _ => None,
        }
    }

    pub fn to_u64(&self) -> (r: Option<u64>)
        ensures
            r == Some(self.spec_to_u64()),
    {
        Some(
            match self {
                FchConsoleOutMode::Disabled => 0x0,
                FchConsoleOutMode::Enabled => 0x1,
            },
        )
    }
}

/// Every value of FchConsoleOutMode is read back from its own number, and every number that is
/// read as a value is that value's number.
pub proof fn lemma_fch_console_out_mode_roundtrip(x: FchConsoleOutMode, value: u64)
    ensures
        FchConsoleOutMode::spec_from_u64(x.spec_to_u64()) == Some(x),
        FchConsoleOutMode::spec_from_u64(value) matches Some(y) ==> y.spec_to_u64() == value,
{
}

#[derive(Debug, PartialEq, Eq, Clone, Copy, Structural)]
pub enum FchConsoleOutSuperIoType {
    Auto,
    Type1,
    Type2,
}

impl FchConsoleOutSuperIoType {
    /// The number that stands for this value.
    pub open spec fn spec_to_u64(self) -> u64 {
        match self {
            FchConsoleOutSuperIoType::Auto => 0x0,
            FchConsoleOutSuperIoType::Type1 => 0x1,
            FchConsoleOutSuperIoType::Type2 => 0x2,
        }
    }

    /// The value that VALUE stands for, if any.
    pub open spec fn spec_from_u64(value: u64) -> Option<FchConsoleOutSuperIoType> {
        match value {
            0x0 => Some(FchConsoleOutSuperIoType::Auto),
            0x1 => Some(FchConsoleOutSuperIoType::Type1),
            0x2 => Some(FchConsoleOutSuperIoType::Type2),
            _ => None,
        }
    }

    pub fn from_u64(value: u64) -> (r: Option<FchConsoleOutSuperIoType>)
        ensures
            r == FchConsoleOutSuperIoType::spec_from_u64(value),
    {
        match value {
            0x0 => Some(FchConsoleOutSuperIoType::Auto),
            0x1 => Some(FchConsoleOutSuperIoType::Type1),
            0x2 => Some(FchConsoleOutSuperIoType::Type2),
            _ => None,
        }
    }

    pub fn to_u64(&self) -> (r: Option<u64>)
        ensures
            r == Some(self.spec_to_u64()),
    {
        Some(
            match self {
                FchConsoleOutSuperIoType::Auto => 0x0,
                FchConsoleOutSuperIoType::Type1 => 0x1,
                FchConsoleOutSuperIoType::Type2 => 0x2,
            },
        )
    }
}

/// Every value of FchConsoleOutSuperIoType is read back from its own number, and every number that is
/// read as a value is that value's number.
pub proof fn lemma_fch_console_out_super_io_type_roundtrip(x: FchConsoleOutSuperIoType, value: u64)
    ensures
        FchConsoleOutSuperIoType::spec_from_u64(x.spec_to_u64()) == Some(x),
        FchConsoleOutSuperIoType::spec_from_u64(value) matches Some(y) ==> y.spec_to_u64() == value,
{
}

#[derive(Debug, PartialEq, Eq, Clone, Copy, Structural)]
pub enum FchConsoleSerialPort {
    SuperIo,
    Uart0Mmio,
    Uart1Mmio,
}

impl FchConsoleSerialPort {
    /// The number that stands for this value.
    pub open spec fn spec_to_u64(self) -> u64 {
        match self {
            FchConsoleSerialPort::SuperIo => 0x0,
            FchConsoleSerialPort::Uart0Mmio => 0x1,
            FchConsoleSerialPort::Uart1Mmio => 0x2,
        }
    }

    /// The value that VALUE stands for, if any.
    pub open spec fn spec_from_u64(value: u64) -> Option<FchConsoleSerialPort> {
        match value {
            0x0 => Some(FchConsoleSerialPort::SuperIo),
            0x1 => Some(FchConsoleSerialPort::Uart0Mmio),
            0x2 => Some(FchConsoleSerialPort::Uart1Mmio),
            _ => None,
        }
    }

    pub fn from_u64(value: u64) -> (r: Option<FchConsoleSerialPort>)
        ensures
            r == FchConsoleSerialPort::spec_from_u64(value),
    {
        match value {
            0x0 => Some(FchConsoleSerialPort::SuperIo),
            0x1 => Some(FchConsoleSerialPort::Uart0Mmio),
            0x2 => Some(FchConsoleSerialPort::Uart1Mmio),
            _ => None,
        }
    }

    pub fn to_u64(&self) -> (r: Option<u64>)
        ensures
            r == Some(self.spec_to_u64()),
    {
        Some(
            match self {
                FchConsoleSerialPort::SuperIo => 0x0,
                FchConsoleSerialPort::Uart0Mmio => 0x1,
                FchConsoleSerialPort::Uart1Mmio => 0x2,
            },
        )
    }
}

/// Every value of FchConsoleSerialPort is read back from its own number, and every number that is
/// read as a value is that value's number.
pub proof fn lemma_fch_console_serial_port_roundtrip(x: FchConsoleSerialPort, value: u64)
    ensures
        FchConsoleSerialPort::spec_from_u64(x.spec_to_u64()) == Some(x),
        FchConsoleSerialPort::spec_from_u64(value) matches Some(y) ==> y.spec_to_u64() == value,
{
}

#[derive(Debug, PartialEq, Eq, Clone, Copy, Structural)]
pub enum FchConsoleOutSerialPortIoBase {
    _3f8,
    _2f8,
    _3e8,
    _2e8,
}

impl FchConsoleOutSerialPortIoBase {
    /// The number that stands for this value.
    pub open spec fn spec_to_u64(self) -> u64 {
        match self {
            FchConsoleOutSerialPortIoBase::_3f8 => 0x0,
            FchConsoleOutSerialPortIoBase::_2f8 => 0x1,
            FchConsoleOutSerialPortIoBase::_3e8 => 0x2,
            FchConsoleOutSerialPortIoBase::_2e8 => 0x3,
        }
    }

    /// The value that VALUE stands for, if any.
    pub open spec fn spec_from_u64(value: u64) -> Option<FchConsoleOutSerialPortIoBase> {
        match value {
            0x0 => Some(FchConsoleOutSerialPortIoBase::_3f8),
            0x1 => Some(FchConsoleOutSerialPortIoBase::_2f8),
            0x2 => Some(FchConsoleOutSerialPortIoBase::_3e8),
            0x3 => Some(FchConsoleOutSerialPortIoBase::_2e8),
            _ => None,
        }
    }

    pub fn from_u64(value: u64) -> (r: Option<FchConsoleOutSerialPortIoBase>)
        ensures
            r == FchConsoleOutSerialPortIoBase::spec_from_u64(value),
    {
        match value {
            0x0 => Some(FchConsoleOutSerialPortIoBase::_3f8),
            0x1 => Some(FchConsoleOutSerialPortIoBase::_2f8),
            0x2 => Some(FchConsoleOutSerialPortIoBase::_3e8),
            0x3 => Some(FchConsoleOutSerialPortIoBase::_2e8),
            _ => None,
        }
    }

    pub fn to_u64(&self) -> (r: Option<u64>)
        ensures
            r == Some(self.spec_to_u64()),
    {
        Some(
            match self {
                FchConsoleOutSerialPortIoBase::_3f8 => 0x0,
                FchConsoleOutSerialPortIoBase::_2f8 => 0x1,
                FchConsoleOutSerialPortIoBase::_3e8 => 0x2,
                FchConsoleOutSerialPortIoBase::_2e8 => 0x3,
            },
        )
    }
}

/// Every value of FchConsoleOutSerialPortIoBase is read back from its own number, and every number that is
/// read as a value is that value's number.
pub proof fn lemma_fch_console_out_serial_port_io_base_roundtrip(x: FchConsoleOutSerialPortIoBase, value: u64)
    ensures
        FchConsoleOutSerialPortIoBase::spec_from_u64(x.spec_to_u64()) == Some(x),
        FchConsoleOutSerialPortIoBase::spec_from_u64(value) matches Some(y) ==> y.spec_to_u64() == value,
{
}

#[derive(Debug, PartialEq, Eq, Clone, Copy, Structural)]
pub enum FchIc3TransferSpeed {
    Sdr0,
    Sdr2,
}

impl FchIc3TransferSpeed {
    /// The number that stands for this value.
    pub open spec fn spec_to_u64(self) -> u64 {
        match self {
            FchIc3TransferSpeed::Sdr0 => 0x0,
            FchIc3TransferSpeed::Sdr2 => 0x2,
        }
    }

    /// The value that VALUE stands for, if any.
    pub open spec fn spec_from_u64(value: u64) -> Option<FchIc3TransferSpeed> {
        match value {
            0x0 => Some(FchIc3TransferSpeed::Sdr0),
            0x2 => Some(FchIc3TransferSpeed::Sdr2),
            _ => None,
        }
    }

    pub fn from_u64(value: u64) -> (r: Option<FchIc3TransferSpeed>)
        ensures
            r == FchIc3TransferSpeed::spec_from_u64(value),
    {
        match value {
            0x0 => Some(FchIc3TransferSpeed::Sdr0),
            0x2 => Some(FchIc3TransferSpeed::Sdr2),
            _ => None,
        }
    }

    pub fn to_u64(&self) -> (r: Option<u64>)
        ensures
            r == Some(self.spec_to_u64()),
    {
        Some(
            match self {
                FchIc3TransferSpeed::Sdr0 => 0x0,
                FchIc3TransferSpeed::Sdr2 => 0x2,
            },
        )
    }
}

/// Every value of FchIc3TransferSpeed is read back from its own number, and every number that is
/// read as a value is that value's number.
pub proof fn lemma_fch_ic3_transfer_speed_roundtrip(x: FchIc3TransferSpeed, value: u64)
    ensures
        FchIc3TransferSpeed::spec_from_u64(x.spec_to_u64()) == Some(x),
        FchIc3TransferSpeed::spec_from_u64(value) matches Some(y) ==> y.spec_to_u64() == value,
{
}

impl FchIc3TransferSpeed {
    /// What the name of this value says: the SDR mode number.
    pub open spec fn spec_sdr_mode(self) -> int {
        match self {
            FchIc3TransferSpeed::Sdr0 => 0,
            FchIc3TransferSpeed::Sdr2 => 2,
        }
    }
}

/// The number of each value follows from what its name says: 1 times the number is
/// 1 times the named quantity plus 0.
pub proof fn lemma_fch_ic3_transfer_speed_numbers_follow_names(x: FchIc3TransferSpeed)
    ensures
        x.spec_to_u64() == x.spec_sdr_mode(),
{
}

#[derive(Debug, PartialEq, Eq, Clone, Copy, Structural)]
pub enum DfToggle {
    Disabled,
    Enabled,
    Auto,
}

impl DfToggle {
    /// The number that stands for this value.
    pub open spec fn spec_to_u64(self) -> u64 {
        match self {
            DfToggle::Disabled => 0x0,
            DfToggle::Enabled => 0x1,
            DfToggle::Auto => 0x3,
        }
    }

    /// The value that VALUE stands for, if any.
    pub open spec fn spec_from_u64(value: u64) -> Option<DfToggle> {
        match value {
            0x0 => Some(DfToggle::Disabled),
            0x1 => Some(DfToggle::Enabled),
            0x3 => Some(DfToggle::Auto),
            _ => None,
        }
    }

    pub fn from_u64(value: u64) -> (r: Option<DfToggle>)
        ensures
            r == DfToggle::spec_from_u64(value),
    {
        match value {
            0x0 => Some(DfToggle::Disabled),
            0x1 => Some(DfToggle::Enabled),
            0x3 => Some(DfToggle::Auto),
            _ => None,
        }
    }

    pub fn to_u64(&self) -> (r: Option<u64>)
        ensures
            r == Some(self.spec_to_u64()),
    {
        Some(
            match self {
                DfToggle::Disabled => 0x0,
                DfToggle::Enabled => 0x1,
                DfToggle::Auto => 0x3,
            },
        )
    }
}

/// Every value of DfToggle is read back from its own number, and every number that is
/// read as a value is that value's number.
pub proof fn lemma_df_toggle_roundtrip(x: DfToggle, value: u64)
    ensures
        DfToggle::spec_from_u64(x.spec_to_u64()) == Some(x),
        DfToggle::spec_from_u64(value) matches Some(y) ==> y.spec_to_u64() == value,
{
}

#[derive(Debug, PartialEq, Eq, Clone, Copy, Structural)]
pub enum MemTsmeMode {
    Disabled,
    Enabled,
}

impl MemTsmeMode {
    /// The number that stands for this value.
    pub open spec fn spec_to_u64(self) -> u64 {
        match self {
            MemTsmeMode::Disabled => 0x0,
            MemTsmeMode::Enabled => 0x1,
        }
    }

    /// The value that VALUE stands for, if any.
    pub open spec fn spec_from_u64(value: u64) -> Option<MemTsmeMode> {
        match value {
            0x0 => Some(MemTsmeMode::Disabled),
            0x1 => Some(MemTsmeMode::Enabled),
            _ => None,
        }
    }

    pub fn from_u64(value: u64) -> (r: Option<MemTsmeMode>)
        ensures
            r == MemTsmeMode::spec_from_u64(value),
    {
        match value {
            0x0 => Some(MemTsmeMode::Disabled),
            0x1 => Some(MemTsmeMode::Enabled),
            _ => None,
        }
    }

    pub fn to_u64(&self) -> (r: Option<u64>)
        ensures
            r == Some(self.spec_to_u64()),
    {
        Some(
            match self {
                MemTsmeMode::Disabled => 0x0,
                MemTsmeMode::Enabled => 0x1,
            },
        )
    }
}

/// Every value of MemTsmeMode is read back from its own number, and every number that is
/// read as a value is that value's number.
pub proof fn lemma_mem_tsme_mode_roundtrip(x: MemTsmeMode, value: u64)
    ensures
        MemTsmeMode::spec_from_u64(x.spec_to_u64()) == Some(x),
        MemTsmeMode::spec_from_u64(value) matches Some(y) ==> y.spec_to_u64() == value,
{
}

#[derive(Debug, PartialEq, Eq, Clone, Copy, Structural)]
pub enum MemNvdimmPowerSource {
    DeviceManaged,
    HostManaged,
}

impl MemNvdimmPowerSource {
    /// The number that stands for this value.
    pub open spec fn spec_to_u64(self) -> u64 {
        match self {
            MemNvdimmPowerSource::DeviceManaged => 0x1,
            MemNvdimmPowerSource::HostManaged => 0x2,
        }
    }

    /// The value that VALUE stands for, if any.
    pub open spec fn spec_from_u64(value: u64) -> Option<MemNvdimmPowerSource> {
        match value {
            0x1 => Some(MemNvdimmPowerSource::DeviceManaged),
            0x2 => Some(MemNvdimmPowerSource::HostManaged),
            _ => None,
        }
    }

    pub fn from_u64(value: u64) -> (r: Option<MemNvdimmPowerSource>)
        ensures
            r == MemNvdimmPowerSource::spec_from_u64(value),
    {
        match value {
            0x1 => Some(MemNvdimmPowerSource::DeviceManaged),
            0x2 => Some(MemNvdimmPowerSource::HostManaged),
            _ => None,
        }
    }

    pub fn to_u64(&self) -> (r: Option<u64>)
        ensures
            r == Some(self.spec_to_u64()),
    {
        Some(
            match self {
                MemNvdimmPowerSource::DeviceManaged => 0x1,
                MemNvdimmPowerSource::HostManaged => 0x2,
            },
        )
    }
}

/// Every value of MemNvdimmPowerSource is read back from its own number, and every number that is
/// read as a value is that value's number.
pub proof fn lemma_mem_nvdimm_power_source_roundtrip(x: MemNvdimmPowerSource, value: u64)
    ensures
        MemNvdimmPowerSource::spec_from_u64(x.spec_to_u64()) == Some(x),
        MemNvdimmPowerSource::spec_from_u64(value) matches Some(y) ==> y.spec_to_u64() == value,
{
}

#[derive(Debug, PartialEq, Eq, Clone, Copy, Structural)]
pub enum MemRdimmTimingCmdParLatency {
    _1nCK,
    _2nCK,
    _3nCK,
    _4nCK,
    _0nCK,
    Auto,
}

impl MemRdimmTimingCmdParLatency {
    /// The number that stands for this value.
    pub open spec fn spec_to_u64(self) -> u64 {
        match self {
            MemRdimmTimingCmdParLatency::_1nCK => 0x0,
            MemRdimmTimingCmdParLatency::_2nCK => 0x1,
            MemRdimmTimingCmdParLatency::_3nCK => 0x2,
            MemRdimmTimingCmdParLatency::_4nCK => 0x3,
            MemRdimmTimingCmdParLatency::_0nCK => 0x4,
            MemRdimmTimingCmdParLatency::Auto => 0xff,
        }
    }

    /// The value that VALUE stands for, if any.
    pub open spec fn spec_from_u64(value: u64) -> Option<MemRdimmTimingCmdParLatency> {
        match value {
            0x0 => Some(MemRdimmTimingCmdParLatency::_1nCK),
            0x1 => Some(MemRdimmTimingCmdParLatency::_2nCK),
            0x2 => Some(MemRdimmTimingCmdParLatency::_3nCK),
            0x3 => Some(MemRdimmTimingCmdParLatency::_4nCK),
            0x4 => Some(MemRdimmTimingCmdParLatency::_0nCK),
            0xff => Some(MemRdimmTimingCmdParLatency::Auto),
            _ => None,
        }
    }

    pub fn from_u64(value: u64) -> (r: Option<MemRdimmTimingCmdParLatency>)
        ensures
            r == MemRdimmTimingCmdParLatency::spec_from_u64(value),
    {
        match value {
            0x0 => Some(MemRdimmTimingCmdParLatency::_1nCK),
            0x1 => Some(MemRdimmTimingCmdParLatency::_2nCK),
            0x2 => Some(MemRdimmTimingCmdParLatency::_3nCK),
            0x3 => Some(MemRdimmTimingCmdParLatency::_4nCK),
            0x4 => Some(MemRdimmTimingCmdParLatency::_0nCK),
            0xff => Some(MemRdimmTimingCmdParLatency::Auto),
            _ => None,
        }
    }

    pub fn to_u64(&self) -> (r: Option<u64>)
        ensures
            r == Some(self.spec_to_u64()),
    {
        Some(
            match self {
                MemRdimmTimingCmdParLatency::_1nCK => 0x0,
                MemRdimmTimingCmdParLatency::_2nCK => 0x1,
                MemRdimmTimingCmdParLatency::_3nCK => 0x2,
                MemRdimmTimingCmdParLatency::_4nCK => 0x3,
                MemRdimmTimingCmdParLatency::_0nCK => 0x4,
                MemRdimmTimingCmdParLatency::Auto => 0xff,
            },
        )
    }
}

/// Every value of MemRdimmTimingCmdParLatency is read back from its own number, and every number that is
/// read as a value is that value's number.
pub proof fn lemma_mem_rdimm_timing_cmd_par_latency_roundtrip(x: MemRdimmTimingCmdParLatency, value: u64)
    ensures
        MemRdimmTimingCmdParLatency::spec_from_u64(x.spec_to_u64()) == Some(x),
        MemRdimmTimingCmdParLatency::spec_from_u64(value) matches Some(y) ==> y.spec_to_u64() == value,
{
}

#[derive(Debug, PartialEq, Eq, Clone, Copy, Structural)]
pub enum MemAutoRefreshFineGranMode {
    Fixed1Times,
    Fixed2Times,
    Fixed4Times,
    Otf2Times,
    Otf4Times,
}

impl MemAutoRefreshFineGranMode {
    /// The number that stands for this value.
    pub open spec fn spec_to_u64(self) -> u64 {
        match self {
            MemAutoRefreshFineGranMode::Fixed1Times => 0x0,
            MemAutoRefreshFineGranMode::Fixed2Times => 0x1,
            MemAutoRefreshFineGranMode::Fixed4Times => 0x2,
            MemAutoRefreshFineGranMode::Otf2Times => 0x5,
            MemAutoRefreshFineGranMode::Otf4Times => 0x6,
        }
    }

    /// The value that VALUE stands for, if any.
    pub open spec fn spec_from_u64(value: u64) -> Option<MemAutoRefreshFineGranMode> {
        match value {
            0x0 => Some(MemAutoRefreshFineGranMode::Fixed1Times),
            0x1 => Some(MemAutoRefreshFineGranMode::Fixed2Times),
            0x2 => Some(MemAutoRefreshFineGranMode::Fixed4Times),
            0x5 => Some(MemAutoRefreshFineGranMode::Otf2Times),
            0x6 => Some(MemAutoRefreshFineGranMode::Otf4Times),
            _ => None,
        }
    }

    pub fn from_u64(value: u64) -> (r: Option<MemAutoRefreshFineGranMode>)
        ensures
            r == MemAutoRefreshFineGranMode::spec_from_u64(value),
    {
        match value {
            0x0 => Some(MemAutoRefreshFineGranMode::Fixed1Times),
            0x1 => Some(MemAutoRefreshFineGranMode::Fixed2Times),
            0x2 => Some(MemAutoRefreshFineGranMode::Fixed4Times),
            0x5 => Some(MemAutoRefreshFineGranMode::Otf2Times),
            0x6 => Some(MemAutoRefreshFineGranMode::Otf4Times),
            _ => None,
        }
    }

    pub fn to_u64(&self) -> (r: Option<u64>)
        ensures
            r == Some(self.spec_to_u64()),
    {
        Some(
            match self {
                MemAutoRefreshFineGranMode::Fixed1Times => 0x0,
                MemAutoRefreshFineGranMode::Fixed2Times => 0x1,
                MemAutoRefreshFineGranMode::Fixed4Times => 0x2,
                MemAutoRefreshFineGranMode::Otf2Times => 0x5,
                MemAutoRefreshFineGranMode::Otf4Times => 0x6,
            },
        )
    }
}

/// Every value of MemAutoRefreshFineGranMode is read back from its own number, and every number that is
/// read as a value is that value's number.
pub proof fn lemma_mem_auto_refresh_fine_gran_mode_roundtrip(x: MemAutoRefreshFineGranMode, value: u64)
    ensures
        MemAutoRefreshFineGranMode::spec_from_u64(x.spec_to_u64()) == Some(x),
        MemAutoRefreshFineGranMode::spec_from_u64(value) matches Some(y) ==> y.spec_to_u64() == value,
{
}

#[derive(Debug, PartialEq, Eq, Clone, Copy, Structural)]
pub enum MemAutoRefreshsCountForThrottling {
    Enabled,
    Disabled,
}

impl MemAutoRefreshsCountForThrottling {
    /// The number that stands for this value.
    pub open spec fn spec_to_u64(self) -> u64 {
        match self {
            MemAutoRefreshsCountForThrottling::Enabled => 0x0,
            MemAutoRefreshsCountForThrottling::Disabled => 0x1,
        }
    }

    /// The value that VALUE stands for, if any.
    pub open spec fn spec_from_u64(value: u64) -> Option<MemAutoRefreshsCountForThrottling> {
        match value {
            0x0 => Some(MemAutoRefreshsCountForThrottling::Enabled),
            0x1 => Some(MemAutoRefreshsCountForThrottling::Disabled),
            _ => None,
        }
    }

    pub fn from_u64(value: u64) -> (r: Option<MemAutoRefreshsCountForThrottling>)
        ensures
            r == MemAutoRefreshsCountForThrottling::spec_from_u64(value),
    {
        match value {
            0x0 => Some(MemAutoRefreshsCountForThrottling::Enabled),
            0x1 => Some(MemAutoRefreshsCountForThrottling::Disabled),
            _ => None,
        }
    }

    pub fn to_u64(&self) -> (r: Option<u64>)
        ensures
            r == Some(self.spec_to_u64()),
    {
        Some(
            match self {
                MemAutoRefreshsCountForThrottling::Enabled => 0x0,
                MemAutoRefreshsCountForThrottling::Disabled => 0x1,
            },
        )
    }
}

/// Every value of MemAutoRefreshsCountForThrottling is read back from its own number, and every number that is
/// read as a value is that value's number.
pub proof fn lemma_mem_auto_refreshs_count_for_throttling_roundtrip(x: MemAutoRefreshsCountForThrottling, value: u64)
    ensures
        MemAutoRefreshsCountForThrottling::spec_from_u64(x.spec_to_u64()) == Some(x),
        MemAutoRefreshsCountForThrottling::spec_from_u64(value) matches Some(y) ==> y.spec_to_u64() == value,
{
}

#[derive(Debug, PartialEq, Eq, Clone, Copy, Structural)]
pub enum MemControllerWritingCrcMode {
    Disabled,
    Enabled,
}

impl MemControllerWritingCrcMode {
    /// The number that stands for this value.
    pub open spec fn spec_to_u64(self) -> u64 {
        match self {
            MemControllerWritingCrcMode::Disabled => 0x0,
            MemControllerWritingCrcMode::Enabled => 0x1,
        }
    }

    /// The value that VALUE stands for, if any.
    pub open spec fn spec_from_u64(value: u64) -> Option<MemControllerWritingCrcMode> {
        match value {
            0x0 => Some(MemControllerWritingCrcMode::Disabled),
            0x1 => Some(MemControllerWritingCrcMode::Enabled),
            _ => None,
        }
    }

    pub fn from_u64(value: u64) -> (r: Option<MemControllerWritingCrcMode>)
        ensures
            r == MemControllerWritingCrcMode::spec_from_u64(value),
    {
        match value {
            0x0 => Some(MemControllerWritingCrcMode::Disabled),
            0x1 => Some(MemControllerWritingCrcMode::Enabled),
            _ => None,
        }
    }

    pub fn to_u64(&self) -> (r: Option<u64>)
        ensures
            r == Some(self.spec_to_u64()),
    {
        Some(
            match self {
                MemControllerWritingCrcMode::Disabled => 0x0,
                MemControllerWritingCrcMode::Enabled => 0x1,
            },
        )
    }
}

/// Every value of MemControllerWritingCrcMode is read back from its own number, and every number that is
/// read as a value is that value's number.
pub proof fn lemma_mem_controller_writing_crc_mode_roundtrip(x: MemControllerWritingCrcMode, value: u64)
    ensures
        MemControllerWritingCrcMode::spec_from_u64(x.spec_to_u64()) == Some(x),
        MemControllerWritingCrcMode::spec_from_u64(value) matches Some(y) ==> y.spec_to_u64() == value,
{
}

#[derive(Debug, PartialEq, Eq, Clone, Copy, Structural)]
pub enum MemHealPprType {
    SoftRepair,
    HardRepair,
    NoRepair,
}

impl MemHealPprType {
    /// The number that stands for this value.
    pub open spec fn spec_to_u64(self) -> u64 {
        match self {
            MemHealPprType::SoftRepair => 0x0,
            MemHealPprType::HardRepair => 0x1,
            MemHealPprType::NoRepair => 0x2,
        }
    }

    /// The value that VALUE stands for, if any.
    pub open spec fn spec_from_u64(value: u64) -> Option<MemHealPprType> {
        match value {
            0x0 => Some(MemHealPprType::SoftRepair),
            0x1 => Some(MemHealPprType::HardRepair),
            0x2 => Some(MemHealPprType::NoRepair),
            _ => None,
        }
    }

    pub fn from_u64(value: u64) -> (r: Option<MemHealPprType>)
        ensures
            r == MemHealPprType::spec_from_u64(value),
    {
        match value {
            0x0 => Some(MemHealPprType::SoftRepair),
            0x1 => Some(MemHealPprType::HardRepair),
            0x2 => Some(MemHealPprType::NoRepair),
            _ => None,
        }
    }

    pub fn to_u64(&self) -> (r: Option<u64>)
        ensures
            r == Some(self.spec_to_u64()),
    {
        Some(
            match self {
                MemHealPprType::SoftRepair => 0x0,
                MemHealPprType::HardRepair => 0x1,
                MemHealPprType::NoRepair => 0x2,
            },
        )
    }
}

/// Every value of MemHealPprType is read back from its own number, and every number that is
/// read as a value is that value's number.
pub proof fn lemma_mem_heal_ppr_type_roundtrip(x: MemHealPprType, value: u64)
    ensures
        MemHealPprType::spec_from_u64(x.spec_to_u64()) == Some(x),
        MemHealPprType::spec_from_u64(value) matches Some(y) ==> y.spec_to_u64() == value,
{
}

#[derive(Debug, PartialEq, Eq, Clone, Copy, Structural)]
pub enum MemHealTestSelect {
    Normal,
    NoVendorTests,
    ForceAllVendorTests,
}

impl MemHealTestSelect {
    /// The number that stands for this value.
    pub open spec fn spec_to_u64(self) -> u64 {
        match self {
            MemHealTestSelect::Normal => 0x0,
            MemHealTestSelect::NoVendorTests => 0x1,
            MemHealTestSelect::ForceAllVendorTests => 0x2,
        }
    }

    /// The value that VALUE stands for, if any.
    pub open spec fn spec_from_u64(value: u64) -> Option<MemHealTestSelect> {
        match value {
            0x0 => Some(MemHealTestSelect::Normal),
            0x1 => Some(MemHealTestSelect::NoVendorTests),
            0x2 => Some(MemHealTestSelect::ForceAllVendorTests),
            _ => None,
        }
    }

    pub fn from_u64(value: u64) -> (r: Option<MemHealTestSelect>)
        ensures
            r == MemHealTestSelect::spec_from_u64(value),
    {
        match value {
            0x0 => Some(MemHealTestSelect::Normal),
            0x1 => Some(MemHealTestSelect::NoVendorTests),
            0x2 => Some(MemHealTestSelect::ForceAllVendorTests),
            _ => None,
        }
    }

    pub fn to_u64(&self) -> (r: Option<u64>)
        ensures
            r == Some(self.spec_to_u64()),
    {
        Some(
            match self {
                MemHealTestSelect::Normal => 0x0,
                MemHealTestSelect::NoVendorTests => 0x1,
                MemHealTestSelect::ForceAllVendorTests => 0x2,
            },
        )
    }
}

/// Every value of MemHealTestSelect is read back from its own number, and every number that is
/// read as a value is that value's number.
pub proof fn lemma_mem_heal_test_select_roundtrip(x: MemHealTestSelect, value: u64)
    ensures
        MemHealTestSelect::spec_from_u64(x.spec_to_u64()) == Some(x),
        MemHealTestSelect::spec_from_u64(value) matches Some(y) ==> y.spec_to_u64() == value,
{
}

#[derive(Debug, PartialEq, Eq, Clone, Copy, Structural)]
pub enum MemPmuBistAlgorithmSelectDdr {
    User,
    Vendor,
}

impl MemPmuBistAlgorithmSelectDdr {
    /// The number that stands for this value.
    pub open spec fn spec_to_u64(self) -> u64 {
        match self {
            MemPmuBistAlgorithmSelectDdr::User => 0x0,
            MemPmuBistAlgorithmSelectDdr::Vendor => 0x1,
        }
    }

    /// The value that VALUE stands for, if any.
    pub open spec fn spec_from_u64(value: u64) -> Option<MemPmuBistAlgorithmSelectDdr> {
        match value {
            0x0 => Some(MemPmuBistAlgorithmSelectDdr::User),
            0x1 => Some(MemPmuBistAlgorithmSelectDdr::Vendor),
            _ => None,
        }
    }

    pub fn from_u64(value: u64) -> (r: Option<MemPmuBistAlgorithmSelectDdr>)
        ensures
            r == MemPmuBistAlgorithmSelectDdr::spec_from_u64(value),
    {
        match value {
            0x0 => Some(MemPmuBistAlgorithmSelectDdr::User),
            0x1 => Some(MemPmuBistAlgorithmSelectDdr::Vendor),
            _ => None,
        }
    }

    pub fn to_u64(&self) -> (r: Option<u64>)
        ensures
            r == Some(self.spec_to_u64()),
    {
        Some(
            match self {
                MemPmuBistAlgorithmSelectDdr::User => 0x0,
                MemPmuBistAlgorithmSelectDdr::Vendor => 0x1,
            },
        )
    }
}

/// Every value of MemPmuBistAlgorithmSelectDdr is read back from its own number, and every number that is
/// read as a value is that value's number.
pub proof fn lemma_mem_pmu_bist_algorithm_select_ddr_roundtrip(x: MemPmuBistAlgorithmSelectDdr, value: u64)
    ensures
        MemPmuBistAlgorithmSelectDdr::spec_from_u64(x.spec_to_u64()) == Some(x),
        MemPmuBistAlgorithmSelectDdr::spec_from_u64(value) matches Some(y) ==> y.spec_to_u64() == value,
{
}

#[derive(Debug, PartialEq, Eq, Clone, Copy, Structural)]
pub enum DfExtIpSyncFloodPropagation {
    Allow,
    Disable,
    Auto,
}

impl DfExtIpSyncFloodPropagation {
    /// The number that stands for this value.
    pub open spec fn spec_to_u64(self) -> u64 {
        match self {
            DfExtIpSyncFloodPropagation::Allow => 0x0,
            DfExtIpSyncFloodPropagation::Disable => 0x1,
            DfExtIpSyncFloodPropagation::Auto => 0xff,
        }
    }

    /// The value that VALUE stands for, if any.
    pub open spec fn spec_from_u64(value: u64) -> Option<DfExtIpSyncFloodPropagation> {
        match value {
            0x0 => Some(DfExtIpSyncFloodPropagation::Allow),
            0x1 => Some(DfExtIpSyncFloodPropagation::Disable),
            0xff => Some(DfExtIpSyncFloodPropagation::Auto),
            _ => None,
        }
    }

    pub fn from_u64(value: u64) -> (r: Option<DfExtIpSyncFloodPropagation>)
        ensures
            r == DfExtIpSyncFloodPropagation::spec_from_u64(value),
    {
        match value {
            0x0 => Some(DfExtIpSyncFloodPropagation::Allow),
            0x1 => Some(DfExtIpSyncFloodPropagation::Disable),
            0xff => Some(DfExtIpSyncFloodPropagation::Auto),
            _ => None,
        }
    }

    pub fn to_u64(&self) -> (r: Option<u64>)
        ensures
            r == Some(self.spec_to_u64()),
    {
        Some(
            match self {
                DfExtIpSyncFloodPropagation::Allow => 0x0,
                DfExtIpSyncFloodPropagation::Disable => 0x1,
                DfExtIpSyncFloodPropagation::Auto => 0xff,
            },
        )
    }
}

/// Every value of DfExtIpSyncFloodPropagation is read back from its own number, and every number that is
/// read as a value is that value's number.
pub proof fn lemma_df_ext_ip_sync_flood_propagation_roundtrip(x: DfExtIpSyncFloodPropagation, value: u64)
    ensures
        DfExtIpSyncFloodPropagation::spec_from_u64(x.spec_to_u64()) == Some(x),
        DfExtIpSyncFloodPropagation::spec_from_u64(value) matches Some(y) ==> y.spec_to_u64() == value,
{
}

#[derive(Debug, PartialEq, Eq, Clone, Copy, Structural)]
pub enum DfSyncFloodPropagation {
    Allow,
    Disable,
    Auto,
}

impl DfSyncFloodPropagation {
    /// The number that stands for this value.
    pub open spec fn spec_to_u64(self) -> u64 {
        match self {
            DfSyncFloodPropagation::Allow => 0x0,
            DfSyncFloodPropagation::Disable => 0x1,
            DfSyncFloodPropagation::Auto => 0xff,
        }
    }

    /// The value that VALUE stands for, if any.
    pub open spec fn spec_from_u64(value: u64) -> Option<DfSyncFloodPropagation> {
        match value {
            0x0 => Some(DfSyncFloodPropagation::Allow),
            0x1 => Some(DfSyncFloodPropagation::Disable),
            0xff => Some(DfSyncFloodPropagation::Auto),
            _ => None,
        }
    }

    pub fn from_u64(value: u64) -> (r: Option<DfSyncFloodPropagation>)
        ensures
            r == DfSyncFloodPropagation::spec_from_u64(value),
    {
        match value {
            0x0 => Some(DfSyncFloodPropagation::Allow),
            0x1 => Some(DfSyncFloodPropagation::Disable),
            0xff => Some(DfSyncFloodPropagation::Auto),
            _ => None,
        }
    }

    pub fn to_u64(&self) -> (r: Option<u64>)
        ensures
            r == Some(self.spec_to_u64()),
    {
        Some(
            match self {
                DfSyncFloodPropagation::Allow => 0x0,
                DfSyncFloodPropagation::Disable => 0x1,
                DfSyncFloodPropagation::Auto => 0xff,
            },
        )
    }
}

/// Every value of DfSyncFloodPropagation is read back from its own number, and every number that is
/// read as a value is that value's number.
pub proof fn lemma_df_sync_flood_propagation_roundtrip(x: DfSyncFloodPropagation, value: u64)
    ensures
        DfSyncFloodPropagation::spec_from_u64(x.spec_to_u64()) == Some(x),
        DfSyncFloodPropagation::spec_from_u64(value) matches Some(y) ==> y.spec_to_u64() == value,
{
}

#[derive(Debug, PartialEq, Eq, Clone, Copy, Structural)]
pub enum DfMemInterleaving {
    NoInterleaving,
    Channel,
    Die,
    Socket,
    Auto,
}

impl DfMemInterleaving {
    /// The number that stands for this value.
    pub open spec fn spec_to_u64(self) -> u64 {
        match self {
            DfMemInterleaving::NoInterleaving => 0x0,
            DfMemInterleaving::Channel => 0x1,
            DfMemInterleaving::Die => 0x2,
            DfMemInterleaving::Socket => 0x3,
            DfMemInterleaving::Auto => 0x7,
        }
    }

    /// The value that VALUE stands for, if any.
    pub open spec fn spec_from_u64(value: u64) -> Option<DfMemInterleaving> {
        match value {
            0x0 => Some(DfMemInterleaving::NoInterleaving),
            0x1 => Some(DfMemInterleaving::Channel),
            0x2 => Some(DfMemInterleaving::Die),
            0x3 => Some(DfMemInterleaving::Socket),
            0x7 => Some(DfMemInterleaving::Auto),
            _ => None,
        }
    }

    pub fn from_u64(value: u64) -> (r: Option<DfMemInterleaving>)
        ensures
            r == DfMemInterleaving::spec_from_u64(value),
    {
        match value {
            0x0 => Some(DfMemInterleaving::NoInterleaving),
            0x1 => Some(DfMemInterleaving::Channel),
            0x2 => Some(DfMemInterleaving::Die),
            0x3 => Some(DfMemInterleaving::Socket),
            0x7 => Some(DfMemInterleaving::Auto),
            _ => None,
        }
    }

    pub fn to_u64(&self) -> (r: Option<u64>)
        ensures
            r == Some(self.spec_to_u64()),
    {
        Some(
            match self {
                DfMemInterleaving::NoInterleaving => 0x0,
                DfMemInterleaving::Channel => 0x1,
                DfMemInterleaving::Die => 0x2,
                DfMemInterleaving::Socket => 0x3,
                DfMemInterleaving::Auto => 0x7,
            },
        )
    }
}

/// Every value of DfMemInterleaving is read back from its own number, and every number that is
/// read as a value is that value's number.
pub proof fn lemma_df_mem_interleaving_roundtrip(x: DfMemInterleaving, value: u64)
    ensures
        DfMemInterleaving::spec_from_u64(x.spec_to_u64()) == Some(x),
        DfMemInterleaving::spec_from_u64(value) matches Some(y) ==> y.spec_to_u64() == value,
{
}

#[derive(Debug, PartialEq, Eq, Clone, Copy, Structural)]
pub enum DfMemInterleavingSize {
    _256_Byte,
    _512_Byte,
    _1024_Byte,
    _2048_Byte,
    _4096_Byte,
    Auto,
}

impl DfMemInterleavingSize {
    /// The number that stands for this value.
    pub open spec fn spec_to_u64(self) -> u64 {
        match self {
            DfMemInterleavingSize::_256_Byte => 0x0,
            DfMemInterleavingSize::_512_Byte => 0x1,
            DfMemInterleavingSize::_1024_Byte => 0x2,
            DfMemInterleavingSize::_2048_Byte => 0x3,
            DfMemInterleavingSize::_4096_Byte => 0x4,
            DfMemInterleavingSize::Auto => 0x7,
        }
    }

    /// The value that VALUE stands for, if any.
    pub open spec fn spec_from_u64(value: u64) -> Option<DfMemInterleavingSize> {
        match value {
            0x0 => Some(DfMemInterleavingSize::_256_Byte),
            0x1 => Some(DfMemInterleavingSize::_512_Byte),
            0x2 => Some(DfMemInterleavingSize::_1024_Byte),
            0x3 => Some(DfMemInterleavingSize::_2048_Byte),
            0x4 => Some(DfMemInterleavingSize::_4096_Byte),
            0x7 => Some(DfMemInterleavingSize::Auto),
            _ => None,
        }
    }

    pub fn from_u64(value: u64) -> (r: Option<DfMemInterleavingSize>)
        ensures
            r == DfMemInterleavingSize::spec_from_u64(value),
    {
        match value {
            0x0 => Some(DfMemInterleavingSize::_256_Byte),
            0x1 => Some(DfMemInterleavingSize::_512_Byte),
            0x2 => Some(DfMemInterleavingSize::_1024_Byte),
            0x3 => Some(DfMemInterleavingSize::_2048_Byte),
            0x4 => Some(DfMemInterleavingSize::_4096_Byte),
            0x7 => Some(DfMemInterleavingSize::Auto),
            _ => None,
        }
    }

    pub fn to_u64(&self) -> (r: Option<u64>)
        ensures
            r == Some(self.spec_to_u64()),
    {
        Some(
            match self {
                DfMemInterleavingSize::_256_Byte => 0x0,
                DfMemInterleavingSize::_512_Byte => 0x1,
                DfMemInterleavingSize::_1024_Byte => 0x2,
                DfMemInterleavingSize::_2048_Byte => 0x3,
                DfMemInterleavingSize::_4096_Byte => 0x4,
                DfMemInterleavingSize::Auto => 0x7,
            },
        )
    }
}

/// Every value of DfMemInterleavingSize is read back from its own number, and every number that is
/// read as a value is that value's number.
pub proof fn lemma_df_mem_interleaving_size_roundtrip(x: DfMemInterleavingSize, value: u64)
    ensures
        DfMemInterleavingSize::spec_from_u64(x.spec_to_u64()) == Some(x),
        DfMemInterleavingSize::spec_from_u64(value) matches Some(y) ==> y.spec_to_u64() == value,
{
}

impl DfMemInterleavingSize {
    /// What the name of this value says: the size, in bytes (0 for the values that do not name one).
    pub open spec fn spec_size_in_bytes(self) -> int {
        match self {
            DfMemInterleavingSize::_256_Byte => 256,
            DfMemInterleavingSize::_512_Byte => 512,
            DfMemInterleavingSize::_1024_Byte => 1024,
            DfMemInterleavingSize::_2048_Byte => 2048,
            DfMemInterleavingSize::_4096_Byte => 4096,
            DfMemInterleavingSize::Auto => 0,
        }
    }
}

/// The numbers of the values follow what their names say: of two values that name one,
/// the one with the larger named quantity has the larger number; each other value has a number of its own.
pub proof fn lemma_df_mem_interleaving_size_numbers_follow_names(x: DfMemInterleavingSize, y: DfMemInterleavingSize)
    ensures
        (x != DfMemInterleavingSize::Auto && y != DfMemInterleavingSize::Auto) ==> (x.spec_size_in_bytes() < y.spec_size_in_bytes() <==> x.spec_to_u64() < y.spec_to_u64()),
        x == DfMemInterleavingSize::Auto <==> x.spec_to_u64() == 7,
{
}

#[derive(Debug, PartialEq, Eq, Clone, Copy, Structural)]
pub enum DfCxlToggle {
    Disabled,
    Enabled,
    Auto,
}

impl DfCxlToggle {
    /// The number that stands for this value.
    pub open spec fn spec_to_u64(self) -> u64 {
        match self {
            DfCxlToggle::Disabled => 0x0,
            DfCxlToggle::Enabled => 0x1,
            DfCxlToggle::Auto => 0xff,
        }
    }

    /// The value that VALUE stands for, if any.
    pub open spec fn spec_from_u64(value: u64) -> Option<DfCxlToggle> {
        match value {
            0x0 => Some(DfCxlToggle::Disabled),
            0x1 => Some(DfCxlToggle::Enabled),
            0xff => Some(DfCxlToggle::Auto),
            _ => None,
        }
    }

    pub fn from_u64(value: u64) -> (r: Option<DfCxlToggle>)
        ensures
            r == DfCxlToggle::spec_from_u64(value),
    {
        match value {
            0x0 => Some(DfCxlToggle::Disabled),
            0x1 => Some(DfCxlToggle::Enabled),
            0xff => Some(DfCxlToggle::Auto),
            _ => None,
        }
    }

    pub fn to_u64(&self) -> (r: Option<u64>)
        ensures
            r == Some(self.spec_to_u64()),
    {
        Some(
            match self {
                DfCxlToggle::Disabled => 0x0,
                DfCxlToggle::Enabled => 0x1,
                DfCxlToggle::Auto => 0xff,
            },
        )
    }
}

/// Every value of DfCxlToggle is read back from its own number, and every number that is
/// read as a value is that value's number.
pub proof fn lemma_df_cxl_toggle_roundtrip(x: DfCxlToggle, value: u64)
    ensures
        DfCxlToggle::spec_from_u64(x.spec_to_u64()) == Some(x),
        DfCxlToggle::spec_from_u64(value) matches Some(y) ==> y.spec_to_u64() == value,
{
}

#[derive(Debug, PartialEq, Eq, Clone, Copy, Structural)]
pub enum DfCcdBwThrottleLevel {
    _0,
    _1,
    _2,
    _3,
    _4,
    Auto,
}

impl DfCcdBwThrottleLevel {
    /// The number that stands for this value.
    pub open spec fn spec_to_u64(self) -> u64 {
        match self {
            DfCcdBwThrottleLevel::_0 => 0x0,
            DfCcdBwThrottleLevel::_1 => 0x1,
            DfCcdBwThrottleLevel::_2 => 0x2,
            DfCcdBwThrottleLevel::_3 => 0x3,
            DfCcdBwThrottleLevel::_4 => 0x4,
            DfCcdBwThrottleLevel::Auto => 0xff,
        }
    }

    /// The value that VALUE stands for, if any.
    pub open spec fn spec_from_u64(value: u64) -> Option<DfCcdBwThrottleLevel> {
        match value {
            0x0 => Some(DfCcdBwThrottleLevel::_0),
            0x1 => Some(DfCcdBwThrottleLevel::_1),
            0x2 => Some(DfCcdBwThrottleLevel::_2),
            0x3 => Some(DfCcdBwThrottleLevel::_3),
            0x4 => Some(DfCcdBwThrottleLevel::_4),
            0xff => Some(DfCcdBwThrottleLevel::Auto),
            _ => None,
        }
    }

    pub fn from_u64(value: u64) -> (r: Option<DfCcdBwThrottleLevel>)
        ensures
            r == DfCcdBwThrottleLevel::spec_from_u64(value),
    {
        match value {
            0x0 => Some(DfCcdBwThrottleLevel::_0),
            0x1 => Some(DfCcdBwThrottleLevel::_1),
            0x2 => Some(DfCcdBwThrottleLevel::_2),
            0x3 => Some(DfCcdBwThrottleLevel::_3),
            0x4 => Some(DfCcdBwThrottleLevel::_4),
            0xff => Some(DfCcdBwThrottleLevel::Auto),
            _ => None,
        }
    }

    pub fn to_u64(&self) -> (r: Option<u64>)
        ensures
            r == Some(self.spec_to_u64()),
    {
        Some(
            match self {
                DfCcdBwThrottleLevel::_0 => 0x0,
                DfCcdBwThrottleLevel::_1 => 0x1,
                DfCcdBwThrottleLevel::_2 => 0x2,
                DfCcdBwThrottleLevel::_3 => 0x3,
                DfCcdBwThrottleLevel::_4 => 0x4,
                DfCcdBwThrottleLevel::Auto => 0xff,
            },
        )
    }
}

/// Every value of DfCcdBwThrottleLevel is read back from its own number, and every number that is
/// read as a value is that value's number.
pub proof fn lemma_df_ccd_bw_throttle_level_roundtrip(x: DfCcdBwThrottleLevel, value: u64)
    ensures
        DfCcdBwThrottleLevel::spec_from_u64(x.spec_to_u64()) == Some(x),
        DfCcdBwThrottleLevel::spec_from_u64(value) matches Some(y) ==> y.spec_to_u64() == value,
{
}

impl DfCcdBwThrottleLevel {
    /// What the name of this value says: the number in its name (0 for the values that do not name one).
    pub open spec fn spec_named_number(self) -> int {
        match self {
            DfCcdBwThrottleLevel::_0 => 0,
            DfCcdBwThrottleLevel::_1 => 1,
            DfCcdBwThrottleLevel::_2 => 2,
            DfCcdBwThrottleLevel::_3 => 3,
            DfCcdBwThrottleLevel::_4 => 4,
            DfCcdBwThrottleLevel::Auto => 0,
        }
    }
}

/// The number of each value follows from what its name says: 1 times the number is
/// 1 times the named quantity plus 0 for the values that name one; each other value has a number of its own.
pub proof fn lemma_df_ccd_bw_throttle_level_numbers_follow_names(x: DfCcdBwThrottleLevel)
    ensures
        (x != DfCcdBwThrottleLevel::Auto) ==> x.spec_to_u64() == x.spec_named_number(),
        x == DfCcdBwThrottleLevel::Auto <==> x.spec_to_u64() == 255,
{
}

#[derive(Debug, PartialEq, Eq, Clone, Copy, Structural)]
pub enum DfDramNumaPerSocket {
    NoNuma,
    One,
    Two,
    Four,
    Auto,
}

impl DfDramNumaPerSocket {
    /// The number that stands for this value.
    pub open spec fn spec_to_u64(self) -> u64 {
        match self {
            DfDramNumaPerSocket::NoNuma => 0x0,
            DfDramNumaPerSocket::One => 0x1,
            DfDramNumaPerSocket::Two => 0x2,
            DfDramNumaPerSocket::Four => 0x3,
            DfDramNumaPerSocket::Auto => 0x7,
        }
    }

    /// The value that VALUE stands for, if any.
    pub open spec fn spec_from_u64(value: u64) -> Option<DfDramNumaPerSocket> {
        match value {
            0x0 => Some(DfDramNumaPerSocket::NoNuma),
            0x1 => Some(DfDramNumaPerSocket::One),
            0x2 => Some(DfDramNumaPerSocket::Two),
            0x3 => Some(DfDramNumaPerSocket::Four),
            0x7 => Some(DfDramNumaPerSocket::Auto),
            _ => None,
        }
    }

    pub fn from_u64(value: u64) -> (r: Option<DfDramNumaPerSocket>)
        ensures
            r == DfDramNumaPerSocket::spec_from_u64(value),
    {
        match value {
            0x0 => Some(DfDramNumaPerSocket::NoNuma),
            0x1 => Some(DfDramNumaPerSocket::One),
            0x2 => Some(DfDramNumaPerSocket::Two),
            0x3 => Some(DfDramNumaPerSocket::Four),
            0x7 => Some(DfDramNumaPerSocket::Auto),
            _ => None,
        }
    }

    pub fn to_u64(&self) -> (r: Option<u64>)
        ensures
            r == Some(self.spec_to_u64()),
    {
        Some(
            match self {
                DfDramNumaPerSocket::NoNuma => 0x0,
                DfDramNumaPerSocket::One => 0x1,
                DfDramNumaPerSocket::Two => 0x2,
                DfDramNumaPerSocket::Four => 0x3,
                DfDramNumaPerSocket::Auto => 0x7,
            },
        )
    }
}

/// Every value of DfDramNumaPerSocket is read back from its own number, and every number that is
/// read as a value is that value's number.
pub proof fn lemma_df_dram_numa_per_socket_roundtrip(x: DfDramNumaPerSocket, value: u64)
    ensures
        DfDramNumaPerSocket::spec_from_u64(x.spec_to_u64()) == Some(x),
        DfDramNumaPerSocket::spec_from_u64(value) matches Some(y) ==> y.spec_to_u64() == value,
{
}

#[derive(Debug, PartialEq, Eq, Clone, Copy, Structural)]
pub enum DfRemapAt1TiB {
    Disabled,
    Enabled,
    Auto,
}

impl DfRemapAt1TiB {
    /// The number that stands for this value.
    pub open spec fn spec_to_u64(self) -> u64 {
        match self {
            DfRemapAt1TiB::Disabled => 0x0,
            DfRemapAt1TiB::Enabled => 0x1,
            DfRemapAt1TiB::Auto => 0xff,
        }
    }

    /// The value that VALUE stands for, if any.
    pub open spec fn spec_from_u64(value: u64) -> Option<DfRemapAt1TiB> {
        match value {
            0x0 => Some(DfRemapAt1TiB::Disabled),
            0x1 => Some(DfRemapAt1TiB::Enabled),
            0xff => Some(DfRemapAt1TiB::Auto),
            _ => None,
        }
    }

    pub fn from_u64(value: u64) -> (r: Option<DfRemapAt1TiB>)
        ensures
            r == DfRemapAt1TiB::spec_from_u64(value),
    {
        match value {
            0x0 => Some(DfRemapAt1TiB::Disabled),
            0x1 => Some(DfRemapAt1TiB::Enabled),
            0xff => Some(DfRemapAt1TiB::Auto),
            _ => None,
        }
    }

    pub fn to_u64(&self) -> (r: Option<u64>)
        ensures
            r == Some(self.spec_to_u64()),
    {
        Some(
            match self {
                DfRemapAt1TiB::Disabled => 0x0,
                DfRemapAt1TiB::Enabled => 0x1,
                DfRemapAt1TiB::Auto => 0xff,
            },
        )
    }
}

/// Every value of DfRemapAt1TiB is read back from its own number, and every number that is
/// read as a value is that value's number.
pub proof fn lemma_df_remap_at1_ti_b_roundtrip(x: DfRemapAt1TiB, value: u64)
    ensures
        DfRemapAt1TiB::spec_from_u64(x.spec_to_u64()) == Some(x),
        DfRemapAt1TiB::spec_from_u64(value) matches Some(y) ==> y.spec_to_u64() == value,
{
}

#[derive(Debug, PartialEq, Eq, Clone, Copy, Structural)]
pub enum DfXgmiLinkConfig {
    _2links_connected,
    _3links_connected,
    _4links_connected,
    Auto,
}

impl DfXgmiLinkConfig {
    /// The number that stands for this value.
    pub open spec fn spec_to_u64(self) -> u64 {
        match self {
            DfXgmiLinkConfig::_2links_connected => 0x0,
            DfXgmiLinkConfig::_3links_connected => 0x1,
            DfXgmiLinkConfig::_4links_connected => 0x2,
            DfXgmiLinkConfig::Auto => 0x3,
        }
    }

    /// The value that VALUE stands for, if any.
    pub open spec fn spec_from_u64(value: u64) -> Option<DfXgmiLinkConfig> {
        match value {
            0x0 => Some(DfXgmiLinkConfig::_2links_connected),
            0x1 => Some(DfXgmiLinkConfig::_3links_connected),
            0x2 => Some(DfXgmiLinkConfig::_4links_connected),
            0x3 => Some(DfXgmiLinkConfig::Auto),
            _ => None,
        }
    }

    pub fn from_u64(value: u64) -> (r: Option<DfXgmiLinkConfig>)
        ensures
            r == DfXgmiLinkConfig::spec_from_u64(value),
    {
        match value {
            0x0 => Some(DfXgmiLinkConfig::_2links_connected),
            0x1 => Some(DfXgmiLinkConfig::_3links_connected),
            0x2 => Some(DfXgmiLinkConfig::_4links_connected),
            0x3 => Some(DfXgmiLinkConfig::Auto),
            _ => None,
        }
    }

    pub fn to_u64(&self) -> (r: Option<u64>)
        ensures
            r == Some(self.spec_to_u64()),
    {
        Some(
            match self {
                DfXgmiLinkConfig::_2links_connected => 0x0,
                DfXgmiLinkConfig::_3links_connected => 0x1,
                DfXgmiLinkConfig::_4links_connected => 0x2,
                DfXgmiLinkConfig::Auto => 0x3,
            },
        )
    }
}

/// Every value of DfXgmiLinkConfig is read back from its own number, and every number that is
/// read as a value is that value's number.
pub proof fn lemma_df_xgmi_link_config_roundtrip(x: DfXgmiLinkConfig, value: u64)
    ensures
        DfXgmiLinkConfig::spec_from_u64(x.spec_to_u64()) == Some(x),
        DfXgmiLinkConfig::spec_from_u64(value) matches Some(y) ==> y.spec_to_u64() == value,
{
}

#[derive(Debug, PartialEq, Eq, Clone, Copy, Structural)]
pub enum DfPstateModeSelect {
    Normal,
    LimitHighest,
    LimitAll,
    Auto,
}

impl DfPstateModeSelect {
    /// The number that stands for this value.
    pub open spec fn spec_to_u64(self) -> u64 {
        match self {
            DfPstateModeSelect::Normal => 0x0,
            DfPstateModeSelect::LimitHighest => 0x1,
            DfPstateModeSelect::LimitAll => 0x2,
            DfPstateModeSelect::Auto => 0xff,
        }
    }

    /// The value that VALUE stands for, if any.
    pub open spec fn spec_from_u64(value: u64) -> Option<DfPstateModeSelect> {
        match value {
            0x0 => Some(DfPstateModeSelect::Normal),
            0x1 => Some(DfPstateModeSelect::LimitHighest),
            0x2 => Some(DfPstateModeSelect::LimitAll),
            0xff => Some(DfPstateModeSelect::Auto),
            _ => None,
        }
    }

    pub fn from_u64(value: u64) -> (r: Option<DfPstateModeSelect>)
        ensures
            r == DfPstateModeSelect::spec_from_u64(value),
    {
        match value {
            0x0 => Some(DfPstateModeSelect::Normal),
            0x1 => Some(DfPstateModeSelect::LimitHighest),
            0x2 => Some(DfPstateModeSelect::LimitAll),
            0xff => Some(DfPstateModeSelect::Auto),
            _ => None,
        }
    }

    pub fn to_u64(&self) -> (r: Option<u64>)
        ensures
            r == Some(self.spec_to_u64()),
    {
        Some(
            match self {
                DfPstateModeSelect::Normal => 0x0,
                DfPstateModeSelect::LimitHighest => 0x1,
                DfPstateModeSelect::LimitAll => 0x2,
                DfPstateModeSelect::Auto => 0xff,
            },
        )
    }
}

/// Every value of DfPstateModeSelect is read back from its own number, and every number that is
/// read as a value is that value's number.
pub proof fn lemma_df_pstate_mode_select_roundtrip(x: DfPstateModeSelect, value: u64)
    ensures
        DfPstateModeSelect::spec_from_u64(x.spec_to_u64()) == Some(x),
        DfPstateModeSelect::spec_from_u64(value) matches Some(y) ==> y.spec_to_u64() == value,
{
}

#[derive(Debug, PartialEq, Eq, Clone, Copy, Structural)]
pub enum DfPfOrganization {
    Dedicated,
    Shared,
    Auto,
}

impl DfPfOrganization {
    /// The number that stands for this value.
    pub open spec fn spec_to_u64(self) -> u64 {
        match self {
            DfPfOrganization::Dedicated => 0x0,
            DfPfOrganization::Shared => 0x2,
            DfPfOrganization::Auto => 0xff,
        }
    }

    /// The value that VALUE stands for, if any.
    pub open spec fn spec_from_u64(value: u64) -> Option<DfPfOrganization> {
        match value {
            0x0 => Some(DfPfOrganization::Dedicated),
            0x2 => Some(DfPfOrganization::Shared),
            0xff => Some(DfPfOrganization::Auto),
            _ => None,
        }
    }

    pub fn from_u64(value: u64) -> (r: Option<DfPfOrganization>)
        ensures
            r == DfPfOrganization::spec_from_u64(value),
    {
        match value {
            0x0 => Some(DfPfOrganization::Dedicated),
            0x2 => Some(DfPfOrganization::Shared),
            0xff => Some(DfPfOrganization::Auto),
            _ => None,
        }
    }

    pub fn to_u64(&self) -> (r: Option<u64>)
        ensures
            r == Some(self.spec_to_u64()),
    {
        Some(
            match self {
                DfPfOrganization::Dedicated => 0x0,
                DfPfOrganization::Shared => 0x2,
                DfPfOrganization::Auto => 0xff,
            },
        )
    }
}

/// Every value of DfPfOrganization is read back from its own number, and every number that is
/// read as a value is that value's number.
pub proof fn lemma_df_pf_organization_roundtrip(x: DfPfOrganization, value: u64)
    ensures
        DfPfOrganization::spec_from_u64(x.spec_to_u64()) == Some(x),
        DfPfOrganization::spec_from_u64(value) matches Some(y) ==> y.spec_to_u64() == value,
{
}

#[derive(Debug, PartialEq, Eq, Clone, Copy, Structural)]
pub enum GnbSmuDfPstateFclkLimit {
    _1600MHz,
    _1467MHz,
    _1333MHz,
    _1200MHz,
    _1067MHz,
    _933MHz,
    _800MHz,
    Auto,
}

impl GnbSmuDfPstateFclkLimit {
    /// The number that stands for this value.
    pub open spec fn spec_to_u64(self) -> u64 {
        match self {
            GnbSmuDfPstateFclkLimit::_1600MHz => 0x0,
            GnbSmuDfPstateFclkLimit::_1467MHz => 0x1,
            GnbSmuDfPstateFclkLimit::_1333MHz => 0x2,
            GnbSmuDfPstateFclkLimit::_1200MHz => 0x3,
            GnbSmuDfPstateFclkLimit::_1067MHz => 0x4,
            GnbSmuDfPstateFclkLimit::_933MHz => 0x5,
            GnbSmuDfPstateFclkLimit::_800MHz => 0x6,
            GnbSmuDfPstateFclkLimit::Auto => 0xff,
        }
    }

    /// The value that VALUE stands for, if any.
    pub open spec fn spec_from_u64(value: u64) -> Option<GnbSmuDfPstateFclkLimit> {
        match value {
            0x0 => Some(GnbSmuDfPstateFclkLimit::_1600MHz),
            0x1 => Some(GnbSmuDfPstateFclkLimit::_1467MHz),
            0x2 => Some(GnbSmuDfPstateFclkLimit::_1333MHz),
            0x3 => Some(GnbSmuDfPstateFclkLimit::_1200MHz),
            0x4 => Some(GnbSmuDfPstateFclkLimit::_1067MHz),
            0x5 => Some(GnbSmuDfPstateFclkLimit::_933MHz),
            0x6 => Some(GnbSmuDfPstateFclkLimit::_800MHz),
            0xff => Some(GnbSmuDfPstateFclkLimit::Auto),
            _ => None,
        }
    }

    pub fn from_u64(value: u64) -> (r: Option<GnbSmuDfPstateFclkLimit>)
        ensures
            r == GnbSmuDfPstateFclkLimit::spec_from_u64(value),
    {
        match value {
            0x0 => Some(GnbSmuDfPstateFclkLimit::_1600MHz),
            0x1 => Some(GnbSmuDfPstateFclkLimit::_1467MHz),
            0x2 => Some(GnbSmuDfPstateFclkLimit::_1333MHz),
            0x3 => Some(GnbSmuDfPstateFclkLimit::_1200MHz),
            0x4 => Some(GnbSmuDfPstateFclkLimit::_1067MHz),
            0x5 => Some(GnbSmuDfPstateFclkLimit::_933MHz),
            0x6 => Some(GnbSmuDfPstateFclkLimit::_800MHz),
            0xff => Some(GnbSmuDfPstateFclkLimit::Auto),
            _ => None,
        }
    }

    pub fn to_u64(&self) -> (r: Option<u64>)
        ensures
            r == Some(self.spec_to_u64()),
    {
        Some(
            match self {
                GnbSmuDfPstateFclkLimit::_1600MHz => 0x0,
                GnbSmuDfPstateFclkLimit::_1467MHz => 0x1,
                GnbSmuDfPstateFclkLimit::_1333MHz => 0x2,
                GnbSmuDfPstateFclkLimit::_1200MHz => 0x3,
                GnbSmuDfPstateFclkLimit::_1067MHz => 0x4,
                GnbSmuDfPstateFclkLimit::_933MHz => 0x5,
                GnbSmuDfPstateFclkLimit::_800MHz => 0x6,
                GnbSmuDfPstateFclkLimit::Auto => 0xff,
            },
        )
    }
}

/// Every value of GnbSmuDfPstateFclkLimit is read back from its own number, and every number that is
/// read as a value is that value's number.
pub proof fn lemma_gnb_smu_df_pstate_fclk_limit_roundtrip(x: GnbSmuDfPstateFclkLimit, value: u64)
    ensures
        GnbSmuDfPstateFclkLimit::spec_from_u64(x.spec_to_u64()) == Some(x),
        GnbSmuDfPstateFclkLimit::spec_from_u64(value) matches Some(y) ==> y.spec_to_u64() == value,
{
}

impl GnbSmuDfPstateFclkLimit {
    /// What the name of this value says: the frequency, in MHz (0 for the values that do not name one).
    pub open spec fn spec_mhz(self) -> int {
        match self {
            GnbSmuDfPstateFclkLimit::_1600MHz => 1600,
            GnbSmuDfPstateFclkLimit::_1467MHz => 1467,
            GnbSmuDfPstateFclkLimit::_1333MHz => 1333,
            GnbSmuDfPstateFclkLimit::_1200MHz => 1200,
            GnbSmuDfPstateFclkLimit::_1067MHz => 1067,
            GnbSmuDfPstateFclkLimit::_933MHz => 933,
            GnbSmuDfPstateFclkLimit::_800MHz => 800,
            GnbSmuDfPstateFclkLimit::Auto => 0,
        }
    }
}

/// The numbers of the values follow what their names say: of two values that name one,
/// the one with the larger named quantity has the smaller number; each other value has a number of its own.
pub proof fn lemma_gnb_smu_df_pstate_fclk_limit_numbers_follow_names(x: GnbSmuDfPstateFclkLimit, y: GnbSmuDfPstateFclkLimit)
    ensures
        (x != GnbSmuDfPstateFclkLimit::Auto && y != GnbSmuDfPstateFclkLimit::Auto) ==> (x.spec_mhz() < y.spec_mhz() <==> x.spec_to_u64() > y.spec_to_u64()),
        x == GnbSmuDfPstateFclkLimit::Auto <==> x.spec_to_u64() == 255,
{
}

#[derive(Debug, PartialEq, Eq, Clone, Copy, Structural)]
pub enum AdditionalPcieLinkSpeed {
    Keep,
    Gen1,
    Gen2,
    Gen3,
}

impl AdditionalPcieLinkSpeed {
    /// The number that stands for this value.
    pub open spec fn spec_to_u64(self) -> u64 {
        match self {
            AdditionalPcieLinkSpeed::Keep => 0x0,
            AdditionalPcieLinkSpeed::Gen1 => 0x1,
            AdditionalPcieLinkSpeed::Gen2 => 0x2,
            AdditionalPcieLinkSpeed::Gen3 => 0x3,
        }
    }

    /// The value that VALUE stands for, if any.
    pub open spec fn spec_from_u64(value: u64) -> Option<AdditionalPcieLinkSpeed> {
        match value {
            0x0 => Some(AdditionalPcieLinkSpeed::Keep),
            0x1 => Some(AdditionalPcieLinkSpeed::Gen1),
            0x2 => Some(AdditionalPcieLinkSpeed::Gen2),
            0x3 => Some(AdditionalPcieLinkSpeed::Gen3),
            _ => None,
        }
    }

    pub fn from_u64(value: u64) -> (r: Option<AdditionalPcieLinkSpeed>)
        ensures
            r == AdditionalPcieLinkSpeed::spec_from_u64(value),
    {
        match value {
            0x0 => Some(AdditionalPcieLinkSpeed::Keep),
            0x1 => Some(AdditionalPcieLinkSpeed::Gen1),
            0x2 => Some(AdditionalPcieLinkSpeed::Gen2),
            0x3 => Some(AdditionalPcieLinkSpeed::Gen3),
            _ => None,
        }
    }

    pub fn to_u64(&self) -> (r: Option<u64>)
        ensures
            r == Some(self.spec_to_u64()),
    {
        Some(
            match self {
                AdditionalPcieLinkSpeed::Keep => 0x0,
                AdditionalPcieLinkSpeed::Gen1 => 0x1,
                AdditionalPcieLinkSpeed::Gen2 => 0x2,
                AdditionalPcieLinkSpeed::Gen3 => 0x3,
            },
        )
    }
}

/// Every value of AdditionalPcieLinkSpeed is read back from its own number, and every number that is
/// read as a value is that value's number.
pub proof fn lemma_additional_pcie_link_speed_roundtrip(x: AdditionalPcieLinkSpeed, value: u64)
    ensures
        AdditionalPcieLinkSpeed::spec_from_u64(x.spec_to_u64()) == Some(x),
        AdditionalPcieLinkSpeed::spec_from_u64(value) matches Some(y) ==> y.spec_to_u64() == value,
{
}

impl AdditionalPcieLinkSpeed {
    /// What the name of this value says: the PCIe generation (0 for the values that do not name one).
    pub open spec fn spec_generation(self) -> int {
        match self {
            AdditionalPcieLinkSpeed::Gen1 => 1,
            AdditionalPcieLinkSpeed::Gen2 => 2,
            AdditionalPcieLinkSpeed::Gen3 => 3,
            AdditionalPcieLinkSpeed::Keep => 0,
        }
    }
}

/// The number of each value follows from what its name says: 1 times the number is
/// 1 times the named quantity plus 0 for the values that name one; each other value has a number of its own.
pub proof fn lemma_additional_pcie_link_speed_numbers_follow_names(x: AdditionalPcieLinkSpeed)
    ensures
        (x != AdditionalPcieLinkSpeed::Keep) ==> x.spec_to_u64() == x.spec_generation(),
        x == AdditionalPcieLinkSpeed::Keep <==> x.spec_to_u64() == 0,
{
}

#[derive(Debug, PartialEq, Eq, Clone, Copy, Structural)]
pub enum BmcLinkSpeed {
    PcieMax,
    PcieGen1,
    PcieGen2,
    PcieGen3,
    Auto,
}

impl BmcLinkSpeed {
    /// The number that stands for this value.
    pub open spec fn spec_to_u64(self) -> u64 {
        match self {
            BmcLinkSpeed::PcieMax => 0x0,
            BmcLinkSpeed::PcieGen1 => 0x1,
            BmcLinkSpeed::PcieGen2 => 0x2,
            BmcLinkSpeed::PcieGen3 => 0x3,
            BmcLinkSpeed::Auto => 0xff,
        }
    }

    /// The value that VALUE stands for, if any.
    pub open spec fn spec_from_u64(value: u64) -> Option<BmcLinkSpeed> {
        match value {
            0x0 => Some(BmcLinkSpeed::PcieMax),
            0x1 => Some(BmcLinkSpeed::PcieGen1),
            0x2 => Some(BmcLinkSpeed::PcieGen2),
            0x3 => Some(BmcLinkSpeed::PcieGen3),
            0xff => Some(BmcLinkSpeed::Auto),
            _ => None,
        }
    }

    pub fn from_u64(value: u64) -> (r: Option<BmcLinkSpeed>)
        ensures
            r == BmcLinkSpeed::spec_from_u64(value),
    {
        match value {
            0x0 => Some(BmcLinkSpeed::PcieMax),
            0x1 => Some(BmcLinkSpeed::PcieGen1),
            0x2 => Some(BmcLinkSpeed::PcieGen2),
            0x3 => Some(BmcLinkSpeed::PcieGen3),
            0xff => Some(BmcLinkSpeed::Auto),
            _ => None,
        }
    }

    pub fn to_u64(&self) -> (r: Option<u64>)
        ensures
            r == Some(self.spec_to_u64()),
    {
        Some(
            match self {
                BmcLinkSpeed::PcieMax => 0x0,
                BmcLinkSpeed::PcieGen1 => 0x1,
                BmcLinkSpeed::PcieGen2 => 0x2,
                BmcLinkSpeed::PcieGen3 => 0x3,
                BmcLinkSpeed::Auto => 0xff,
            },
        )
    }
}

/// Every value of BmcLinkSpeed is read back from its own number, and every number that is
/// read as a value is that value's number.
pub proof fn lemma_bmc_link_speed_roundtrip(x: BmcLinkSpeed, value: u64)
    ensures
        BmcLinkSpeed::spec_from_u64(x.spec_to_u64()) == Some(x),
        BmcLinkSpeed::spec_from_u64(value) matches Some(y) ==> y.spec_to_u64() == value,
{
}

impl BmcLinkSpeed {
    /// What the name of this value says: the PCIe generation (0 for the values that do not name one).
    pub open spec fn spec_generation(self) -> int {
        match self {
            BmcLinkSpeed::PcieGen1 => 1,
            BmcLinkSpeed::PcieGen2 => 2,
            BmcLinkSpeed::PcieGen3 => 3,
            BmcLinkSpeed::PcieMax => 0,
            BmcLinkSpeed::Auto => 0,
        }
    }
}

/// The number of each value follows from what its name says: 1 times the number is
/// 1 times the named quantity plus 0 for the values that name one; each other value has a number of its own.
pub proof fn lemma_bmc_link_speed_numbers_follow_names(x: BmcLinkSpeed)
    ensures
        (x != BmcLinkSpeed::PcieMax && x != BmcLinkSpeed::Auto) ==> x.spec_to_u64() == x.spec_generation(),
        x == BmcLinkSpeed::PcieMax <==> x.spec_to_u64() == 0,
        x == BmcLinkSpeed::Auto <==> x.spec_to_u64() == 255,
{
}

#[derive(Debug, PartialEq, Eq, Clone, Copy, Structural)]
pub enum SecondPcieLinkMaxPayload {
    _128_Byte,
    _256_Byte,
    _512_Byte,
    _1024_Byte,
    _2048_Byte,
    _4096_Byte,
    HardwareDefault,
}

impl SecondPcieLinkMaxPayload {
    /// The number that stands for this value.
    pub open spec fn spec_to_u64(self) -> u64 {
        match self {
            SecondPcieLinkMaxPayload::_128_Byte => 0x0,
            SecondPcieLinkMaxPayload::_256_Byte => 0x1,
            SecondPcieLinkMaxPayload::_512_Byte => 0x2,
            SecondPcieLinkMaxPayload::_1024_Byte => 0x3,
            SecondPcieLinkMaxPayload::_2048_Byte => 0x4,
            SecondPcieLinkMaxPayload::_4096_Byte => 0x5,
            SecondPcieLinkMaxPayload::HardwareDefault => 0xff,
        }
    }

    /// The value that VALUE stands for, if any.
    pub open spec fn spec_from_u64(value: u64) -> Option<SecondPcieLinkMaxPayload> {
        match value {
            0x0 => Some(SecondPcieLinkMaxPayload::_128_Byte),
            0x1 => Some(SecondPcieLinkMaxPayload::_256_Byte),
            0x2 => Some(SecondPcieLinkMaxPayload::_512_Byte),
            0x3 => Some(SecondPcieLinkMaxPayload::_1024_Byte),
            0x4 => Some(SecondPcieLinkMaxPayload::_2048_Byte),
            0x5 => Some(SecondPcieLinkMaxPayload::_4096_Byte),
            0xff => Some(SecondPcieLinkMaxPayload::HardwareDefault),
            _ => None,
        }
    }

    pub fn from_u64(value: u64) -> (r: Option<SecondPcieLinkMaxPayload>)
        ensures
            r == SecondPcieLinkMaxPayload::spec_from_u64(value),
    {
        match value {
            0x0 => Some(SecondPcieLinkMaxPayload::_128_Byte),
            0x1 => Some(SecondPcieLinkMaxPayload::_256_Byte),
            0x2 => Some(SecondPcieLinkMaxPayload::_512_Byte),
            0x3 => Some(SecondPcieLinkMaxPayload::_1024_Byte),
            0x4 => Some(SecondPcieLinkMaxPayload::_2048_Byte),
            0x5 => Some(SecondPcieLinkMaxPayload::_4096_Byte),
            0xff => Some(SecondPcieLinkMaxPayload::HardwareDefault),
            _ => None,
        }
    }

    pub fn to_u64(&self) -> (r: Option<u64>)
        ensures
            r == Some(self.spec_to_u64()),
    {
        Some(
            match self {
                SecondPcieLinkMaxPayload::_128_Byte => 0x0,
                SecondPcieLinkMaxPayload::_256_Byte => 0x1,
                SecondPcieLinkMaxPayload::_512_Byte => 0x2,
                SecondPcieLinkMaxPayload::_1024_Byte => 0x3,
                SecondPcieLinkMaxPayload::_2048_Byte => 0x4,
                SecondPcieLinkMaxPayload::_4096_Byte => 0x5,
                SecondPcieLinkMaxPayload::HardwareDefault => 0xff,
            },
        )
    }
}

/// Every value of SecondPcieLinkMaxPayload is read back from its own number, and every number that is
/// read as a value is that value's number.
pub proof fn lemma_second_pcie_link_max_payload_roundtrip(x: SecondPcieLinkMaxPayload, value: u64)
    ensures
        SecondPcieLinkMaxPayload::spec_from_u64(x.spec_to_u64()) == Some(x),
        SecondPcieLinkMaxPayload::spec_from_u64(value) matches Some(y) ==> y.spec_to_u64() == value,
{
}

impl SecondPcieLinkMaxPayload {
    /// What the name of this value says: the size, in bytes (0 for the values that do not name one).
    pub open spec fn spec_size_in_bytes(self) -> int {
        match self {
            SecondPcieLinkMaxPayload::_128_Byte => 128,
            SecondPcieLinkMaxPayload::_256_Byte => 256,
            SecondPcieLinkMaxPayload::_512_Byte => 512,
            SecondPcieLinkMaxPayload::_1024_Byte => 1024,
            SecondPcieLinkMaxPayload::_2048_Byte => 2048,
            SecondPcieLinkMaxPayload::_4096_Byte => 4096,
            SecondPcieLinkMaxPayload::HardwareDefault => 0,
        }
    }
}

/// The numbers of the values follow what their names say: of two values that name one,
/// the one with the larger named quantity has the larger number; each other value has a number of its own.
pub proof fn lemma_second_pcie_link_max_payload_numbers_follow_names(x: SecondPcieLinkMaxPayload, y: SecondPcieLinkMaxPayload)
    ensures
        (x != SecondPcieLinkMaxPayload::HardwareDefault && y != SecondPcieLinkMaxPayload::HardwareDefault) ==> (x.spec_size_in_bytes() < y.spec_size_in_bytes() <==> x.spec_to_u64() < y.spec_to_u64()),
        x == SecondPcieLinkMaxPayload::HardwareDefault <==> x.spec_to_u64() == 255,
{
}

#[derive(Debug, PartialEq, Eq, Clone, Copy, Structural)]
pub enum WorkloadProfile {
    Disabled,
    CpuIntensive,
    JavaThroughput,
    JavaLatency,
    PowerEfficiency,
    MemoryThroughputIntensive,
    StorageIoIntensive,
    NicThroughputIntensive,
    NicLatencySensitive,
    AcceleratorThroughput,
    VmwareVsphereOptimized,
    LinuxKvmOptimized,
    ContainerOptimized,
    RdbmsOptimized,
    BigDataAnalyticsOptimized,
    IotGateway,
    HpcOptimized,
    OpenStackNfv,
    OpenStackForRealTimeKernel,
}

impl WorkloadProfile {
    /// The number that stands for this value.
    pub open spec fn spec_to_u64(self) -> u64 {
        match self {
            WorkloadProfile::Disabled => 0x0,
            WorkloadProfile::CpuIntensive => 0x1,
            WorkloadProfile::JavaThroughput => 0x2,
            WorkloadProfile::JavaLatency => 0x3,
            WorkloadProfile::PowerEfficiency => 0x4,
            WorkloadProfile::MemoryThroughputIntensive => 0x5,
            WorkloadProfile::StorageIoIntensive => 0x6,
            WorkloadProfile::NicThroughputIntensive => 0x7,
            WorkloadProfile::NicLatencySensitive => 0x8,
            WorkloadProfile::AcceleratorThroughput => 0x9,
            WorkloadProfile::VmwareVsphereOptimized => 0xa,
            WorkloadProfile::LinuxKvmOptimized => 0xb,
            WorkloadProfile::ContainerOptimized => 0xc,
            WorkloadProfile::RdbmsOptimized => 0xd,
            WorkloadProfile::BigDataAnalyticsOptimized => 0xe,
            WorkloadProfile::IotGateway => 0xf,
            WorkloadProfile::HpcOptimized => 0x10,
            WorkloadProfile::OpenStackNfv => 0x11,
            WorkloadProfile::OpenStackForRealTimeKernel => 0x12,
        }
    }

    /// The value that VALUE stands for, if any.
    pub open spec fn spec_from_u64(value: u64) -> Option<WorkloadProfile> {
        match value {
            0x0 => Some(WorkloadProfile::Disabled),
            0x1 => Some(WorkloadProfile::CpuIntensive),
            0x2 => Some(WorkloadProfile::JavaThroughput),
            0x3 => Some(WorkloadProfile::JavaLatency),
            0x4 => Some(WorkloadProfile::PowerEfficiency),
            0x5 => Some(WorkloadProfile::MemoryThroughputIntensive),
            0x6 => Some(WorkloadProfile::StorageIoIntensive),
            0x7 => Some(WorkloadProfile::NicThroughputIntensive),
            0x8 => Some(WorkloadProfile::NicLatencySensitive),
            0x9 => Some(WorkloadProfile::AcceleratorThroughput),
            0xa => Some(WorkloadProfile::VmwareVsphereOptimized),
            0xb => Some(WorkloadProfile::LinuxKvmOptimized),
            0xc => Some(WorkloadProfile::ContainerOptimized),
            0xd => Some(WorkloadProfile::RdbmsOptimized),
            0xe => Some(WorkloadProfile::BigDataAnalyticsOptimized),
            0xf => Some(WorkloadProfile::IotGateway),
            0x10 => Some(WorkloadProfile::HpcOptimized),
            0x11 => Some(WorkloadProfile::OpenStackNfv),
            0x12 => Some(WorkloadProfile::OpenStackForRealTimeKernel),
            _ => None,
        }
    }

    pub fn from_u64(value: u64) -> (r: Option<WorkloadProfile>)
        ensures
            r == WorkloadProfile::spec_from_u64(value),
    {
        match value {
            0x0 => Some(WorkloadProfile::Disabled),
            0x1 => Some(WorkloadProfile::CpuIntensive),
            0x2 => Some(WorkloadProfile::JavaThroughput),
            0x3 => Some(WorkloadProfile::JavaLatency),
            0x4 => Some(WorkloadProfile::PowerEfficiency),
            0x5 => Some(WorkloadProfile::MemoryThroughputIntensive),
            0x6 => Some(WorkloadProfile::StorageIoIntensive),
            0x7 => Some(WorkloadProfile::NicThroughputIntensive),
            0x8 => Some(WorkloadProfile::NicLatencySensitive),
            0x9 => Some(WorkloadProfile::AcceleratorThroughput),
            0xa => Some(WorkloadProfile::VmwareVsphereOptimized),
            0xb => Some(WorkloadProfile::LinuxKvmOptimized),
            0xc => Some(WorkloadProfile::ContainerOptimized),
            0xd => Some(WorkloadProfile::RdbmsOptimized),
            0xe => Some(WorkloadProfile::BigDataAnalyticsOptimized),
            0xf => Some(WorkloadProfile::IotGateway),
            0x10 => Some(WorkloadProfile::HpcOptimized),
            0x11 => Some(WorkloadProfile::OpenStackNfv),
            0x12 => Some(WorkloadProfile::OpenStackForRealTimeKernel),
            _ => None,
        }
    }

    pub fn to_u64(&self) -> (r: Option<u64>)
        ensures
            r == Some(self.spec_to_u64()),
    {
        Some(
            match self {
                WorkloadProfile::Disabled => 0x0,
                WorkloadProfile::CpuIntensive => 0x1,
                WorkloadProfile::JavaThroughput => 0x2,
                WorkloadProfile::JavaLatency => 0x3,
                WorkloadProfile::PowerEfficiency => 0x4,
                WorkloadProfile::MemoryThroughputIntensive => 0x5,
                WorkloadProfile::StorageIoIntensive => 0x6,
                WorkloadProfile::NicThroughputIntensive => 0x7,
                WorkloadProfile::NicLatencySensitive => 0x8,
                WorkloadProfile::AcceleratorThroughput => 0x9,
                WorkloadProfile::VmwareVsphereOptimized => 0xa,
                WorkloadProfile::LinuxKvmOptimized => 0xb,
                WorkloadProfile::ContainerOptimized => 0xc,
                WorkloadProfile::RdbmsOptimized => 0xd,
                WorkloadProfile::BigDataAnalyticsOptimized => 0xe,
                WorkloadProfile::IotGateway => 0xf,
                WorkloadProfile::HpcOptimized => 0x10,
                WorkloadProfile::OpenStackNfv => 0x11,
                WorkloadProfile::OpenStackForRealTimeKernel => 0x12,
            },
        )
    }
}

/// Every value of WorkloadProfile is read back from its own number, and every number that is
/// read as a value is that value's number.
pub proof fn lemma_workload_profile_roundtrip(x: WorkloadProfile, value: u64)
    ensures
        WorkloadProfile::spec_from_u64(x.spec_to_u64()) == Some(x),
        WorkloadProfile::spec_from_u64(value) matches Some(y) ==> y.spec_to_u64() == value,
{
}

#[derive(Debug, PartialEq, Eq, Clone, Copy, Structural)]
pub enum MemControllerPmuTrainFfeDdr4 {
    Disabled,
    Enabled,
    Auto,
}

impl MemControllerPmuTrainFfeDdr4 {
    /// The number that stands for this value.
    pub open spec fn spec_to_u64(self) -> u64 {
        match self {
            MemControllerPmuTrainFfeDdr4::Disabled => 0x0,
            MemControllerPmuTrainFfeDdr4::Enabled => 0x1,
            MemControllerPmuTrainFfeDdr4::Auto => 0xff,
        }
    }

    /// The value that VALUE stands for, if any.
    pub open spec fn spec_from_u64(value: u64) -> Option<MemControllerPmuTrainFfeDdr4> {
        match value {
            0x0 => Some(MemControllerPmuTrainFfeDdr4::Disabled),
            0x1 => Some(MemControllerPmuTrainFfeDdr4::Enabled),
            0xff => Some(MemControllerPmuTrainFfeDdr4::Auto),
            _ => None,
        }
    }

    pub fn from_u64(value: u64) -> (r: Option<MemControllerPmuTrainFfeDdr4>)
        ensures
            r == MemControllerPmuTrainFfeDdr4::spec_from_u64(value),
    {
        match value {
            0x0 => Some(MemControllerPmuTrainFfeDdr4::Disabled),
            0x1 => Some(MemControllerPmuTrainFfeDdr4::Enabled),
            0xff => Some(MemControllerPmuTrainFfeDdr4::Auto),
            _ => None,
        }
    }

    pub fn to_u64(&self) -> (r: Option<u64>)
        ensures
            r == Some(self.spec_to_u64()),
    {
        Some(
            match self {
                MemControllerPmuTrainFfeDdr4::Disabled => 0x0,
                MemControllerPmuTrainFfeDdr4::Enabled => 0x1,
                MemControllerPmuTrainFfeDdr4::Auto => 0xff,
            },
        )
    }
}

/// Every value of MemControllerPmuTrainFfeDdr4 is read back from its own number, and every number that is
/// read as a value is that value's number.
pub proof fn lemma_mem_controller_pmu_train_ffe_ddr4_roundtrip(x: MemControllerPmuTrainFfeDdr4, value: u64)
    ensures
        MemControllerPmuTrainFfeDdr4::spec_from_u64(x.spec_to_u64()) == Some(x),
        MemControllerPmuTrainFfeDdr4::spec_from_u64(value) matches Some(y) ==> y.spec_to_u64() == value,
{
}

#[derive(Debug, PartialEq, Eq, Clone, Copy, Structural)]
pub enum MemControllerPmuTrainDfeDdr4 {
    Disabled,
    Enabled,
    Auto,
}

impl MemControllerPmuTrainDfeDdr4 {
    /// The number that stands for this value.
    pub open spec fn spec_to_u64(self) -> u64 {
        match self {
            MemControllerPmuTrainDfeDdr4::Disabled => 0x0,
            MemControllerPmuTrainDfeDdr4::Enabled => 0x1,
            MemControllerPmuTrainDfeDdr4::Auto => 0xff,
        }
    }

    /// The value that VALUE stands for, if any.
    pub open spec fn spec_from_u64(value: u64) -> Option<MemControllerPmuTrainDfeDdr4> {
        match value {
            0x0 => Some(MemControllerPmuTrainDfeDdr4::Disabled),
            0x1 => Some(MemControllerPmuTrainDfeDdr4::Enabled),
            0xff => Some(MemControllerPmuTrainDfeDdr4::Auto),
            _ => None,
        }
    }

    pub fn from_u64(value: u64) -> (r: Option<MemControllerPmuTrainDfeDdr4>)
        ensures
            r == MemControllerPmuTrainDfeDdr4::spec_from_u64(value),
    {
        match value {
            0x0 => Some(MemControllerPmuTrainDfeDdr4::Disabled),
            0x1 => Some(MemControllerPmuTrainDfeDdr4::Enabled),
            0xff => Some(MemControllerPmuTrainDfeDdr4::Auto),
            _ => None,
        }
    }

    pub fn to_u64(&self) -> (r: Option<u64>)
        ensures
            r == Some(self.spec_to_u64()),
    {
        Some(
            match self {
                MemControllerPmuTrainDfeDdr4::Disabled => 0x0,
                MemControllerPmuTrainDfeDdr4::Enabled => 0x1,
                MemControllerPmuTrainDfeDdr4::Auto => 0xff,
            },
        )
    }
}

/// Every value of MemControllerPmuTrainDfeDdr4 is read back from its own number, and every number that is
/// read as a value is that value's number.
pub proof fn lemma_mem_controller_pmu_train_dfe_ddr4_roundtrip(x: MemControllerPmuTrainDfeDdr4, value: u64)
    ensures
        MemControllerPmuTrainDfeDdr4::spec_from_u64(x.spec_to_u64()) == Some(x),
        MemControllerPmuTrainDfeDdr4::spec_from_u64(value) matches Some(y) ==> y.spec_to_u64() == value,
{
}

#[derive(Debug, PartialEq, Eq, Clone, Copy, Structural)]
pub enum MemControllerPmuTrainingMode {
    _1D,
    _1D_2D_Read_Only,
    _1D_2D_Write_Only,
    _1D_2D,
    Auto,
}

impl MemControllerPmuTrainingMode {
    /// The number that stands for this value.
    pub open spec fn spec_to_u64(self) -> u64 {
        match self {
            MemControllerPmuTrainingMode::_1D => 0x0,
            MemControllerPmuTrainingMode::_1D_2D_Read_Only => 0x1,
            MemControllerPmuTrainingMode::_1D_2D_Write_Only => 0x2,
            MemControllerPmuTrainingMode::_1D_2D => 0x3,
            MemControllerPmuTrainingMode::Auto => 0xff,
        }
    }

    /// The value that VALUE stands for, if any.
    pub open spec fn spec_from_u64(value: u64) -> Option<MemControllerPmuTrainingMode> {
        match value {
            0x0 => Some(MemControllerPmuTrainingMode::_1D),
            0x1 => Some(MemControllerPmuTrainingMode::_1D_2D_Read_Only),
            0x2 => Some(MemControllerPmuTrainingMode::_1D_2D_Write_Only),
            0x3 => Some(MemControllerPmuTrainingMode::_1D_2D),
            0xff => Some(MemControllerPmuTrainingMode::Auto),
            _ => None,
        }
    }

    pub fn from_u64(value: u64) -> (r: Option<MemControllerPmuTrainingMode>)
        ensures
            r == MemControllerPmuTrainingMode::spec_from_u64(value),
    {
        match value {
            0x0 => Some(MemControllerPmuTrainingMode::_1D),
            0x1 => Some(MemControllerPmuTrainingMode::_1D_2D_Read_Only),
            0x2 => Some(MemControllerPmuTrainingMode::_1D_2D_Write_Only),
            0x3 => Some(MemControllerPmuTrainingMode::_1D_2D),
            0xff => Some(MemControllerPmuTrainingMode::Auto),
            _ => None,
        }
    }

    pub fn to_u64(&self) -> (r: Option<u64>)
        ensures
            r == Some(self.spec_to_u64()),
    {
        Some(
            match self {
                MemControllerPmuTrainingMode::_1D => 0x0,
                MemControllerPmuTrainingMode::_1D_2D_Read_Only => 0x1,
                MemControllerPmuTrainingMode::_1D_2D_Write_Only => 0x2,
                MemControllerPmuTrainingMode::_1D_2D => 0x3,
                MemControllerPmuTrainingMode::Auto => 0xff,
            },
        )
    }
}

/// Every value of MemControllerPmuTrainingMode is read back from its own number, and every number that is
/// read as a value is that value's number.
pub proof fn lemma_mem_controller_pmu_training_mode_roundtrip(x: MemControllerPmuTrainingMode, value: u64)
    ensures
        MemControllerPmuTrainingMode::spec_from_u64(x.spec_to_u64()) == Some(x),
        MemControllerPmuTrainingMode::spec_from_u64(value) matches Some(y) ==> y.spec_to_u64() == value,
{
}

#[derive(Debug, PartialEq, Eq, Clone, Copy, Structural)]
pub enum UmaMode {
    NoUma,
    Specified,
    Auto,
}

impl UmaMode {
    /// The number that stands for this value.
    pub open spec fn spec_to_u64(self) -> u64 {
        match self {
            UmaMode::NoUma => 0x0,
            UmaMode::Specified => 0x1,
            UmaMode::Auto => 0x2,
        }
    }

    /// The value that VALUE stands for, if any.
    pub open spec fn spec_from_u64(value: u64) -> Option<UmaMode> {
        match value {
            0x0 => Some(UmaMode::NoUma),
            0x1 => Some(UmaMode::Specified),
            0x2 => Some(UmaMode::Auto),
            _ => None,
        }
    }

    pub fn from_u64(value: u64) -> (r: Option<UmaMode>)
        ensures
            r == UmaMode::spec_from_u64(value),
    {
        match value {
            0x0 => Some(UmaMode::NoUma),
            0x1 => Some(UmaMode::Specified),
            0x2 => Some(UmaMode::Auto),
            _ => None,
        }
    }

    pub fn to_u64(&self) -> (r: Option<u64>)
        ensures
            r == Some(self.spec_to_u64()),
    {
        Some(
            match self {
                UmaMode::NoUma => 0x0,
                UmaMode::Specified => 0x1,
                UmaMode::Auto => 0x2,
            },
        )
    }
}

/// Every value of UmaMode is read back from its own number, and every number that is
/// read as a value is that value's number.
pub proof fn lemma_uma_mode_roundtrip(x: UmaMode, value: u64)
    ensures
        UmaMode::spec_from_u64(x.spec_to_u64()) == Some(x),
        UmaMode::spec_from_u64(value) matches Some(y) ==> y.spec_to_u64() == value,
{
}

#[derive(Debug, PartialEq, Eq, Clone, Copy, Structural)]
pub enum MemMbistTest {
    Disabled,
    Enabled,
}

impl MemMbistTest {
    /// The number that stands for this value.
    pub open spec fn spec_to_u64(self) -> u64 {
        match self {
            MemMbistTest::Disabled => 0x0,
            MemMbistTest::Enabled => 0x1,
        }
    }

    /// The value that VALUE stands for, if any.
    pub open spec fn spec_from_u64(value: u64) -> Option<MemMbistTest> {
        match value {
            0x0 => Some(MemMbistTest::Disabled),
            0x1 => Some(MemMbistTest::Enabled),
            _ => None,
        }
    }

    pub fn from_u64(value: u64) -> (r: Option<MemMbistTest>)
        ensures
            r == MemMbistTest::spec_from_u64(value),
    {
        match value {
            0x0 => Some(MemMbistTest::Disabled),
            0x1 => Some(MemMbistTest::Enabled),
            _ => None,
        }
    }

    pub fn to_u64(&self) -> (r: Option<u64>)
        ensures
            r == Some(self.spec_to_u64()),
    {
        Some(
            match self {
                MemMbistTest::Disabled => 0x0,
                MemMbistTest::Enabled => 0x1,
            },
        )
    }
}

/// Every value of MemMbistTest is read back from its own number, and every number that is
/// read as a value is that value's number.
pub proof fn lemma_mem_mbist_test_roundtrip(x: MemMbistTest, value: u64)
    ensures
        MemMbistTest::spec_from_u64(x.spec_to_u64()) == Some(x),
        MemMbistTest::spec_from_u64(value) matches Some(y) ==> y.spec_to_u64() == value,
{
}

#[derive(Debug, PartialEq, Eq, Clone, Copy, Structural)]
pub enum MemMbistPatternSelect {
    Prbs,
    Sso,
    Both,
    Auto,
}

impl MemMbistPatternSelect {
    /// The number that stands for this value.
    pub open spec fn spec_to_u64(self) -> u64 {
        match self {
            MemMbistPatternSelect::Prbs => 0x0,
            MemMbistPatternSelect::Sso => 0x1,
            MemMbistPatternSelect::Both => 0x2,
            MemMbistPatternSelect::Auto => 0xff,
        }
    }

    /// The value that VALUE stands for, if any.
    pub open spec fn spec_from_u64(value: u64) -> Option<MemMbistPatternSelect> {
        match value {
            0x0 => Some(MemMbistPatternSelect::Prbs),
            0x1 => Some(MemMbistPatternSelect::Sso),
            0x2 => Some(MemMbistPatternSelect::Both),
            0xff => Some(MemMbistPatternSelect::Auto),
            _ => None,
        }
    }

    pub fn from_u64(value: u64) -> (r: Option<MemMbistPatternSelect>)
        ensures
            r == MemMbistPatternSelect::spec_from_u64(value),
    {
        match value {
            0x0 => Some(MemMbistPatternSelect::Prbs),
            0x1 => Some(MemMbistPatternSelect::Sso),
            0x2 => Some(MemMbistPatternSelect::Both),
            0xff => Some(MemMbistPatternSelect::Auto),
            _ => None,
        }
    }

    pub fn to_u64(&self) -> (r: Option<u64>)
        ensures
            r == Some(self.spec_to_u64()),
    {
        Some(
            match self {
                MemMbistPatternSelect::Prbs => 0x0,
                MemMbistPatternSelect::Sso => 0x1,
                MemMbistPatternSelect::Both => 0x2,
                MemMbistPatternSelect::Auto => 0xff,
            },
        )
    }
}

/// Every value of MemMbistPatternSelect is read back from its own number, and every number that is
/// read as a value is that value's number.
pub proof fn lemma_mem_mbist_pattern_select_roundtrip(x: MemMbistPatternSelect, value: u64)
    ensures
        MemMbistPatternSelect::spec_from_u64(x.spec_to_u64()) == Some(x),
        MemMbistPatternSelect::spec_from_u64(value) matches Some(y) ==> y.spec_to_u64() == value,
{
}

#[derive(Debug, PartialEq, Eq, Clone, Copy, Structural)]
pub enum MemMbistAggressorsChannels {
    Disabled,
    _1AggressorsPer2Channels,
    _3AggressorsPer4Channels,
    _7AggressorsPer8Channels,
}

impl MemMbistAggressorsChannels {
    /// The number that stands for this value.
    pub open spec fn spec_to_u64(self) -> u64 {
        match self {
            MemMbistAggressorsChannels::Disabled => 0x0,
            MemMbistAggressorsChannels::_1AggressorsPer2Channels => 0x1,
            MemMbistAggressorsChannels::_3AggressorsPer4Channels => 0x3,
            MemMbistAggressorsChannels::_7AggressorsPer8Channels => 0x7,
        }
    }

    /// The value that VALUE stands for, if any.
    pub open spec fn spec_from_u64(value: u64) -> Option<MemMbistAggressorsChannels> {
        match value {
            0x0 => Some(MemMbistAggressorsChannels::Disabled),
            0x1 => Some(MemMbistAggressorsChannels::_1AggressorsPer2Channels),
            0x3 => Some(MemMbistAggressorsChannels::_3AggressorsPer4Channels),
            0x7 => Some(MemMbistAggressorsChannels::_7AggressorsPer8Channels),
            _ => None,
        }
    }

    pub fn from_u64(value: u64) -> (r: Option<MemMbistAggressorsChannels>)
        ensures
            r == MemMbistAggressorsChannels::spec_from_u64(value),
    {
        match value {
            0x0 => Some(MemMbistAggressorsChannels::Disabled),
            0x1 => Some(MemMbistAggressorsChannels::_1AggressorsPer2Channels),
            0x3 => Some(MemMbistAggressorsChannels::_3AggressorsPer4Channels),
            0x7 => Some(MemMbistAggressorsChannels::_7AggressorsPer8Channels),
            _ => None,
        }
    }

    pub fn to_u64(&self) -> (r: Option<u64>)
        ensures
            r == Some(self.spec_to_u64()),
    {
        Some(
            match self {
                MemMbistAggressorsChannels::Disabled => 0x0,
                MemMbistAggressorsChannels::_1AggressorsPer2Channels => 0x1,
                MemMbistAggressorsChannels::_3AggressorsPer4Channels => 0x3,
                MemMbistAggressorsChannels::_7AggressorsPer8Channels => 0x7,
            },
        )
    }
}

/// Every value of MemMbistAggressorsChannels is read back from its own number, and every number that is
/// read as a value is that value's number.
pub proof fn lemma_mem_mbist_aggressors_channels_roundtrip(x: MemMbistAggressorsChannels, value: u64)
    ensures
        MemMbistAggressorsChannels::spec_from_u64(x.spec_to_u64()) == Some(x),
        MemMbistAggressorsChannels::spec_from_u64(value) matches Some(y) ==> y.spec_to_u64() == value,
{
}

#[derive(Debug, PartialEq, Eq, Clone, Copy, Structural)]
pub enum MemMbistTestMode {
    PhysicalInterface,
    DataEye,
    Both,
    Auto,
}

impl MemMbistTestMode {
    /// The number that stands for this value.
    pub open spec fn spec_to_u64(self) -> u64 {
        match self {
            MemMbistTestMode::PhysicalInterface => 0x0,
            MemMbistTestMode::DataEye => 0x1,
            MemMbistTestMode::Both => 0x2,
            MemMbistTestMode::Auto => 0xff,
        }
    }

    /// The value that VALUE stands for, if any.
    pub open spec fn spec_from_u64(value: u64) -> Option<MemMbistTestMode> {
        match value {
            0x0 => Some(MemMbistTestMode::PhysicalInterface),
            0x1 => Some(MemMbistTestMode::DataEye),
            0x2 => Some(MemMbistTestMode::Both),
            0xff => Some(MemMbistTestMode::Auto),
            _ => None,
        }
    }

    pub fn from_u64(value: u64) -> (r: Option<MemMbistTestMode>)
        ensures
            r == MemMbistTestMode::spec_from_u64(value),
    {
        match value {
            0x0 => Some(MemMbistTestMode::PhysicalInterface),
            0x1 => Some(MemMbistTestMode::DataEye),
            0x2 => Some(MemMbistTestMode::Both),
            0xff => Some(MemMbistTestMode::Auto),
            _ => None,
        }
    }

    pub fn to_u64(&self) -> (r: Option<u64>)
        ensures
            r == Some(self.spec_to_u64()),
    {
        Some(
            match self {
                MemMbistTestMode::PhysicalInterface => 0x0,
                MemMbistTestMode::DataEye => 0x1,
                MemMbistTestMode::Both => 0x2,
                MemMbistTestMode::Auto => 0xff,
            },
        )
    }
}

/// Every value of MemMbistTestMode is read back from its own number, and every number that is
/// read as a value is that value's number.
pub proof fn lemma_mem_mbist_test_mode_roundtrip(x: MemMbistTestMode, value: u64)
    ensures
        MemMbistTestMode::spec_from_u64(x.spec_to_u64()) == Some(x),
        MemMbistTestMode::spec_from_u64(value) matches Some(y) ==> y.spec_to_u64() == value,
{
}

#[derive(Debug, PartialEq, Eq, Clone, Copy, Structural)]
pub enum MemHealingBistRepairTypeDdr {
    Soft,
    Hard,
    NoRepair,
}

impl MemHealingBistRepairTypeDdr {
    /// The number that stands for this value.
    pub open spec fn spec_to_u64(self) -> u64 {
        match self {
            MemHealingBistRepairTypeDdr::Soft => 0x0,
            MemHealingBistRepairTypeDdr::Hard => 0x1,
            MemHealingBistRepairTypeDdr::NoRepair => 0x2,
        }
    }

    /// The value that VALUE stands for, if any.
    pub open spec fn spec_from_u64(value: u64) -> Option<MemHealingBistRepairTypeDdr> {
        match value {
            0x0 => Some(MemHealingBistRepairTypeDdr::Soft),
            0x1 => Some(MemHealingBistRepairTypeDdr::Hard),
            0x2 => Some(MemHealingBistRepairTypeDdr::NoRepair),
            _ => None,
        }
    }

    pub fn from_u64(value: u64) -> (r: Option<MemHealingBistRepairTypeDdr>)
        ensures
            r == MemHealingBistRepairTypeDdr::spec_from_u64(value),
    {
        match value {
            0x0 => Some(MemHealingBistRepairTypeDdr::Soft),
            0x1 => Some(MemHealingBistRepairTypeDdr::Hard),
            0x2 => Some(MemHealingBistRepairTypeDdr::NoRepair),
            _ => None,
        }
    }

    pub fn to_u64(&self) -> (r: Option<u64>)
        ensures
            r == Some(self.spec_to_u64()),
    {
        Some(
            match self {
                MemHealingBistRepairTypeDdr::Soft => 0x0,
                MemHealingBistRepairTypeDdr::Hard => 0x1,
                MemHealingBistRepairTypeDdr::NoRepair => 0x2,
            },
        )
    }
}

/// Every value of MemHealingBistRepairTypeDdr is read back from its own number, and every number that is
/// read as a value is that value's number.
pub proof fn lemma_mem_healing_bist_repair_type_ddr_roundtrip(x: MemHealingBistRepairTypeDdr, value: u64)
    ensures
        MemHealingBistRepairTypeDdr::spec_from_u64(x.spec_to_u64()) == Some(x),
        MemHealingBistRepairTypeDdr::spec_from_u64(value) matches Some(y) ==> y.spec_to_u64() == value,
{
}

#[derive(Debug, PartialEq, Eq, Clone, Copy, Structural)]
pub enum MemMbistDataEyeType {
    _1dVoltage,
    _1dTiming,
    _2dFullDataEye,
    WorstCaseMarginOnly,
}

impl MemMbistDataEyeType {
    /// The number that stands for this value.
    pub open spec fn spec_to_u64(self) -> u64 {
        match self {
            MemMbistDataEyeType::_1dVoltage => 0x0,
            MemMbistDataEyeType::_1dTiming => 0x1,
            MemMbistDataEyeType::_2dFullDataEye => 0x2,
            MemMbistDataEyeType::WorstCaseMarginOnly => 0x3,
        }
    }

    /// The value that VALUE stands for, if any.
    pub open spec fn spec_from_u64(value: u64) -> Option<MemMbistDataEyeType> {
        match value {
            0x0 => Some(MemMbistDataEyeType::_1dVoltage),
            0x1 => Some(MemMbistDataEyeType::_1dTiming),
            0x2 => Some(MemMbistDataEyeType::_2dFullDataEye),
            0x3 => Some(MemMbistDataEyeType::WorstCaseMarginOnly),
            _ => None,
        }
    }

    pub fn from_u64(value: u64) -> (r: Option<MemMbistDataEyeType>)
        ensures
            r == MemMbistDataEyeType::spec_from_u64(value),
    {
        match value {
            0x0 => Some(MemMbistDataEyeType::_1dVoltage),
            0x1 => Some(MemMbistDataEyeType::_1dTiming),
            0x2 => Some(MemMbistDataEyeType::_2dFullDataEye),
            0x3 => Some(MemMbistDataEyeType::WorstCaseMarginOnly),
            _ => None,
        }
    }

    pub fn to_u64(&self) -> (r: Option<u64>)
        ensures
            r == Some(self.spec_to_u64()),
    {
        Some(
            match self {
                MemMbistDataEyeType::_1dVoltage => 0x0,
                MemMbistDataEyeType::_1dTiming => 0x1,
                MemMbistDataEyeType::_2dFullDataEye => 0x2,
                MemMbistDataEyeType::WorstCaseMarginOnly => 0x3,
            },
        )
    }
}

/// Every value of MemMbistDataEyeType is read back from its own number, and every number that is
/// read as a value is that value's number.
pub proof fn lemma_mem_mbist_data_eye_type_roundtrip(x: MemMbistDataEyeType, value: u64)
    ensures
        MemMbistDataEyeType::spec_from_u64(x.spec_to_u64()) == Some(x),
        MemMbistDataEyeType::spec_from_u64(value) matches Some(y) ==> y.spec_to_u64() == value,
{
}

#[derive(Debug, PartialEq, Eq, Clone, Copy, Structural)]
pub enum DfXgmiTxEqMode {
    Disabled,
    EnabledByLane,
    EnabledByLink,
    EnabledByLinkAndRxVetting,
    Auto,
}

impl DfXgmiTxEqMode {
    /// The number that stands for this value.
    pub open spec fn spec_to_u64(self) -> u64 {
        match self {
            DfXgmiTxEqMode::Disabled => 0x0,
            DfXgmiTxEqMode::EnabledByLane => 0x1,
            DfXgmiTxEqMode::EnabledByLink => 0x2,
            DfXgmiTxEqMode::EnabledByLinkAndRxVetting => 0x3,
            DfXgmiTxEqMode::Auto => 0xff,
        }
    }

    /// The value that VALUE stands for, if any.
    pub open spec fn spec_from_u64(value: u64) -> Option<DfXgmiTxEqMode> {
        match value {
            0x0 => Some(DfXgmiTxEqMode::Disabled),
            0x1 => Some(DfXgmiTxEqMode::EnabledByLane),
            0x2 => Some(DfXgmiTxEqMode::EnabledByLink),
            0x3 => Some(DfXgmiTxEqMode::EnabledByLinkAndRxVetting),
            0xff => Some(DfXgmiTxEqMode::Auto),
            _ => None,
        }
    }

    pub fn from_u64(value: u64) -> (r: Option<DfXgmiTxEqMode>)
        ensures
            r == DfXgmiTxEqMode::spec_from_u64(value),
    {
        match value {
            0x0 => Some(DfXgmiTxEqMode::Disabled),
            0x1 => Some(DfXgmiTxEqMode::EnabledByLane),
            0x2 => Some(DfXgmiTxEqMode::EnabledByLink),
            0x3 => Some(DfXgmiTxEqMode::EnabledByLinkAndRxVetting),
            0xff => Some(DfXgmiTxEqMode::Auto),
            _ => None,
        }
    }

    pub fn to_u64(&self) -> (r: Option<u64>)
        ensures
            r == Some(self.spec_to_u64()),
    {
        Some(
            match self {
                DfXgmiTxEqMode::Disabled => 0x0,
                DfXgmiTxEqMode::EnabledByLane => 0x1,
                DfXgmiTxEqMode::EnabledByLink => 0x2,
                DfXgmiTxEqMode::EnabledByLinkAndRxVetting => 0x3,
                DfXgmiTxEqMode::Auto => 0xff,
            },
        )
    }
}

/// Every value of DfXgmiTxEqMode is read back from its own number, and every number that is
/// read as a value is that value's number.
pub proof fn lemma_df_xgmi_tx_eq_mode_roundtrip(x: DfXgmiTxEqMode, value: u64)
    ensures
        DfXgmiTxEqMode::spec_from_u64(x.spec_to_u64()) == Some(x),
        DfXgmiTxEqMode::spec_from_u64(value) matches Some(y) ==> y.spec_to_u64() == value,
{
}

#[derive(Debug, PartialEq, Eq, Clone, Copy, Structural)]
pub enum DfXgmiLinkMaxSpeed {
    _6_40Gbps,
    _7_467Gbps,
    _8_533Gbps,
    _9_6Gbps,
    _10_667Gbps,
    _11Gbps,
    _12Gbps,
    _13Gbps,
    _14Gbps,
    _15Gbps,
    _16Gbps,
    _17Gbps,
    _18Gbps,
    _19Gbps,
    _20Gbps,
    _21Gbps,
    _22Gbps,
    _23Gbps,
    _24Gbps,
    _25Gbps,
    _26Gbps,
    _27Gbps,
    _28Gbps,
    _29Gbps,
    _30Gbps,
    _31Gbps,
    _32Gbps,
    Auto,
}

impl DfXgmiLinkMaxSpeed {
    /// The number that stands for this value.
    pub open spec fn spec_to_u64(self) -> u64 {
        match self {
            DfXgmiLinkMaxSpeed::_6_40Gbps => 0x0,
            DfXgmiLinkMaxSpeed::_7_467Gbps => 0x1,
            DfXgmiLinkMaxSpeed::_8_533Gbps => 0x2,
            DfXgmiLinkMaxSpeed::_9_6Gbps => 0x3,
            DfXgmiLinkMaxSpeed::_10_667Gbps => 0x4,
            DfXgmiLinkMaxSpeed::_11Gbps => 0x5,
            DfXgmiLinkMaxSpeed::_12Gbps => 0x6,
            DfXgmiLinkMaxSpeed::_13Gbps => 0x7,
            DfXgmiLinkMaxSpeed::_14Gbps => 0x8,
            DfXgmiLinkMaxSpeed::_15Gbps => 0x9,
            DfXgmiLinkMaxSpeed::_16Gbps => 0xa,
            DfXgmiLinkMaxSpeed::_17Gbps => 0xb,
            DfXgmiLinkMaxSpeed::_18Gbps => 0xc,
            DfXgmiLinkMaxSpeed::_19Gbps => 0xd,
            DfXgmiLinkMaxSpeed::_20Gbps => 0xe,
            DfXgmiLinkMaxSpeed::_21Gbps => 0xf,
            DfXgmiLinkMaxSpeed::_22Gbps => 0x10,
            DfXgmiLinkMaxSpeed::_23Gbps => 0x11,
            DfXgmiLinkMaxSpeed::_24Gbps => 0x12,
            DfXgmiLinkMaxSpeed::_25Gbps => 0x13,
            DfXgmiLinkMaxSpeed::_26Gbps => 0x14,
            DfXgmiLinkMaxSpeed::_27Gbps => 0x15,
            DfXgmiLinkMaxSpeed::_28Gbps => 0x16,
            DfXgmiLinkMaxSpeed::_29Gbps => 0x17,
            DfXgmiLinkMaxSpeed::_30Gbps => 0x18,
            DfXgmiLinkMaxSpeed::_31Gbps => 0x19,
            DfXgmiLinkMaxSpeed::_32Gbps => 0x1a,
            DfXgmiLinkMaxSpeed::Auto => 0xff,
        }
    }

    /// The value that VALUE stands for, if any.
    pub open spec fn spec_from_u64(value: u64) -> Option<DfXgmiLinkMaxSpeed> {
        match value {
            0x0 => Some(DfXgmiLinkMaxSpeed::_6_40Gbps),
            0x1 => Some(DfXgmiLinkMaxSpeed::_7_467Gbps),
            0x2 => Some(DfXgmiLinkMaxSpeed::_8_533Gbps),
            0x3 => Some(DfXgmiLinkMaxSpeed::_9_6Gbps),
            0x4 => Some(DfXgmiLinkMaxSpeed::_10_667Gbps),
            0x5 => Some(DfXgmiLinkMaxSpeed::_11Gbps),
            0x6 => Some(DfXgmiLinkMaxSpeed::_12Gbps),
            0x7 => Some(DfXgmiLinkMaxSpeed::_13Gbps),
            0x8 => Some(DfXgmiLinkMaxSpeed::_14Gbps),
            0x9 => Some(DfXgmiLinkMaxSpeed::_15Gbps),
            0xa => Some(DfXgmiLinkMaxSpeed::_16Gbps),
            0xb => Some(DfXgmiLinkMaxSpeed::_17Gbps),
            0xc => Some(DfXgmiLinkMaxSpeed::_18Gbps),
            0xd => Some(DfXgmiLinkMaxSpeed::_19Gbps),
            0xe => Some(DfXgmiLinkMaxSpeed::_20Gbps),
            0xf => Some(DfXgmiLinkMaxSpeed::_21Gbps),
            0x10 => Some(DfXgmiLinkMaxSpeed::_22Gbps),
            0x11 => Some(DfXgmiLinkMaxSpeed::_23Gbps),
            0x12 => Some(DfXgmiLinkMaxSpeed::_24Gbps),
            0x13 => Some(DfXgmiLinkMaxSpeed::_25Gbps),
            0x14 => Some(DfXgmiLinkMaxSpeed::_26Gbps),
            0x15 => Some(DfXgmiLinkMaxSpeed::_27Gbps),
            0x16 => Some(DfXgmiLinkMaxSpeed::_28Gbps),
            0x17 => Some(DfXgmiLinkMaxSpeed::_29Gbps),
            0x18 => Some(DfXgmiLinkMaxSpeed::_30Gbps),
            0x19 => Some(DfXgmiLinkMaxSpeed::_31Gbps),
            0x1a => Some(DfXgmiLinkMaxSpeed::_32Gbps),
            0xff => Some(DfXgmiLinkMaxSpeed::Auto),
            _ => None,
        }
    }

    pub fn from_u64(value: u64) -> (r: Option<DfXgmiLinkMaxSpeed>)
        ensures
            r == DfXgmiLinkMaxSpeed::spec_from_u64(value),
    {
        match value {
            0x0 => Some(DfXgmiLinkMaxSpeed::_6_40Gbps),
            0x1 => Some(DfXgmiLinkMaxSpeed::_7_467Gbps),
            0x2 => Some(DfXgmiLinkMaxSpeed::_8_533Gbps),
            0x3 => Some(DfXgmiLinkMaxSpeed::_9_6Gbps),
            0x4 => Some(DfXgmiLinkMaxSpeed::_10_667Gbps),
            0x5 => Some(DfXgmiLinkMaxSpeed::_11Gbps),
            0x6 => Some(DfXgmiLinkMaxSpeed::_12Gbps),
            0x7 => Some(DfXgmiLinkMaxSpeed::_13Gbps),
            0x8 => Some(DfXgmiLinkMaxSpeed::_14Gbps),
            0x9 => Some(DfXgmiLinkMaxSpeed::_15Gbps),
            0xa => Some(DfXgmiLinkMaxSpeed::_16Gbps),
            0xb => Some(DfXgmiLinkMaxSpeed::_17Gbps),
            0xc => Some(DfXgmiLinkMaxSpeed::_18Gbps),
            0xd => Some(DfXgmiLinkMaxSpeed::_19Gbps),
            0xe => Some(DfXgmiLinkMaxSpeed::_20Gbps),
            0xf => Some(DfXgmiLinkMaxSpeed::_21Gbps),
            0x10 => Some(DfXgmiLinkMaxSpeed::_22Gbps),
            0x11 => Some(DfXgmiLinkMaxSpeed::_23Gbps),
            0x12 => Some(DfXgmiLinkMaxSpeed::_24Gbps),
            0x13 => Some(DfXgmiLinkMaxSpeed::_25Gbps),
            0x14 => Some(DfXgmiLinkMaxSpeed::_26Gbps),
            0x15 => Some(DfXgmiLinkMaxSpeed::_27Gbps),
            0x16 => Some(DfXgmiLinkMaxSpeed::_28Gbps),
            0x17 => Some(DfXgmiLinkMaxSpeed::_29Gbps),
            0x18 => Some(DfXgmiLinkMaxSpeed::_30Gbps),
            0x19 => Some(DfXgmiLinkMaxSpeed::_31Gbps),
            0x1a => Some(DfXgmiLinkMaxSpeed::_32Gbps),
            0xff => Some(DfXgmiLinkMaxSpeed::Auto),
            _ => None,
        }
    }

    pub fn to_u64(&self) -> (r: Option<u64>)
        ensures
            r == Some(self.spec_to_u64()),
    {
        Some(
            match self {
                DfXgmiLinkMaxSpeed::_6_40Gbps => 0x0,
                DfXgmiLinkMaxSpeed::_7_467Gbps => 0x1,
                DfXgmiLinkMaxSpeed::_8_533Gbps => 0x2,
                DfXgmiLinkMaxSpeed::_9_6Gbps => 0x3,
                DfXgmiLinkMaxSpeed::_10_667Gbps => 0x4,
                DfXgmiLinkMaxSpeed::_11Gbps => 0x5,
                DfXgmiLinkMaxSpeed::_12Gbps => 0x6,
                DfXgmiLinkMaxSpeed::_13Gbps => 0x7,
                DfXgmiLinkMaxSpeed::_14Gbps => 0x8,
                DfXgmiLinkMaxSpeed::_15Gbps => 0x9,
                DfXgmiLinkMaxSpeed::_16Gbps => 0xa,
                DfXgmiLinkMaxSpeed::_17Gbps => 0xb,
                DfXgmiLinkMaxSpeed::_18Gbps => 0xc,
                DfXgmiLinkMaxSpeed::_19Gbps => 0xd,
                DfXgmiLinkMaxSpeed::_20Gbps => 0xe,
                DfXgmiLinkMaxSpeed::_21Gbps => 0xf,
                DfXgmiLinkMaxSpeed::_22Gbps => 0x10,
                DfXgmiLinkMaxSpeed::_23Gbps => 0x11,
                DfXgmiLinkMaxSpeed::_24Gbps => 0x12,
                DfXgmiLinkMaxSpeed::_25Gbps => 0x13,
                DfXgmiLinkMaxSpeed::_26Gbps => 0x14,
                DfXgmiLinkMaxSpeed::_27Gbps => 0x15,
                DfXgmiLinkMaxSpeed::_28Gbps => 0x16,
                DfXgmiLinkMaxSpeed::_29Gbps => 0x17,
                DfXgmiLinkMaxSpeed::_30Gbps => 0x18,
                DfXgmiLinkMaxSpeed::_31Gbps => 0x19,
                DfXgmiLinkMaxSpeed::_32Gbps => 0x1a,
                DfXgmiLinkMaxSpeed::Auto => 0xff,
            },
        )
    }
}

/// Every value of DfXgmiLinkMaxSpeed is read back from its own number, and every number that is
/// read as a value is that value's number.
pub proof fn lemma_df_xgmi_link_max_speed_roundtrip(x: DfXgmiLinkMaxSpeed, value: u64)
    ensures
        DfXgmiLinkMaxSpeed::spec_from_u64(x.spec_to_u64()) == Some(x),
        DfXgmiLinkMaxSpeed::spec_from_u64(value) matches Some(y) ==> y.spec_to_u64() == value,
{
}

impl DfXgmiLinkMaxSpeed {
    /// What the name of this value says: the link speed, in Mbit/s (0 for the values that do not name one).
    pub open spec fn spec_mbps(self) -> int {
        match self {
            DfXgmiLinkMaxSpeed::_6_40Gbps => 6400,
            DfXgmiLinkMaxSpeed::_7_467Gbps => 7467,
            DfXgmiLinkMaxSpeed::_8_533Gbps => 8533,
            DfXgmiLinkMaxSpeed::_9_6Gbps => 9600,
            DfXgmiLinkMaxSpeed::_10_667Gbps => 10667,
            DfXgmiLinkMaxSpeed::_11Gbps => 11000,
            DfXgmiLinkMaxSpeed::_12Gbps => 12000,
            DfXgmiLinkMaxSpeed::_13Gbps => 13000,
            DfXgmiLinkMaxSpeed::_14Gbps => 14000,
            DfXgmiLinkMaxSpeed::_15Gbps => 15000,
            DfXgmiLinkMaxSpeed::_16Gbps => 16000,
            DfXgmiLinkMaxSpeed::_17Gbps => 17000,
            DfXgmiLinkMaxSpeed::_18Gbps => 18000,
            DfXgmiLinkMaxSpeed::_19Gbps => 19000,
            DfXgmiLinkMaxSpeed::_20Gbps => 20000,
            DfXgmiLinkMaxSpeed::_21Gbps => 21000,
            DfXgmiLinkMaxSpeed::_22Gbps => 22000,
            DfXgmiLinkMaxSpeed::_23Gbps => 23000,
            DfXgmiLinkMaxSpeed::_24Gbps => 24000,
            DfXgmiLinkMaxSpeed::_25Gbps => 25000,
            DfXgmiLinkMaxSpeed::_26Gbps => 26000,
            DfXgmiLinkMaxSpeed::_27Gbps => 27000,
            DfXgmiLinkMaxSpeed::_28Gbps => 28000,
            DfXgmiLinkMaxSpeed::_29Gbps => 29000,
            DfXgmiLinkMaxSpeed::_30Gbps => 30000,
            DfXgmiLinkMaxSpeed::_31Gbps => 31000,
            DfXgmiLinkMaxSpeed::_32Gbps => 32000,
            DfXgmiLinkMaxSpeed::Auto => 0,
        }
    }
}

/// The numbers of the values follow what their names say: of two values that name one,
/// the one with the larger named quantity has the larger number; each other value has a number of its own.
pub proof fn lemma_df_xgmi_link_max_speed_numbers_follow_names(x: DfXgmiLinkMaxSpeed, y: DfXgmiLinkMaxSpeed)
    ensures
        (x != DfXgmiLinkMaxSpeed::Auto && y != DfXgmiLinkMaxSpeed::Auto) ==> (x.spec_mbps() < y.spec_mbps() <==> x.spec_to_u64() < y.spec_to_u64()),
        x == DfXgmiLinkMaxSpeed::Auto <==> x.spec_to_u64() == 255,
{
}

#[derive(Debug, PartialEq, Eq, Clone, Copy, Structural)]
pub enum DfSysStorageAtTopOfMem {
    Distributed,
    ConsolidatedInLastDramPair,
    ConsolidatedInFirstDramPair,
    Auto,
}

impl DfSysStorageAtTopOfMem {
    /// The number that stands for this value.
    pub open spec fn spec_to_u64(self) -> u64 {
        match self {
            DfSysStorageAtTopOfMem::Distributed => 0x0,
            DfSysStorageAtTopOfMem::ConsolidatedInLastDramPair => 0x1,
            DfSysStorageAtTopOfMem::ConsolidatedInFirstDramPair => 0x2,
            DfSysStorageAtTopOfMem::Auto => 0xff,
        }
    }

    /// The value that VALUE stands for, if any.
    pub open spec fn spec_from_u64(value: u64) -> Option<DfSysStorageAtTopOfMem> {
        match value {
            0x0 => Some(DfSysStorageAtTopOfMem::Distributed),
            0x1 => Some(DfSysStorageAtTopOfMem::ConsolidatedInLastDramPair),
            0x2 => Some(DfSysStorageAtTopOfMem::ConsolidatedInFirstDramPair),
            0xff => Some(DfSysStorageAtTopOfMem::Auto),
            _ => None,
        }
    }

    pub fn from_u64(value: u64) -> (r: Option<DfSysStorageAtTopOfMem>)
        ensures
            r == DfSysStorageAtTopOfMem::spec_from_u64(value),
    {
        match value {
            0x0 => Some(DfSysStorageAtTopOfMem::Distributed),
            0x1 => Some(DfSysStorageAtTopOfMem::ConsolidatedInLastDramPair),
            0x2 => Some(DfSysStorageAtTopOfMem::ConsolidatedInFirstDramPair),
            0xff => Some(DfSysStorageAtTopOfMem::Auto),
            _ => None,
        }
    }

    pub fn to_u64(&self) -> (r: Option<u64>)
        ensures
            r == Some(self.spec_to_u64()),
    {
        Some(
            match self {
                DfSysStorageAtTopOfMem::Distributed => 0x0,
                DfSysStorageAtTopOfMem::ConsolidatedInLastDramPair => 0x1,
                DfSysStorageAtTopOfMem::ConsolidatedInFirstDramPair => 0x2,
                DfSysStorageAtTopOfMem::Auto => 0xff,
            },
        )
    }
}

/// Every value of DfSysStorageAtTopOfMem is read back from its own number, and every number that is
/// read as a value is that value's number.
pub proof fn lemma_df_sys_storage_at_top_of_mem_roundtrip(x: DfSysStorageAtTopOfMem, value: u64)
    ensures
        DfSysStorageAtTopOfMem::spec_from_u64(x.spec_to_u64()) == Some(x),
        DfSysStorageAtTopOfMem::spec_from_u64(value) matches Some(y) ==> y.spec_to_u64() == value,
{
}

#[derive(Debug, PartialEq, Eq, Clone, Copy, Structural)]
pub enum BmcGen2TxDeemphasis {
    Csr,
    Upstream,
    Minus_6_dB,
    Minus_3_5_dB,
    Disabled,
}

impl BmcGen2TxDeemphasis {
    /// The number that stands for this value.
    pub open spec fn spec_to_u64(self) -> u64 {
        match self {
            BmcGen2TxDeemphasis::Csr => 0x0,
            BmcGen2TxDeemphasis::Upstream => 0x1,
            BmcGen2TxDeemphasis::Minus_6_dB => 0x2,
            BmcGen2TxDeemphasis::Minus_3_5_dB => 0x3,
            BmcGen2TxDeemphasis::Disabled => 0xff,
        }
    }

    /// The value that VALUE stands for, if any.
    pub open spec fn spec_from_u64(value: u64) -> Option<BmcGen2TxDeemphasis> {
        match value {
            0x0 => Some(BmcGen2TxDeemphasis::Csr),
            0x1 => Some(BmcGen2TxDeemphasis::Upstream),
            0x2 => Some(BmcGen2TxDeemphasis::Minus_6_dB),
            0x3 => Some(BmcGen2TxDeemphasis::Minus_3_5_dB),
            0xff => Some(BmcGen2TxDeemphasis::Disabled),
            _ => None,
        }
    }

    pub fn from_u64(value: u64) -> (r: Option<BmcGen2TxDeemphasis>)
        ensures
            r == BmcGen2TxDeemphasis::spec_from_u64(value),
    {
        match value {
            0x0 => Some(BmcGen2TxDeemphasis::Csr),
            0x1 => Some(BmcGen2TxDeemphasis::Upstream),
            0x2 => Some(BmcGen2TxDeemphasis::Minus_6_dB),
            0x3 => Some(BmcGen2TxDeemphasis::Minus_3_5_dB),
            0xff => Some(BmcGen2TxDeemphasis::Disabled),
            _ => None,
        }
    }

    pub fn to_u64(&self) -> (r: Option<u64>)
        ensures
            r == Some(self.spec_to_u64()),
    {
        Some(
            match self {
                BmcGen2TxDeemphasis::Csr => 0x0,
                BmcGen2TxDeemphasis::Upstream => 0x1,
                BmcGen2TxDeemphasis::Minus_6_dB => 0x2,
                BmcGen2TxDeemphasis::Minus_3_5_dB => 0x3,
                BmcGen2TxDeemphasis::Disabled => 0xff,
            },
        )
    }
}

/// Every value of BmcGen2TxDeemphasis is read back from its own number, and every number that is
/// read as a value is that value's number.
pub proof fn lemma_bmc_gen2_tx_deemphasis_roundtrip(x: BmcGen2TxDeemphasis, value: u64)
    ensures
        BmcGen2TxDeemphasis::spec_from_u64(x.spec_to_u64()) == Some(x),
        BmcGen2TxDeemphasis::spec_from_u64(value) matches Some(y) ==> y.spec_to_u64() == value,
{
}

#[derive(Debug, PartialEq, Eq, Clone, Copy, Structural)]
pub enum BmcRcbCheckingMode {
    EnableRcbChecking,
    DisableRcbChecking,
    Auto,
}

impl BmcRcbCheckingMode {
    /// The number that stands for this value.
    pub open spec fn spec_to_u64(self) -> u64 {
        match self {
            BmcRcbCheckingMode::EnableRcbChecking => 0x0,
            BmcRcbCheckingMode::DisableRcbChecking => 0x1,
            BmcRcbCheckingMode::Auto => 0xff,
        }
    }

    /// The value that VALUE stands for, if any.
    pub open spec fn spec_from_u64(value: u64) -> Option<BmcRcbCheckingMode> {
        match value {
            0x0 => Some(BmcRcbCheckingMode::EnableRcbChecking),
            0x1 => Some(BmcRcbCheckingMode::DisableRcbChecking),
            0xff => Some(BmcRcbCheckingMode::Auto),
            _ => None,
        }
    }

    pub fn from_u64(value: u64) -> (r: Option<BmcRcbCheckingMode>)
        ensures
            r == BmcRcbCheckingMode::spec_from_u64(value),
    {
        match value {
            0x0 => Some(BmcRcbCheckingMode::EnableRcbChecking),
            0x1 => Some(BmcRcbCheckingMode::DisableRcbChecking),
            0xff => Some(BmcRcbCheckingMode::Auto),
            _ => None,
        }
    }

    pub fn to_u64(&self) -> (r: Option<u64>)
        ensures
            r == Some(self.spec_to_u64()),
    {
        Some(
            match self {
                BmcRcbCheckingMode::EnableRcbChecking => 0x0,
                BmcRcbCheckingMode::DisableRcbChecking => 0x1,
                BmcRcbCheckingMode::Auto => 0xff,
            },
        )
    }
}

/// Every value of BmcRcbCheckingMode is read back from its own number, and every number that is
/// read as a value is that value's number.
pub proof fn lemma_bmc_rcb_checking_mode_roundtrip(x: BmcRcbCheckingMode, value: u64)
    ensures
        BmcRcbCheckingMode::spec_from_u64(x.spec_to_u64()) == Some(x),
        BmcRcbCheckingMode::spec_from_u64(value) matches Some(y) ==> y.spec_to_u64() == value,
{
}

#[derive(Debug, PartialEq, Eq, Clone, Copy, Structural)]
pub enum DfCxlStronglyOrderedWrites {
    Enabled,
    Disabled,
}

impl DfCxlStronglyOrderedWrites {
    /// The number that stands for this value.
    pub open spec fn spec_to_u64(self) -> u64 {
        match self {
            DfCxlStronglyOrderedWrites::Enabled => 0x1,
            DfCxlStronglyOrderedWrites::Disabled => 0x0,
        }
    }

    /// The value that VALUE stands for, if any.
    pub open spec fn spec_from_u64(value: u64) -> Option<DfCxlStronglyOrderedWrites> {
        match value {
            0x1 => Some(DfCxlStronglyOrderedWrites::Enabled),
            0x0 => Some(DfCxlStronglyOrderedWrites::Disabled),
            _ => None,
        }
    }

    pub fn from_u64(value: u64) -> (r: Option<DfCxlStronglyOrderedWrites>)
        ensures
            r == DfCxlStronglyOrderedWrites::spec_from_u64(value),
    {
        match value {
            0x1 => Some(DfCxlStronglyOrderedWrites::Enabled),
            0x0 => Some(DfCxlStronglyOrderedWrites::Disabled),
            _ => None,
        }
    }

    pub fn to_u64(&self) -> (r: Option<u64>)
        ensures
            r == Some(self.spec_to_u64()),
    {
        Some(
            match self {
                DfCxlStronglyOrderedWrites::Enabled => 0x1,
                DfCxlStronglyOrderedWrites::Disabled => 0x0,
            },
        )
    }
}

/// Every value of DfCxlStronglyOrderedWrites is read back from its own number, and every number that is
/// read as a value is that value's number.
pub proof fn lemma_df_cxl_strongly_ordered_writes_roundtrip(x: DfCxlStronglyOrderedWrites, value: u64)
    ensures
        DfCxlStronglyOrderedWrites::spec_from_u64(x.spec_to_u64()) == Some(x),
        DfCxlStronglyOrderedWrites::spec_from_u64(value) matches Some(y) ==> y.spec_to_u64() == value,
{
}

#[derive(Debug, PartialEq, Eq, Clone, Copy, Structural)]
pub enum CxlResetPin {
    NoPin,
    Gpio26,
    Gpio266,
}

impl CxlResetPin {
    /// The number that stands for this value.
    pub open spec fn spec_to_u64(self) -> u64 {
        match self {
            CxlResetPin::NoPin => 0x0,
            CxlResetPin::Gpio26 => 0x1,
            CxlResetPin::Gpio266 => 0x2,
        }
    }

    /// The value that VALUE stands for, if any.
    pub open spec fn spec_from_u64(value: u64) -> Option<CxlResetPin> {
        match value {
            0x0 => Some(CxlResetPin::NoPin),
            0x1 => Some(CxlResetPin::Gpio26),
            0x2 => Some(CxlResetPin::Gpio266),
            _ => None,
        }
    }

    pub fn from_u64(value: u64) -> (r: Option<CxlResetPin>)
        ensures
            r == CxlResetPin::spec_from_u64(value),
    {
        match value {
            0x0 => Some(CxlResetPin::NoPin),
            0x1 => Some(CxlResetPin::Gpio26),
            0x2 => Some(CxlResetPin::Gpio266),
            _ => None,
        }
    }

    pub fn to_u64(&self) -> (r: Option<u64>)
        ensures
            r == Some(self.spec_to_u64()),
    {
        Some(
            match self {
                CxlResetPin::NoPin => 0x0,
                CxlResetPin::Gpio26 => 0x1,
                CxlResetPin::Gpio266 => 0x2,
            },
        )
    }
}

/// Every value of CxlResetPin is read back from its own number, and every number that is
/// read as a value is that value's number.
pub proof fn lemma_cxl_reset_pin_roundtrip(x: CxlResetPin, value: u64)
    ensures
        CxlResetPin::spec_from_u64(x.spec_to_u64()) == Some(x),
        CxlResetPin::spec_from_u64(value) matches Some(y) ==> y.spec_to_u64() == value,
{
}

#[derive(Debug, PartialEq, Eq, Clone, Copy, Structural)]
pub enum DfUmcCxlMixedInterleavedMode {
    Enabled,
    Disabled,
    Auto,
}

impl DfUmcCxlMixedInterleavedMode {
    /// The number that stands for this value.
    pub open spec fn spec_to_u64(self) -> u64 {
        match self {
            DfUmcCxlMixedInterleavedMode::Enabled => 0x1,
            DfUmcCxlMixedInterleavedMode::Disabled => 0x0,
            DfUmcCxlMixedInterleavedMode::Auto => 0xff,
        }
    }

    /// The value that VALUE stands for, if any.
    pub open spec fn spec_from_u64(value: u64) -> Option<DfUmcCxlMixedInterleavedMode> {
        match value {
            0x1 => Some(DfUmcCxlMixedInterleavedMode::Enabled),
            0x0 => Some(DfUmcCxlMixedInterleavedMode::Disabled),
            0xff => Some(DfUmcCxlMixedInterleavedMode::Auto),
            _ => None,
        }
    }

    pub fn from_u64(value: u64) -> (r: Option<DfUmcCxlMixedInterleavedMode>)
        ensures
            r == DfUmcCxlMixedInterleavedMode::spec_from_u64(value),
    {
        match value {
            0x1 => Some(DfUmcCxlMixedInterleavedMode::Enabled),
            0x0 => Some(DfUmcCxlMixedInterleavedMode::Disabled),
            0xff => Some(DfUmcCxlMixedInterleavedMode::Auto),
            _ => None,
        }
    }

    pub fn to_u64(&self) -> (r: Option<u64>)
        ensures
            r == Some(self.spec_to_u64()),
    {
        Some(
            match self {
                DfUmcCxlMixedInterleavedMode::Enabled => 0x1,
                DfUmcCxlMixedInterleavedMode::Disabled => 0x0,
                DfUmcCxlMixedInterleavedMode::Auto => 0xff,
            },
        )
    }
}

/// Every value of DfUmcCxlMixedInterleavedMode is read back from its own number, and every number that is
/// read as a value is that value's number.
pub proof fn lemma_df_umc_cxl_mixed_interleaved_mode_roundtrip(x: DfUmcCxlMixedInterleavedMode, value: u64)
    ensures
        DfUmcCxlMixedInterleavedMode::spec_from_u64(x.spec_to_u64()) == Some(x),
        DfUmcCxlMixedInterleavedMode::spec_from_u64(value) matches Some(y) ==> y.spec_to_u64() == value,
{
}

#[derive(Debug, PartialEq, Eq, Clone, Copy, Structural)]
pub enum DfTgtReqGo {
    Enabled,
    Disabled,
    Auto,
}

impl DfTgtReqGo {
    /// The number that stands for this value.
    pub open spec fn spec_to_u64(self) -> u64 {
        match self {
            DfTgtReqGo::Enabled => 0x1,
            DfTgtReqGo::Disabled => 0x0,
            DfTgtReqGo::Auto => 0xff,
        }
    }

    /// The value that VALUE stands for, if any.
    pub open spec fn spec_from_u64(value: u64) -> Option<DfTgtReqGo> {
        match value {
            0x1 => Some(DfTgtReqGo::Enabled),
            0x0 => Some(DfTgtReqGo::Disabled),
            0xff => Some(DfTgtReqGo::Auto),
            _ => None,
        }
    }

    pub fn from_u64(value: u64) -> (r: Option<DfTgtReqGo>)
        ensures
            r == DfTgtReqGo::spec_from_u64(value),
    {
        match value {
            0x1 => Some(DfTgtReqGo::Enabled),
            0x0 => Some(DfTgtReqGo::Disabled),
            0xff => Some(DfTgtReqGo::Auto),
            _ => None,
        }
    }

    pub fn to_u64(&self) -> (r: Option<u64>)
        ensures
            r == Some(self.spec_to_u64()),
    {
        Some(
            match self {
                DfTgtReqGo::Enabled => 0x1,
                DfTgtReqGo::Disabled => 0x0,
                DfTgtReqGo::Auto => 0xff,
            },
        )
    }
}

/// Every value of DfTgtReqGo is read back from its own number, and every number that is
/// read as a value is that value's number.
pub proof fn lemma_df_tgt_req_go_roundtrip(x: DfTgtReqGo, value: u64)
    ensures
        DfTgtReqGo::spec_from_u64(x.spec_to_u64()) == Some(x),
        DfTgtReqGo::spec_from_u64(value) matches Some(y) ==> y.spec_to_u64() == value,
{
}

#[derive(Debug, PartialEq, Eq, Clone, Copy, Structural)]
pub enum DfGmiSubTxRxMode {
    Enabled,
    Disabled,
}

impl DfGmiSubTxRxMode {
    /// The number that stands for this value.
    pub open spec fn spec_to_u64(self) -> u64 {
        match self {
            DfGmiSubTxRxMode::Enabled => 0x1,
            DfGmiSubTxRxMode::Disabled => 0x0,
        }
    }

    /// The value that VALUE stands for, if any.
    pub open spec fn spec_from_u64(value: u64) -> Option<DfGmiSubTxRxMode> {
        match value {
            0x1 => Some(DfGmiSubTxRxMode::Enabled),
            0x0 => Some(DfGmiSubTxRxMode::Disabled),
            _ => None,
        }
    }

    pub fn from_u64(value: u64) -> (r: Option<DfGmiSubTxRxMode>)
        ensures
            r == DfGmiSubTxRxMode::spec_from_u64(value),
    {
        match value {
            0x1 => Some(DfGmiSubTxRxMode::Enabled),
            0x0 => Some(DfGmiSubTxRxMode::Disabled),
            _ => None,
        }
    }

    pub fn to_u64(&self) -> (r: Option<u64>)
        ensures
            r == Some(self.spec_to_u64()),
    {
        Some(
            match self {
                DfGmiSubTxRxMode::Enabled => 0x1,
                DfGmiSubTxRxMode::Disabled => 0x0,
            },
        )
    }
}

/// Every value of DfGmiSubTxRxMode is read back from its own number, and every number that is
/// read as a value is that value's number.
pub proof fn lemma_df_gmi_sub_tx_rx_mode_roundtrip(x: DfGmiSubTxRxMode, value: u64)
    ensures
        DfGmiSubTxRxMode::spec_from_u64(x.spec_to_u64()) == Some(x),
        DfGmiSubTxRxMode::spec_from_u64(value) matches Some(y) ==> y.spec_to_u64() == value,
{
}

#[derive(Debug, PartialEq, Eq, Clone, Copy, Structural)]
pub enum MemChannelDisableFloatPowerGoodDdr {
    Enabled,
    Disabled,
}

impl MemChannelDisableFloatPowerGoodDdr {
    /// The number that stands for this value.
    pub open spec fn spec_to_u64(self) -> u64 {
        match self {
            MemChannelDisableFloatPowerGoodDdr::Enabled => 0x1,
            MemChannelDisableFloatPowerGoodDdr::Disabled => 0x0,
        }
    }

    /// The value that VALUE stands for, if any.
    pub open spec fn spec_from_u64(value: u64) -> Option<MemChannelDisableFloatPowerGoodDdr> {
        match value {
            0x1 => Some(MemChannelDisableFloatPowerGoodDdr::Enabled),
            0x0 => Some(MemChannelDisableFloatPowerGoodDdr::Disabled),
            _ => None,
        }
    }

    pub fn from_u64(value: u64) -> (r: Option<MemChannelDisableFloatPowerGoodDdr>)
        ensures
            r == MemChannelDisableFloatPowerGoodDdr::spec_from_u64(value),
    {
        match value {
            0x1 => Some(MemChannelDisableFloatPowerGoodDdr::Enabled),
            0x0 => Some(MemChannelDisableFloatPowerGoodDdr::Disabled),
            _ => None,
        }
    }

    pub fn to_u64(&self) -> (r: Option<u64>)
        ensures
            r == Some(self.spec_to_u64()),
    {
        Some(
            match self {
                MemChannelDisableFloatPowerGoodDdr::Enabled => 0x1,
                MemChannelDisableFloatPowerGoodDdr::Disabled => 0x0,
            },
        )
    }
}

/// Every value of MemChannelDisableFloatPowerGoodDdr is read back from its own number, and every number that is
/// read as a value is that value's number.
pub proof fn lemma_mem_channel_disable_float_power_good_ddr_roundtrip(x: MemChannelDisableFloatPowerGoodDdr, value: u64)
    ensures
        MemChannelDisableFloatPowerGoodDdr::spec_from_u64(x.spec_to_u64()) == Some(x),
        MemChannelDisableFloatPowerGoodDdr::spec_from_u64(value) matches Some(y) ==> y.spec_to_u64() == value,
{
}

#[derive(Debug, PartialEq, Eq, Clone, Copy, Structural)]
pub enum EccSymbolSize {
    x4,
    x8,
    x16,
}

impl EccSymbolSize {
    /// The number that stands for this value.
    pub open spec fn spec_to_u64(self) -> u64 {
        match self {
            EccSymbolSize::x4 => 0x0,
            EccSymbolSize::x8 => 0x1,
            EccSymbolSize::x16 => 0x2,
        }
    }

    /// The value that VALUE stands for, if any.
    pub open spec fn spec_from_u64(value: u64) -> Option<EccSymbolSize> {
        match value {
            0x0 => Some(EccSymbolSize::x4),
            0x1 => Some(EccSymbolSize::x8),
            0x2 => Some(EccSymbolSize::x16),
            _ => None,
        }
    }

    pub fn from_u64(value: u64) -> (r: Option<EccSymbolSize>)
        ensures
            r == EccSymbolSize::spec_from_u64(value),
    {
        match value {
            0x0 => Some(EccSymbolSize::x4),
            0x1 => Some(EccSymbolSize::x8),
            0x2 => Some(EccSymbolSize::x16),
            _ => None,
        }
    }

    pub fn to_u64(&self) -> (r: Option<u64>)
        ensures
            r == Some(self.spec_to_u64()),
    {
        Some(
            match self {
                EccSymbolSize::x4 => 0x0,
                EccSymbolSize::x8 => 0x1,
                EccSymbolSize::x16 => 0x2,
            },
        )
    }
}

/// Every value of EccSymbolSize is read back from its own number, and every number that is
/// read as a value is that value's number.
pub proof fn lemma_ecc_symbol_size_roundtrip(x: EccSymbolSize, value: u64)
    ensures
        EccSymbolSize::spec_from_u64(x.spec_to_u64()) == Some(x),
        EccSymbolSize::spec_from_u64(value) matches Some(y) ==> y.spec_to_u64() == value,
{
}

impl EccSymbolSize {
    /// What the name of this value says: the symbol width, in bits.
    pub open spec fn spec_symbol_width(self) -> int {
        match self {
            EccSymbolSize::x4 => 4,
            EccSymbolSize::x8 => 8,
            EccSymbolSize::x16 => 16,
        }
    }
}

/// The numbers of the values follow what their names say: of two values that name one,
/// the one with the larger named quantity has the larger number.
pub proof fn lemma_ecc_symbol_size_numbers_follow_names(x: EccSymbolSize, y: EccSymbolSize)
    ensures
        x.spec_symbol_width() < y.spec_symbol_width() <==> x.spec_to_u64() < y.spec_to_u64(),
{
}

#[derive(Debug, PartialEq, Eq, Clone, Copy, Structural)]
pub enum MemTargetSpeed {
    _3200,
    _3600,
    _4000,
    _4400,
    _4800,
    _5200,
    _5600,
    _6400,
}

impl MemTargetSpeed {
    /// The number that stands for this value.
    pub open spec fn spec_to_u64(self) -> u64 {
        match self {
            MemTargetSpeed::_3200 => 0xc80,
            MemTargetSpeed::_3600 => 0xe10,
            MemTargetSpeed::_4000 => 0xfa0,
            MemTargetSpeed::_4400 => 0x1130,
            MemTargetSpeed::_4800 => 0x12c0,
            MemTargetSpeed::_5200 => 0x1450,
            MemTargetSpeed::_5600 => 0x15e0,
            MemTargetSpeed::_6400 => 0x1900,
        }
    }

    /// The value that VALUE stands for, if any.
    pub open spec fn spec_from_u64(value: u64) -> Option<MemTargetSpeed> {
        match value {
            0xc80 => Some(MemTargetSpeed::_3200),
            0xe10 => Some(MemTargetSpeed::_3600),
            0xfa0 => Some(MemTargetSpeed::_4000),
            0x1130 => Some(MemTargetSpeed::_4400),
            0x12c0 => Some(MemTargetSpeed::_4800),
            0x1450 => Some(MemTargetSpeed::_5200),
            0x15e0 => Some(MemTargetSpeed::_5600),
            0x1900 => Some(MemTargetSpeed::_6400),
            _ => None,
        }
    }

    pub fn from_u64(value: u64) -> (r: Option<MemTargetSpeed>)
        ensures
            r == MemTargetSpeed::spec_from_u64(value),
    {
        match value {
            0xc80 => Some(MemTargetSpeed::_3200),
            0xe10 => Some(MemTargetSpeed::_3600),
            0xfa0 => Some(MemTargetSpeed::_4000),
            0x1130 => Some(MemTargetSpeed::_4400),
            0x12c0 => Some(MemTargetSpeed::_4800),
            0x1450 => Some(MemTargetSpeed::_5200),
            0x15e0 => Some(MemTargetSpeed::_5600),
            0x1900 => Some(MemTargetSpeed::_6400),
            _ => None,
        }
    }

    pub fn to_u64(&self) -> (r: Option<u64>)
        ensures
            r == Some(self.spec_to_u64()),
    {
        Some(
            match self {
                MemTargetSpeed::_3200 => 0xc80,
                MemTargetSpeed::_3600 => 0xe10,
                MemTargetSpeed::_4000 => 0xfa0,
                MemTargetSpeed::_4400 => 0x1130,
                MemTargetSpeed::_4800 => 0x12c0,
                MemTargetSpeed::_5200 => 0x1450,
                MemTargetSpeed::_5600 => 0x15e0,
                MemTargetSpeed::_6400 => 0x1900,
            },
        )
    }
}

/// Every value of MemTargetSpeed is read back from its own number, and every number that is
/// read as a value is that value's number.
pub proof fn lemma_mem_target_speed_roundtrip(x: MemTargetSpeed, value: u64)
    ensures
        MemTargetSpeed::spec_from_u64(x.spec_to_u64()) == Some(x),
        MemTargetSpeed::spec_from_u64(value) matches Some(y) ==> y.spec_to_u64() == value,
{
}

impl MemTargetSpeed {
    /// What the name of this value says: the number in its name.
    pub open spec fn spec_named_number(self) -> int {
        match self {
            MemTargetSpeed::_3200 => 3200,
            MemTargetSpeed::_3600 => 3600,
            MemTargetSpeed::_4000 => 4000,
            MemTargetSpeed::_4400 => 4400,
            MemTargetSpeed::_4800 => 4800,
            MemTargetSpeed::_5200 => 5200,
            MemTargetSpeed::_5600 => 5600,
            MemTargetSpeed::_6400 => 6400,
        }
    }
}

/// The number of each value follows from what its name says: 1 times the number is
/// 1 times the named quantity plus 0.
pub proof fn lemma_mem_target_speed_numbers_follow_names(x: MemTargetSpeed)
    ensures
        x.spec_to_u64() == x.spec_named_number(),
{
}

#[derive(Debug, PartialEq, Eq, Clone, Copy, Structural)]
pub enum MemClockValue {
    Ddr400,
    Ddr533,
    Ddr667,
    Ddr800,
    Ddr1066,
    Ddr1333,
    Ddr1600,
    Ddr1866,
    Ddr2100,
    Ddr2133,
    Ddr2400,
    Ddr2667,
    Ddr2800,
    Ddr2933,
    Ddr3066,
    Ddr3200,
    Ddr3333,
    Ddr3466,
    Ddr3600,
    Ddr3733,
    Ddr3866,
    Ddr4000,
    Ddr4200,
    Ddr4267,
    Ddr4333,
    Ddr4400,
    Ddr4467,
    Ddr4533,
    Ddr4600,
    Ddr4667,
    Ddr4733,
    Ddr4800,
    Ddr4867,
    Ddr4933,
    Ddr5000,
    Ddr5100,
    Ddr5200,
    Ddr5300,
    Ddr5400,
    Ddr5500,
    Ddr5600,
    Ddr5700,
    Ddr5800,
    Ddr5900,
    Ddr6000,
    Ddr6100,
    Ddr6200,
    Ddr6300,
    Ddr6400,
    Ddr6500,
    Ddr6600,
    Ddr6700,
    Ddr6800,
    Ddr6900,
    Ddr7000,
    Ddr7100,
    Ddr7200,
    Ddr7300,
    Ddr7400,
    Ddr7500,
    Ddr7600,
    Ddr7700,
    Ddr7800,
    Ddr7900,
    Ddr8000,
    Ddr8100,
    Ddr8200,
    Ddr8300,
    Ddr8400,
    Ddr8500,
    Ddr8533,
    Ddr8600,
    Ddr8700,
    Ddr8800,
    Auto,
}

impl MemClockValue {
    /// The number that stands for this value.
    pub open spec fn spec_to_u64(self) -> u64 {
        match self {
            MemClockValue::Ddr400 => 0xc8,
            MemClockValue::Ddr533 => 0x10a,
            MemClockValue::Ddr667 => 0x14d,
            MemClockValue::Ddr800 => 0x190,
            MemClockValue::Ddr1066 => 0x215,
            MemClockValue::Ddr1333 => 0x29b,
            MemClockValue::Ddr1600 => 0x320,
            MemClockValue::Ddr1866 => 0x3a5,
            MemClockValue::Ddr2100 => 0x41a,
            MemClockValue::Ddr2133 => 0x42b,
            MemClockValue::Ddr2400 => 0x4b0,
            MemClockValue::Ddr2667 => 0x535,
            MemClockValue::Ddr2800 => 0x578,
            MemClockValue::Ddr2933 => 0x5bb,
            MemClockValue::Ddr3066 => 0x5fd,
            MemClockValue::Ddr3200 => 0x640,
            MemClockValue::Ddr3333 => 0x683,
            MemClockValue::Ddr3466 => 0x6c5,
            MemClockValue::Ddr3600 => 0x708,
            MemClockValue::Ddr3733 => 0x74b,
            MemClockValue::Ddr3866 => 0x78d,
            MemClockValue::Ddr4000 => 0x7d0,
            MemClockValue::Ddr4200 => 0x834,
            MemClockValue::Ddr4267 => 0x855,
            MemClockValue::Ddr4333 => 0x877,
            MemClockValue::Ddr4400 => 0x898,
            MemClockValue::Ddr4467 => 0x8b9,
            MemClockValue::Ddr4533 => 0x8db,
            MemClockValue::Ddr4600 => 0x8fc,
            MemClockValue::Ddr4667 => 0x91d,
            MemClockValue::Ddr4733 => 0x93f,
            MemClockValue::Ddr4800 => 0x960,
            MemClockValue::Ddr4867 => 0x981,
            MemClockValue::Ddr4933 => 0x9a3,
            MemClockValue::Ddr5000 => 0x9c4,
            MemClockValue::Ddr5100 => 0x9f6,
            MemClockValue::Ddr5200 => 0xa28,
            MemClockValue::Ddr5300 => 0xa5a,
            MemClockValue::Ddr5400 => 0xa8c,
            MemClockValue::Ddr5500 => 0xabe,
            MemClockValue::Ddr5600 => 0xaf0,
            MemClockValue::Ddr5700 => 0xb22,
            MemClockValue::Ddr5800 => 0xb54,
            MemClockValue::Ddr5900 => 0xb86,
            MemClockValue::Ddr6000 => 0xbb8,
            MemClockValue::Ddr6100 => 0xbea,
            MemClockValue::Ddr6200 => 0xc1c,
            MemClockValue::Ddr6300 => 0xc4e,
            MemClockValue::Ddr6400 => 0xc80,
            MemClockValue::Ddr6500 => 0xcb2,
            MemClockValue::Ddr6600 => 0xce4,
            MemClockValue::Ddr6700 => 0xd16,
            MemClockValue::Ddr6800 => 0xd48,
            MemClockValue::Ddr6900 => 0xd7a,
            MemClockValue::Ddr7000 => 0xdac,
            MemClockValue::Ddr7100 => 0xdde,
            MemClockValue::Ddr7200 => 0xe10,
            MemClockValue::Ddr7300 => 0xe42,
            MemClockValue::Ddr7400 => 0xe74,
            MemClockValue::Ddr7500 => 0xea6,
            MemClockValue::Ddr7600 => 0xed8,
            MemClockValue::Ddr7700 => 0xf0a,
            MemClockValue::Ddr7800 => 0xf3c,
            MemClockValue::Ddr7900 => 0xf6e,
            MemClockValue::Ddr8000 => 0xfa0,
            MemClockValue::Ddr8100 => 0xfd2,
            MemClockValue::Ddr8200 => 0x1004,
            MemClockValue::Ddr8300 => 0x1036,
            MemClockValue::Ddr8400 => 0x1068,
            MemClockValue::Ddr8500 => 0x109a,
            MemClockValue::Ddr8533 => 0x10ab,
            MemClockValue::Ddr8600 => 0x10cc,
            MemClockValue::Ddr8700 => 0x10fe,
            MemClockValue::Ddr8800 => 0x1130,
            MemClockValue::Auto => 0xffffffff,
        }
    }

    /// The value that VALUE stands for, if any.
    pub open spec fn spec_from_u64(value: u64) -> Option<MemClockValue> {
        match value {
            0xc8 => Some(MemClockValue::Ddr400),
            0x10a => Some(MemClockValue::Ddr533),
            0x14d => Some(MemClockValue::Ddr667),
            0x190 => Some(MemClockValue::Ddr800),
            0x215 => Some(MemClockValue::Ddr1066),
            0x29b => Some(MemClockValue::Ddr1333),
            0x320 => Some(MemClockValue::Ddr1600),
            0x3a5 => Some(MemClockValue::Ddr1866),
            0x41a => Some(MemClockValue::Ddr2100),
            0x42b => Some(MemClockValue::Ddr2133),
            0x4b0 => Some(MemClockValue::Ddr2400),
            0x535 => Some(MemClockValue::Ddr2667),
            0x578 => Some(MemClockValue::Ddr2800),
            0x5bb => Some(MemClockValue::Ddr2933),
            0x5fd => Some(MemClockValue::Ddr3066),
            0x640 => Some(MemClockValue::Ddr3200),
            0x683 => Some(MemClockValue::Ddr3333),
            0x6c5 => Some(MemClockValue::Ddr3466),
            0x708 => Some(MemClockValue::Ddr3600),
            0x74b => Some(MemClockValue::Ddr3733),
            0x78d => Some(MemClockValue::Ddr3866),
            0x7d0 => Some(MemClockValue::Ddr4000),
            0x834 => Some(MemClockValue::Ddr4200),
            0x855 => Some(MemClockValue::Ddr4267),
            0x877 => Some(MemClockValue::Ddr4333),
            0x898 => Some(MemClockValue::Ddr4400),
            0x8b9 => Some(MemClockValue::Ddr4467),
            0x8db => Some(MemClockValue::Ddr4533),
            0x8fc => Some(MemClockValue::Ddr4600),
            0x91d => Some(MemClockValue::Ddr4667),
            0x93f => Some(MemClockValue::Ddr4733),
            0x960 => Some(MemClockValue::Ddr4800),
            0x981 => Some(MemClockValue::Ddr4867),
            0x9a3 => Some(MemClockValue::Ddr4933),
            0x9c4 => Some(MemClockValue::Ddr5000),
            0x9f6 => Some(MemClockValue::Ddr5100),
            0xa28 => Some(MemClockValue::Ddr5200),
            0xa5a => Some(MemClockValue::Ddr5300),
            0xa8c => Some(MemClockValue::Ddr5400),
            0xabe => Some(MemClockValue::Ddr5500),
            0xaf0 => Some(MemClockValue::Ddr5600),
            0xb22 => Some(MemClockValue::Ddr5700),
            0xb54 => Some(MemClockValue::Ddr5800),
            0xb86 => Some(MemClockValue::Ddr5900),
            0xbb8 => Some(MemClockValue::Ddr6000),
            0xbea => Some(MemClockValue::Ddr6100),
            0xc1c => Some(MemClockValue::Ddr6200),
            0xc4e => Some(MemClockValue::Ddr6300),
            0xc80 => Some(MemClockValue::Ddr6400),
            0xcb2 => Some(MemClockValue::Ddr6500),
            0xce4 => Some(MemClockValue::Ddr6600),
            0xd16 => Some(MemClockValue::Ddr6700),
            0xd48 => Some(MemClockValue::Ddr6800),
            0xd7a => Some(MemClockValue::Ddr6900),
            0xdac => Some(MemClockValue::Ddr7000),
            0xdde => Some(MemClockValue::Ddr7100),
            0xe10 => Some(MemClockValue::Ddr7200),
            0xe42 => Some(MemClockValue::Ddr7300),
            0xe74 => Some(MemClockValue::Ddr7400),
            0xea6 => Some(MemClockValue::Ddr7500),
            0xed8 => Some(MemClockValue::Ddr7600),
            0xf0a => Some(MemClockValue::Ddr7700),
            0xf3c => Some(MemClockValue::Ddr7800),
            0xf6e => Some(MemClockValue::Ddr7900),
            0xfa0 => Some(MemClockValue::Ddr8000),
            0xfd2 => Some(MemClockValue::Ddr8100),
            0x1004 => Some(MemClockValue::Ddr8200),
            0x1036 => Some(MemClockValue::Ddr8300),
            0x1068 => Some(MemClockValue::Ddr8400),
            0x109a => Some(MemClockValue::Ddr8500),
            0x10ab => Some(MemClockValue::Ddr8533),
            0x10cc => Some(MemClockValue::Ddr8600),
            0x10fe => Some(MemClockValue::Ddr8700),
            0x1130 => Some(MemClockValue::Ddr8800),
            0xffffffff => Some(MemClockValue::Auto),
            _ => None,
        }
    }

    pub fn from_u64(value: u64) -> (r: Option<MemClockValue>)
        ensures
            r == MemClockValue::spec_from_u64(value),
    {
        match value {
            0xc8 => Some(MemClockValue::Ddr400),
            0x10a => Some(MemClockValue::Ddr533),
            0x14d => Some(MemClockValue::Ddr667),
            0x190 => Some(MemClockValue::Ddr800),
            0x215 => Some(MemClockValue::Ddr1066),
            0x29b => Some(MemClockValue::Ddr1333),
            0x320 => Some(MemClockValue::Ddr1600),
            0x3a5 => Some(MemClockValue::Ddr1866),
            0x41a => Some(MemClockValue::Ddr2100),
            0x42b => Some(MemClockValue::Ddr2133),
            0x4b0 => Some(MemClockValue::Ddr2400),
            0x535 => Some(MemClockValue::Ddr2667),
            0x578 => Some(MemClockValue::Ddr2800),
            0x5bb => Some(MemClockValue::Ddr2933),
            0x5fd => Some(MemClockValue::Ddr3066),
            0x640 => Some(MemClockValue::Ddr3200),
            0x683 => Some(MemClockValue::Ddr3333),
            0x6c5 => Some(MemClockValue::Ddr3466),
            0x708 => Some(MemClockValue::Ddr3600),
            0x74b => Some(MemClockValue::Ddr3733),
            0x78d => Some(MemClockValue::Ddr3866),
            0x7d0 => Some(MemClockValue::Ddr4000),
            0x834 => Some(MemClockValue::Ddr4200),
            0x855 => Some(MemClockValue::Ddr4267),
            0x877 => Some(MemClockValue::Ddr4333),
            0x898 => Some(MemClockValue::Ddr4400),
            0x8b9 => Some(MemClockValue::Ddr4467),
            0x8db => Some(MemClockValue::Ddr4533),
            0x8fc => Some(MemClockValue::Ddr4600),
            0x91d => Some(MemClockValue::Ddr4667),
            0x93f => Some(MemClockValue::Ddr4733),
            0x960 => Some(MemClockValue::Ddr4800),
            0x981 => Some(MemClockValue::Ddr4867),
            0x9a3 => Some(MemClockValue::Ddr4933),
            0x9c4 => Some(MemClockValue::Ddr5000),
            0x9f6 => Some(MemClockValue::Ddr5100),
            0xa28 => Some(MemClockValue::Ddr5200),
            0xa5a => Some(MemClockValue::Ddr5300),
            0xa8c => Some(MemClockValue::Ddr5400),
            0xabe => Some(MemClockValue::Ddr5500),
            0xaf0 => Some(MemClockValue::Ddr5600),
            0xb22 => Some(MemClockValue::Ddr5700),
            0xb54 => Some(MemClockValue::Ddr5800),
            0xb86 => Some(MemClockValue::Ddr5900),
            0xbb8 => Some(MemClockValue::Ddr6000),
            0xbea => Some(MemClockValue::Ddr6100),
            0xc1c => Some(MemClockValue::Ddr6200),
            0xc4e => Some(MemClockValue::Ddr6300),
            0xc80 => Some(MemClockValue::Ddr6400),
            0xcb2 => Some(MemClockValue::Ddr6500),
            0xce4 => Some(MemClockValue::Ddr6600),
            0xd16 => Some(MemClockValue::Ddr6700),
            0xd48 => Some(MemClockValue::Ddr6800),
            0xd7a => Some(MemClockValue::Ddr6900),
            0xdac => Some(MemClockValue::Ddr7000),
            0xdde => Some(MemClockValue::Ddr7100),
            0xe10 => Some(MemClockValue::Ddr7200),
            0xe42 => Some(MemClockValue::Ddr7300),
            0xe74 => Some(MemClockValue::Ddr7400),
            0xea6 => Some(MemClockValue::Ddr7500),
            0xed8 => Some(MemClockValue::Ddr7600),
            0xf0a => Some(MemClockValue::Ddr7700),
            0xf3c => Some(MemClockValue::Ddr7800),
            0xf6e => Some(MemClockValue::Ddr7900),
            0xfa0 => Some(MemClockValue::Ddr8000),
            0xfd2 => Some(MemClockValue::Ddr8100),
            0x1004 => Some(MemClockValue::Ddr8200),
            0x1036 => Some(MemClockValue::Ddr8300),
            0x1068 => Some(MemClockValue::Ddr8400),
            0x109a => Some(MemClockValue::Ddr8500),
            0x10ab => Some(MemClockValue::Ddr8533),
            0x10cc => Some(MemClockValue::Ddr8600),
            0x10fe => Some(MemClockValue::Ddr8700),
            0x1130 => Some(MemClockValue::Ddr8800),
            0xffffffff => Some(MemClockValue::Auto),
            _ => None,
        }
    }

    pub fn to_u64(&self) -> (r: Option<u64>)
        ensures
            r == Some(self.spec_to_u64()),
    {
        Some(
            match self {
                MemClockValue::Ddr400 => 0xc8,
                MemClockValue::Ddr533 => 0x10a,
                MemClockValue::Ddr667 => 0x14d,
                MemClockValue::Ddr800 => 0x190,
                MemClockValue::Ddr1066 => 0x215,
                MemClockValue::Ddr1333 => 0x29b,
                MemClockValue::Ddr1600 => 0x320,
                MemClockValue::Ddr1866 => 0x3a5,
                MemClockValue::Ddr2100 => 0x41a,
                MemClockValue::Ddr2133 => 0x42b,
                MemClockValue::Ddr2400 => 0x4b0,
                MemClockValue::Ddr2667 => 0x535,
                MemClockValue::Ddr2800 => 0x578,
                MemClockValue::Ddr2933 => 0x5bb,
                MemClockValue::Ddr3066 => 0x5fd,
                MemClockValue::Ddr3200 => 0x640,
                MemClockValue::Ddr3333 => 0x683,
                MemClockValue::Ddr3466 => 0x6c5,
                MemClockValue::Ddr3600 => 0x708,
                MemClockValue::Ddr3733 => 0x74b,
                MemClockValue::Ddr3866 => 0x78d,
                MemClockValue::Ddr4000 => 0x7d0,
                MemClockValue::Ddr4200 => 0x834,
                MemClockValue::Ddr4267 => 0x855,
                MemClockValue::Ddr4333 => 0x877,
                MemClockValue::Ddr4400 => 0x898,
                MemClockValue::Ddr4467 => 0x8b9,
                MemClockValue::Ddr4533 => 0x8db,
                MemClockValue::Ddr4600 => 0x8fc,
                MemClockValue::Ddr4667 => 0x91d,
                MemClockValue::Ddr4733 => 0x93f,
                MemClockValue::Ddr4800 => 0x960,
                MemClockValue::Ddr4867 => 0x981,
                MemClockValue::Ddr4933 => 0x9a3,
                MemClockValue::Ddr5000 => 0x9c4,
                MemClockValue::Ddr5100 => 0x9f6,
                MemClockValue::Ddr5200 => 0xa28,
                MemClockValue::Ddr5300 => 0xa5a,
                MemClockValue::Ddr5400 => 0xa8c,
                MemClockValue::Ddr5500 => 0xabe,
                MemClockValue::Ddr5600 => 0xaf0,
                MemClockValue::Ddr5700 => 0xb22,
                MemClockValue::Ddr5800 => 0xb54,
                MemClockValue::Ddr5900 => 0xb86,
                MemClockValue::Ddr6000 => 0xbb8,
                MemClockValue::Ddr6100 => 0xbea,
                MemClockValue::Ddr6200 => 0xc1c,
                MemClockValue::Ddr6300 => 0xc4e,
                MemClockValue::Ddr6400 => 0xc80,
                MemClockValue::Ddr6500 => 0xcb2,
                MemClockValue::Ddr6600 => 0xce4,
                MemClockValue::Ddr6700 => 0xd16,
                MemClockValue::Ddr6800 => 0xd48,
                MemClockValue::Ddr6900 => 0xd7a,
                MemClockValue::Ddr7000 => 0xdac,
                MemClockValue::Ddr7100 => 0xdde,
                MemClockValue::Ddr7200 => 0xe10,
                MemClockValue::Ddr7300 => 0xe42,
                MemClockValue::Ddr7400 => 0xe74,
                MemClockValue::Ddr7500 => 0xea6,
                MemClockValue::Ddr7600 => 0xed8,
                MemClockValue::Ddr7700 => 0xf0a,
                MemClockValue::Ddr7800 => 0xf3c,
                MemClockValue::Ddr7900 => 0xf6e,
                MemClockValue::Ddr8000 => 0xfa0,
                MemClockValue::Ddr8100 => 0xfd2,
                MemClockValue::Ddr8200 => 0x1004,
                MemClockValue::Ddr8300 => 0x1036,
                MemClockValue::Ddr8400 => 0x1068,
                MemClockValue::Ddr8500 => 0x109a,
                MemClockValue::Ddr8533 => 0x10ab,
                MemClockValue::Ddr8600 => 0x10cc,
                MemClockValue::Ddr8700 => 0x10fe,
                MemClockValue::Ddr8800 => 0x1130,
                MemClockValue::Auto => 0xffffffff,
            },
        )
    }
}

/// Every value of MemClockValue is read back from its own number, and every number that is
/// read as a value is that value's number.
pub proof fn lemma_mem_clock_value_roundtrip(x: MemClockValue, value: u64)
    ensures
        MemClockValue::spec_from_u64(x.spec_to_u64()) == Some(x),
        MemClockValue::spec_from_u64(value) matches Some(y) ==> y.spec_to_u64() == value,
{
}

impl MemClockValue {
    /// What the name of this value says: the data rate, in MT/s (0 for the values that do not name one).
    pub open spec fn spec_data_rate(self) -> int {
        match self {
            MemClockValue::Ddr400 => 400,
            MemClockValue::Ddr533 => 533,
            MemClockValue::Ddr667 => 667,
            MemClockValue::Ddr800 => 800,
            MemClockValue::Ddr1066 => 1066,
            MemClockValue::Ddr1333 => 1333,
            MemClockValue::Ddr1600 => 1600,
            MemClockValue::Ddr1866 => 1866,
            MemClockValue::Ddr2100 => 2100,
            MemClockValue::Ddr2133 => 2133,
            MemClockValue::Ddr2400 => 2400,
            MemClockValue::Ddr2667 => 2667,
            MemClockValue::Ddr2800 => 2800,
            MemClockValue::Ddr2933 => 2933,
            MemClockValue::Ddr3066 => 3066,
            MemClockValue::Ddr3200 => 3200,
            MemClockValue::Ddr3333 => 3333,
            MemClockValue::Ddr3466 => 3466,
            MemClockValue::Ddr3600 => 3600,
            MemClockValue::Ddr3733 => 3733,
            MemClockValue::Ddr3866 => 3866,
            MemClockValue::Ddr4000 => 4000,
            MemClockValue::Ddr4200 => 4200,
            MemClockValue::Ddr4267 => 4267,
            MemClockValue::Ddr4333 => 4333,
            MemClockValue::Ddr4400 => 4400,
            MemClockValue::Ddr4467 => 4467,
            MemClockValue::Ddr4533 => 4533,
            MemClockValue::Ddr4600 => 4600,
            MemClockValue::Ddr4667 => 4667,
            MemClockValue::Ddr4733 => 4733,
            MemClockValue::Ddr4800 => 4800,
            MemClockValue::Ddr4867 => 4867,
            MemClockValue::Ddr4933 => 4933,
            MemClockValue::Ddr5000 => 5000,
            MemClockValue::Ddr5100 => 5100,
            MemClockValue::Ddr5200 => 5200,
            MemClockValue::Ddr5300 => 5300,
            MemClockValue::Ddr5400 => 5400,
            MemClockValue::Ddr5500 => 5500,
            MemClockValue::Ddr5600 => 5600,
            MemClockValue::Ddr5700 => 5700,
            MemClockValue::Ddr5800 => 5800,
            MemClockValue::Ddr5900 => 5900,
            MemClockValue::Ddr6000 => 6000,
            MemClockValue::Ddr6100 => 6100,
            MemClockValue::Ddr6200 => 6200,
            MemClockValue::Ddr6300 => 6300,
            MemClockValue::Ddr6400 => 6400,
            MemClockValue::Ddr6500 => 6500,
            MemClockValue::Ddr6600 => 6600,
            MemClockValue::Ddr6700 => 6700,
            MemClockValue::Ddr6800 => 6800,
            MemClockValue::Ddr6900 => 6900,
            MemClockValue::Ddr7000 => 7000,
            MemClockValue::Ddr7100 => 7100,
            MemClockValue::Ddr7200 => 7200,
            MemClockValue::Ddr7300 => 7300,
            MemClockValue::Ddr7400 => 7400,
            MemClockValue::Ddr7500 => 7500,
            MemClockValue::Ddr7600 => 7600,
            MemClockValue::Ddr7700 => 7700,
            MemClockValue::Ddr7800 => 7800,
            MemClockValue::Ddr7900 => 7900,
            MemClockValue::Ddr8000 => 8000,
            MemClockValue::Ddr8100 => 8100,
            MemClockValue::Ddr8200 => 8200,
            MemClockValue::Ddr8300 => 8300,
            MemClockValue::Ddr8400 => 8400,
            MemClockValue::Ddr8500 => 8500,
            MemClockValue::Ddr8533 => 8533,
            MemClockValue::Ddr8600 => 8600,
            MemClockValue::Ddr8700 => 8700,
            MemClockValue::Ddr8800 => 8800,
            MemClockValue::Auto => 0,
        }
    }
}

/// The number of each speed is its memory clock in MHz: half its data rate, rounded either
/// way by at most a half; each other value has a number of its own.
pub proof fn lemma_mem_clock_value_numbers_follow_names(x: MemClockValue)
    ensures
        (x != MemClockValue::Auto) ==> x.spec_data_rate() - 1 <= 2 * x.spec_to_u64() <= x.spec_data_rate() + 1,
        x == MemClockValue::Auto <==> x.spec_to_u64() == 4294967295,
{
}

#[derive(Debug, PartialEq, Eq, Clone, Copy, Structural)]
pub enum MemHealBistEnable {
    Disabled,
    TestAndRepairAllMemory,
    JedecSelfHealing,
    TestAndRepairAllMemoryAndJedecSelfHealing,
}

impl MemHealBistEnable {
    /// The number that stands for this value.
    pub open spec fn spec_to_u64(self) -> u64 {
        match self {
            MemHealBistEnable::Disabled => 0x0,
            MemHealBistEnable::TestAndRepairAllMemory => 0x1,
            MemHealBistEnable::JedecSelfHealing => 0x2,
            MemHealBistEnable::TestAndRepairAllMemoryAndJedecSelfHealing => 0x3,
        }
    }

    /// The value that VALUE stands for, if any.
    pub open spec fn spec_from_u64(value: u64) -> Option<MemHealBistEnable> {
        match value {
            0x0 => Some(MemHealBistEnable::Disabled),
            0x1 => Some(MemHealBistEnable::TestAndRepairAllMemory),
            0x2 => Some(MemHealBistEnable::JedecSelfHealing),
            0x3 => Some(MemHealBistEnable::TestAndRepairAllMemoryAndJedecSelfHealing),
            _ => None,
        }
    }

    pub fn from_u64(value: u64) -> (r: Option<MemHealBistEnable>)
        ensures
            r == MemHealBistEnable::spec_from_u64(value),
    {
        match value {
            0x0 => Some(MemHealBistEnable::Disabled),
            0x1 => Some(MemHealBistEnable::TestAndRepairAllMemory),
            0x2 => Some(MemHealBistEnable::JedecSelfHealing),
            0x3 => Some(MemHealBistEnable::TestAndRepairAllMemoryAndJedecSelfHealing),
            _ => None,
        }
    }

    pub fn to_u64(&self) -> (r: Option<u64>)
        ensures
            r == Some(self.spec_to_u64()),
    {
        Some(
            match self {
                MemHealBistEnable::Disabled => 0x0,
                MemHealBistEnable::TestAndRepairAllMemory => 0x1,
                MemHealBistEnable::JedecSelfHealing => 0x2,
                MemHealBistEnable::TestAndRepairAllMemoryAndJedecSelfHealing => 0x3,
            },
        )
    }
}

/// Every value of MemHealBistEnable is read back from its own number, and every number that is
/// read as a value is that value's number.
pub proof fn lemma_mem_heal_bist_enable_roundtrip(x: MemHealBistEnable, value: u64)
    ensures
        MemHealBistEnable::spec_from_u64(x.spec_to_u64()) == Some(x),
        MemHealBistEnable::spec_from_u64(value) matches Some(y) ==> y.spec_to_u64() == value,
{
}

#[derive(Debug, PartialEq, Eq, Clone, Copy, Structural)]
pub enum CbsMemSpeedDdr4 {
    Ddr333,
    Ddr400,
    Ddr533,
    Ddr667,
    Ddr800,
    Ddr933,
    Ddr1050,
    Ddr1066,
    Ddr1067,
    Ddr1200,
    Ddr1333,
    Ddr1400,
    Ddr1467,
    Ddr1533,
    Ddr1600,
    Ddr1667,
    Ddr1733,
    Ddr1800,
    Ddr1867,
    Ddr1933,
    Ddr2000,
    Auto,
}

impl CbsMemSpeedDdr4 {
    /// The number that stands for this value.
    pub open spec fn spec_to_u64(self) -> u64 {
        match self {
            CbsMemSpeedDdr4::Ddr333 => 0x4,
            CbsMemSpeedDdr4::Ddr400 => 0x6,
            CbsMemSpeedDdr4::Ddr533 => 0xa,
            CbsMemSpeedDdr4::Ddr667 => 0x14,
            CbsMemSpeedDdr4::Ddr800 => 0x18,
            CbsMemSpeedDdr4::Ddr933 => 0x1c,
            CbsMemSpeedDdr4::Ddr1050 => 0x19,
            CbsMemSpeedDdr4::Ddr1066 => 0x1a,
            CbsMemSpeedDdr4::Ddr1067 => 0x20,
            CbsMemSpeedDdr4::Ddr1200 => 0x24,
            CbsMemSpeedDdr4::Ddr1333 => 0x28,
            CbsMemSpeedDdr4::Ddr1400 => 0x2a,
            CbsMemSpeedDdr4::Ddr1467 => 0x2c,
            CbsMemSpeedDdr4::Ddr1533 => 0x2e,
            CbsMemSpeedDdr4::Ddr1600 => 0x30,
            CbsMemSpeedDdr4::Ddr1667 => 0x32,
            CbsMemSpeedDdr4::Ddr1733 => 0x34,
            CbsMemSpeedDdr4::Ddr1800 => 0x36,
            CbsMemSpeedDdr4::Ddr1867 => 0x38,
            CbsMemSpeedDdr4::Ddr1933 => 0x3a,
            CbsMemSpeedDdr4::Ddr2000 => 0x3c,
            CbsMemSpeedDdr4::Auto => 0xff,
        }
    }

    /// The value that VALUE stands for, if any.
    pub open spec fn spec_from_u64(value: u64) -> Option<CbsMemSpeedDdr4> {
        match value {
            0x4 => Some(CbsMemSpeedDdr4::Ddr333),
            0x6 => Some(CbsMemSpeedDdr4::Ddr400),
            0xa => Some(CbsMemSpeedDdr4::Ddr533),
            0x14 => Some(CbsMemSpeedDdr4::Ddr667),
            0x18 => Some(CbsMemSpeedDdr4::Ddr800),
            0x1c => Some(CbsMemSpeedDdr4::Ddr933),
            0x19 => Some(CbsMemSpeedDdr4::Ddr1050),
            0x1a => Some(CbsMemSpeedDdr4::Ddr1066),
            0x20 => Some(CbsMemSpeedDdr4::Ddr1067),
            0x24 => Some(CbsMemSpeedDdr4::Ddr1200),
            0x28 => Some(CbsMemSpeedDdr4::Ddr1333),
            0x2a => Some(CbsMemSpeedDdr4::Ddr1400),
            0x2c => Some(CbsMemSpeedDdr4::Ddr1467),
            0x2e => Some(CbsMemSpeedDdr4::Ddr1533),
            0x30 => Some(CbsMemSpeedDdr4::Ddr1600),
            0x32 => Some(CbsMemSpeedDdr4::Ddr1667),
            0x34 => Some(CbsMemSpeedDdr4::Ddr1733),
            0x36 => Some(CbsMemSpeedDdr4::Ddr1800),
            0x38 => Some(CbsMemSpeedDdr4::Ddr1867),
            0x3a => Some(CbsMemSpeedDdr4::Ddr1933),
            0x3c => Some(CbsMemSpeedDdr4::Ddr2000),
            0xff => Some(CbsMemSpeedDdr4::Auto),
            _ => None,
        }
    }

    pub fn from_u64(value: u64) -> (r: Option<CbsMemSpeedDdr4>)
        ensures
            r == CbsMemSpeedDdr4::spec_from_u64(value),
    {
        match value {
            0x4 => Some(CbsMemSpeedDdr4::Ddr333),
            0x6 => Some(CbsMemSpeedDdr4::Ddr400),
            0xa => Some(CbsMemSpeedDdr4::Ddr533),
            0x14 => Some(CbsMemSpeedDdr4::Ddr667),
            0x18 => Some(CbsMemSpeedDdr4::Ddr800),
            0x1c => Some(CbsMemSpeedDdr4::Ddr933),
            0x19 => Some(CbsMemSpeedDdr4::Ddr1050),
            0x1a => Some(CbsMemSpeedDdr4::Ddr1066),
            0x20 => Some(CbsMemSpeedDdr4::Ddr1067),
            0x24 => Some(CbsMemSpeedDdr4::Ddr1200),
            0x28 => Some(CbsMemSpeedDdr4::Ddr1333),
            0x2a => Some(CbsMemSpeedDdr4::Ddr1400),
            0x2c => Some(CbsMemSpeedDdr4::Ddr1467),
            0x2e => Some(CbsMemSpeedDdr4::Ddr1533),
            0x30 => Some(CbsMemSpeedDdr4::Ddr1600),
            0x32 => Some(CbsMemSpeedDdr4::Ddr1667),
            0x34 => Some(CbsMemSpeedDdr4::Ddr1733),
            0x36 => Some(CbsMemSpeedDdr4::Ddr1800),
            0x38 => Some(CbsMemSpeedDdr4::Ddr1867),
            0x3a => Some(CbsMemSpeedDdr4::Ddr1933),
            0x3c => Some(CbsMemSpeedDdr4::Ddr2000),
            0xff => Some(CbsMemSpeedDdr4::Auto),
            _ => None,
        }
    }

    pub fn to_u64(&self) -> (r: Option<u64>)
        ensures
            r == Some(self.spec_to_u64()),
    {
        Some(
            match self {
                CbsMemSpeedDdr4::Ddr333 => 0x4,
                CbsMemSpeedDdr4::Ddr400 => 0x6,
                CbsMemSpeedDdr4::Ddr533 => 0xa,
                CbsMemSpeedDdr4::Ddr667 => 0x14,
                CbsMemSpeedDdr4::Ddr800 => 0x18,
                CbsMemSpeedDdr4::Ddr933 => 0x1c,
                CbsMemSpeedDdr4::Ddr1050 => 0x19,
                CbsMemSpeedDdr4::Ddr1066 => 0x1a,
                CbsMemSpeedDdr4::Ddr1067 => 0x20,
                CbsMemSpeedDdr4::Ddr1200 => 0x24,
                CbsMemSpeedDdr4::Ddr1333 => 0x28,
                CbsMemSpeedDdr4::Ddr1400 => 0x2a,
                CbsMemSpeedDdr4::Ddr1467 => 0x2c,
                CbsMemSpeedDdr4::Ddr1533 => 0x2e,
                CbsMemSpeedDdr4::Ddr1600 => 0x30,
                CbsMemSpeedDdr4::Ddr1667 => 0x32,
                CbsMemSpeedDdr4::Ddr1733 => 0x34,
                CbsMemSpeedDdr4::Ddr1800 => 0x36,
                CbsMemSpeedDdr4::Ddr1867 => 0x38,
                CbsMemSpeedDdr4::Ddr1933 => 0x3a,
                CbsMemSpeedDdr4::Ddr2000 => 0x3c,
                CbsMemSpeedDdr4::Auto => 0xff,
            },
        )
    }
}

/// Every value of CbsMemSpeedDdr4 is read back from its own number, and every number that is
/// read as a value is that value's number.
pub proof fn lemma_cbs_mem_speed_ddr4_roundtrip(x: CbsMemSpeedDdr4, value: u64)
    ensures
        CbsMemSpeedDdr4::spec_from_u64(x.spec_to_u64()) == Some(x),
        CbsMemSpeedDdr4::spec_from_u64(value) matches Some(y) ==> y.spec_to_u64() == value,
{
}

#[derive(Debug, PartialEq, Eq, Clone, Copy, Structural)]
pub enum MemTrainingHdtControl {
    DetailedDebugMessages,
    CoarseDebugMessages,
    StageCompletionMessages,
    AssertionMessages,
    FirmwareCompletionMessagesOnly,
    Auto,
}

impl MemTrainingHdtControl {
    /// The number that stands for this value.
    pub open spec fn spec_to_u64(self) -> u64 {
        match self {
            MemTrainingHdtControl::DetailedDebugMessages => 0x4,
            MemTrainingHdtControl::CoarseDebugMessages => 0xa,
            MemTrainingHdtControl::StageCompletionMessages => 0xc8,
            MemTrainingHdtControl::AssertionMessages => 0xc9,
            MemTrainingHdtControl::FirmwareCompletionMessagesOnly => 0xfe,
            MemTrainingHdtControl::Auto => 0xff,
        }
    }

    /// The value that VALUE stands for, if any.
    pub open spec fn spec_from_u64(value: u64) -> Option<MemTrainingHdtControl> {
        match value {
            0x4 => Some(MemTrainingHdtControl::DetailedDebugMessages),
            0xa => Some(MemTrainingHdtControl::CoarseDebugMessages),
            0xc8 => Some(MemTrainingHdtControl::StageCompletionMessages),
            0xc9 => Some(MemTrainingHdtControl::AssertionMessages),
            0xfe => Some(MemTrainingHdtControl::FirmwareCompletionMessagesOnly),
            0xff => Some(MemTrainingHdtControl::Auto),
            _ => None,
        }
    }

    pub fn from_u64(value: u64) -> (r: Option<MemTrainingHdtControl>)
        ensures
            r == MemTrainingHdtControl::spec_from_u64(value),
    {
        match value {
            0x4 => Some(MemTrainingHdtControl::DetailedDebugMessages),
            0xa => Some(MemTrainingHdtControl::CoarseDebugMessages),
            0xc8 => Some(MemTrainingHdtControl::StageCompletionMessages),
            0xc9 => Some(MemTrainingHdtControl::AssertionMessages),
            0xfe => Some(MemTrainingHdtControl::FirmwareCompletionMessagesOnly),
            0xff => Some(MemTrainingHdtControl::Auto),
            _ => None,
        }
    }

    pub fn to_u64(&self) -> (r: Option<u64>)
        ensures
            r == Some(self.spec_to_u64()),
    {
        Some(
            match self {
                MemTrainingHdtControl::DetailedDebugMessages => 0x4,
                MemTrainingHdtControl::CoarseDebugMessages => 0xa,
                MemTrainingHdtControl::StageCompletionMessages => 0xc8,
                MemTrainingHdtControl::AssertionMessages => 0xc9,
                MemTrainingHdtControl::FirmwareCompletionMessagesOnly => 0xfe,
                MemTrainingHdtControl::Auto => 0xff,
            },
        )
    }
}

/// Every value of MemTrainingHdtControl is read back from its own number, and every number that is
/// read as a value is that value's number.
pub proof fn lemma_mem_training_hdt_control_roundtrip(x: MemTrainingHdtControl, value: u64)
    ensures
        MemTrainingHdtControl::spec_from_u64(x.spec_to_u64()) == Some(x),
        MemTrainingHdtControl::spec_from_u64(value) matches Some(y) ==> y.spec_to_u64() == value,
{
}

#[derive(Debug, PartialEq, Eq, Clone, Copy, Structural)]
pub enum PspEnableDebugMode {
    Disabled,
    Enabled,
}

impl PspEnableDebugMode {
    /// The number that stands for this value.
    pub open spec fn spec_to_u64(self) -> u64 {
        match self {
            PspEnableDebugMode::Disabled => 0x0,
            PspEnableDebugMode::Enabled => 0x1,
        }
    }

    /// The value that VALUE stands for, if any.
    pub open spec fn spec_from_u64(value: u64) -> Option<PspEnableDebugMode> {
        match value {
            0x0 => Some(PspEnableDebugMode::Disabled),
            0x1 => Some(PspEnableDebugMode::Enabled),
            _ => None,
        }
    }

    pub fn from_u64(value: u64) -> (r: Option<PspEnableDebugMode>)
        ensures
            r == PspEnableDebugMode::spec_from_u64(value),
    {
        match value {
            0x0 => Some(PspEnableDebugMode::Disabled),
            0x1 => Some(PspEnableDebugMode::Enabled),
            _ => None,
        }
    }

    pub fn to_u64(&self) -> (r: Option<u64>)
        ensures
            r == Some(self.spec_to_u64()),
    {
        Some(
            match self {
                PspEnableDebugMode::Disabled => 0x0,
                PspEnableDebugMode::Enabled => 0x1,
            },
        )
    }
}

/// Every value of PspEnableDebugMode is read back from its own number, and every number that is
/// read as a value is that value's number.
pub proof fn lemma_psp_enable_debug_mode_roundtrip(x: PspEnableDebugMode, value: u64)
    ensures
        PspEnableDebugMode::spec_from_u64(x.spec_to_u64()) == Some(x),
        PspEnableDebugMode::spec_from_u64(value) matches Some(y) ==> y.spec_to_u64() == value,
{
}

#[derive(Debug, PartialEq, Eq, Clone, Copy, Structural)]
pub enum MemPmuTrainingRetryCount {
    _0,
    _1,
    _2,
    _3,
    _4,
    _5,
    _6,
    _7,
    _8,
    _9,
    _10,
}

impl MemPmuTrainingRetryCount {
    /// The number that stands for this value.
    pub open spec fn spec_to_u64(self) -> u64 {
        match self {
            MemPmuTrainingRetryCount::_0 => 0x0,
            MemPmuTrainingRetryCount::_1 => 0x1,
            MemPmuTrainingRetryCount::_2 => 0x2,
            MemPmuTrainingRetryCount::_3 => 0x3,
            MemPmuTrainingRetryCount::_4 => 0x4,
            MemPmuTrainingRetryCount::_5 => 0x5,
            MemPmuTrainingRetryCount::_6 => 0x6,
            MemPmuTrainingRetryCount::_7 => 0x7,
            MemPmuTrainingRetryCount::_8 => 0x8,
            MemPmuTrainingRetryCount::_9 => 0x9,
            MemPmuTrainingRetryCount::_10 => 0xa,
        }
    }

    /// The value that VALUE stands for, if any.
    pub open spec fn spec_from_u64(value: u64) -> Option<MemPmuTrainingRetryCount> {
        match value {
            0x0 => Some(MemPmuTrainingRetryCount::_0),
            0x1 => Some(MemPmuTrainingRetryCount::_1),
            0x2 => Some(MemPmuTrainingRetryCount::_2),
            0x3 => Some(MemPmuTrainingRetryCount::_3),
            0x4 => Some(MemPmuTrainingRetryCount::_4),
            0x5 => Some(MemPmuTrainingRetryCount::_5),
            0x6 => Some(MemPmuTrainingRetryCount::_6),
            0x7 => Some(MemPmuTrainingRetryCount::_7),
            0x8 => Some(MemPmuTrainingRetryCount::_8),
            0x9 => Some(MemPmuTrainingRetryCount::_9),
            0xa => Some(MemPmuTrainingRetryCount::_10),
            _ => None,
        }
    }

    pub fn from_u64(value: u64) -> (r: Option<MemPmuTrainingRetryCount>)
        ensures
            r == MemPmuTrainingRetryCount::spec_from_u64(value),
    {
        match value {
            0x0 => Some(MemPmuTrainingRetryCount::_0),
            0x1 => Some(MemPmuTrainingRetryCount::_1),
            0x2 => Some(MemPmuTrainingRetryCount::_2),
            0x3 => Some(MemPmuTrainingRetryCount::_3),
            0x4 => Some(MemPmuTrainingRetryCount::_4),
            0x5 => Some(MemPmuTrainingRetryCount::_5),
            0x6 => Some(MemPmuTrainingRetryCount::_6),
            0x7 => Some(MemPmuTrainingRetryCount::_7),
            0x8 => Some(MemPmuTrainingRetryCount::_8),
            0x9 => Some(MemPmuTrainingRetryCount::_9),
            0xa => Some(MemPmuTrainingRetryCount::_10),
            _ => None,
        }
    }

    pub fn to_u64(&self) -> (r: Option<u64>)
        ensures
            r == Some(self.spec_to_u64()),
    {
        Some(
            match self {
                MemPmuTrainingRetryCount::_0 => 0x0,
                MemPmuTrainingRetryCount::_1 => 0x1,
                MemPmuTrainingRetryCount::_2 => 0x2,
                MemPmuTrainingRetryCount::_3 => 0x3,
                MemPmuTrainingRetryCount::_4 => 0x4,
                MemPmuTrainingRetryCount::_5 => 0x5,
                MemPmuTrainingRetryCount::_6 => 0x6,
                MemPmuTrainingRetryCount::_7 => 0x7,
                MemPmuTrainingRetryCount::_8 => 0x8,
                MemPmuTrainingRetryCount::_9 => 0x9,
                MemPmuTrainingRetryCount::_10 => 0xa,
            },
        )
    }
}

impl Default for MemPmuTrainingRetryCount {
    fn default() -> (r: Self)
        ensures
            r == MemPmuTrainingRetryCount::_0,
    {
        MemPmuTrainingRetryCount::_0
    }
}

/// Every value of MemPmuTrainingRetryCount is read back from its own number, and every number that is
/// read as a value is that value's number.
pub proof fn lemma_mem_pmu_training_retry_count_roundtrip(x: MemPmuTrainingRetryCount, value: u64)
    ensures
        MemPmuTrainingRetryCount::spec_from_u64(x.spec_to_u64()) == Some(x),
        MemPmuTrainingRetryCount::spec_from_u64(value) matches Some(y) ==> y.spec_to_u64() == value,
{
}

impl MemPmuTrainingRetryCount {
    /// What the name of this value says: the number in its name.
    pub open spec fn spec_named_number(self) -> int {
        match self {
            MemPmuTrainingRetryCount::_0 => 0,
            MemPmuTrainingRetryCount::_1 => 1,
            MemPmuTrainingRetryCount::_2 => 2,
            MemPmuTrainingRetryCount::_3 => 3,
            MemPmuTrainingRetryCount::_4 => 4,
            MemPmuTrainingRetryCount::_5 => 5,
            MemPmuTrainingRetryCount::_6 => 6,
            MemPmuTrainingRetryCount::_7 => 7,
            MemPmuTrainingRetryCount::_8 => 8,
            MemPmuTrainingRetryCount::_9 => 9,
            MemPmuTrainingRetryCount::_10 => 10,
        }
    }
}

/// The number of each value follows from what its name says: 1 times the number is
/// 1 times the named quantity plus 0.
pub proof fn lemma_mem_pmu_training_retry_count_numbers_follow_names(x: MemPmuTrainingRetryCount)
    ensures
        x.spec_to_u64() == x.spec_named_number(),
{
}

#[derive(Debug, PartialEq, Eq, Clone, Copy, Structural)]
pub enum EspiController {
    Controller0,
    Controller1,
}

impl EspiController {
    /// The number that stands for this value.
    pub open spec fn spec_to_u64(self) -> u64 {
        match self {
            EspiController::Controller0 => 0x0,
            EspiController::Controller1 => 0x1,
        }
    }

    /// The value that VALUE stands for, if any.
    pub open spec fn spec_from_u64(value: u64) -> Option<EspiController> {
        match value {
            0x0 => Some(EspiController::Controller0),
            0x1 => Some(EspiController::Controller1),
            _ => None,
        }
    }

    pub fn from_u64(value: u64) -> (r: Option<EspiController>)
        ensures
            r == EspiController::spec_from_u64(value),
    {
        match value {
            0x0 => Some(EspiController::Controller0),
            0x1 => Some(EspiController::Controller1),
            _ => None,
        }
    }

    pub fn to_u64(&self) -> (r: Option<u64>)
        ensures
            r == Some(self.spec_to_u64()),
    {
        Some(
            match self {
                EspiController::Controller0 => 0x0,
                EspiController::Controller1 => 0x1,
            },
        )
    }
}

impl Default for EspiController {
    fn default() -> (r: Self)
        ensures
            r == EspiController::Controller0,
    {
        EspiController::Controller0
    }
}

/// Every value of EspiController is read back from its own number, and every number that is
/// read as a value is that value's number.
pub proof fn lemma_espi_controller_roundtrip(x: EspiController, value: u64)
    ensures
        EspiController::spec_from_u64(x.spec_to_u64()) == Some(x),
        EspiController::spec_from_u64(value) matches Some(y) ==> y.spec_to_u64() == value,
{
}

#[derive(Debug, PartialEq, Eq, Clone, Copy, Structural)]
pub enum GnbAdditionalFeatureDsm {
    Disabled,
    Enabled,
    Auto,
}

impl GnbAdditionalFeatureDsm {
    /// The number that stands for this value.
    pub open spec fn spec_to_u64(self) -> u64 {
        match self {
            GnbAdditionalFeatureDsm::Disabled => 0x0,
            GnbAdditionalFeatureDsm::Enabled => 0x1,
            GnbAdditionalFeatureDsm::Auto => 0xff,
        }
    }

    /// The value that VALUE stands for, if any.
    pub open spec fn spec_from_u64(value: u64) -> Option<GnbAdditionalFeatureDsm> {
        match value {
            0x0 => Some(GnbAdditionalFeatureDsm::Disabled),
            0x1 => Some(GnbAdditionalFeatureDsm::Enabled),
            0xff => Some(GnbAdditionalFeatureDsm::Auto),
            _ => None,
        }
    }

    pub fn from_u64(value: u64) -> (r: Option<GnbAdditionalFeatureDsm>)
        ensures
            r == GnbAdditionalFeatureDsm::spec_from_u64(value),
    {
        match value {
            0x0 => Some(GnbAdditionalFeatureDsm::Disabled),
            0x1 => Some(GnbAdditionalFeatureDsm::Enabled),
            0xff => Some(GnbAdditionalFeatureDsm::Auto),
            _ => None,
        }
    }

    pub fn to_u64(&self) -> (r: Option<u64>)
        ensures
            r == Some(self.spec_to_u64()),
    {
        Some(
            match self {
                GnbAdditionalFeatureDsm::Disabled => 0x0,
                GnbAdditionalFeatureDsm::Enabled => 0x1,
                GnbAdditionalFeatureDsm::Auto => 0xff,
            },
        )
    }
}

/// Every value of GnbAdditionalFeatureDsm is read back from its own number, and every number that is
/// read as a value is that value's number.
pub proof fn lemma_gnb_additional_feature_dsm_roundtrip(x: GnbAdditionalFeatureDsm, value: u64)
    ensures
        GnbAdditionalFeatureDsm::spec_from_u64(x.spec_to_u64()) == Some(x),
        GnbAdditionalFeatureDsm::spec_from_u64(value) matches Some(y) ==> y.spec_to_u64() == value,
{
}

#[derive(Debug, PartialEq, Eq, Clone, Copy, Structural)]
pub enum GnbAdditionalFeatureDsmDetector {
    Disabled,
    Enabled,
    Auto,
}

impl GnbAdditionalFeatureDsmDetector {
    /// The number that stands for this value.
    pub open spec fn spec_to_u64(self) -> u64 {
        match self {
            GnbAdditionalFeatureDsmDetector::Disabled => 0x0,
            GnbAdditionalFeatureDsmDetector::Enabled => 0x1,
            GnbAdditionalFeatureDsmDetector::Auto => 0xff,
        }
    }

    /// The value that VALUE stands for, if any.
    pub open spec fn spec_from_u64(value: u64) -> Option<GnbAdditionalFeatureDsmDetector> {
        match value {
            0x0 => Some(GnbAdditionalFeatureDsmDetector::Disabled),
            0x1 => Some(GnbAdditionalFeatureDsmDetector::Enabled),
            0xff => Some(GnbAdditionalFeatureDsmDetector::Auto),
            _ => None,
        }
    }

    pub fn from_u64(value: u64) -> (r: Option<GnbAdditionalFeatureDsmDetector>)
        ensures
            r == GnbAdditionalFeatureDsmDetector::spec_from_u64(value),
    {
        match value {
            0x0 => Some(GnbAdditionalFeatureDsmDetector::Disabled),
            0x1 => Some(GnbAdditionalFeatureDsmDetector::Enabled),
            0xff => Some(GnbAdditionalFeatureDsmDetector::Auto),
            _ => None,
        }
    }

    pub fn to_u64(&self) -> (r: Option<u64>)
        ensures
            r == Some(self.spec_to_u64()),
    {
        Some(
            match self {
                GnbAdditionalFeatureDsmDetector::Disabled => 0x0,
                GnbAdditionalFeatureDsmDetector::Enabled => 0x1,
                GnbAdditionalFeatureDsmDetector::Auto => 0xff,
            },
        )
    }
}

/// Every value of GnbAdditionalFeatureDsmDetector is read back from its own number, and every number that is
/// read as a value is that value's number.
pub proof fn lemma_gnb_additional_feature_dsm_detector_roundtrip(x: GnbAdditionalFeatureDsmDetector, value: u64)
    ensures
        GnbAdditionalFeatureDsmDetector::spec_from_u64(x.spec_to_u64()) == Some(x),
        GnbAdditionalFeatureDsmDetector::spec_from_u64(value) matches Some(y) ==> y.spec_to_u64() == value,
{
}

#[derive(Debug, PartialEq, Eq, Clone, Copy, Structural)]
pub enum PspSevMode {
    Disabled,
    Enabled,
}

impl PspSevMode {
    /// The number that stands for this value.
    pub open spec fn spec_to_u64(self) -> u64 {
        match self {
            PspSevMode::Disabled => 0x1,
            PspSevMode::Enabled => 0x0,
        }
    }

    /// The value that VALUE stands for, if any.
    pub open spec fn spec_from_u64(value: u64) -> Option<PspSevMode> {
        match value {
            0x1 => Some(PspSevMode::Disabled),
            0x0 => Some(PspSevMode::Enabled),
            _ => None,
        }
    }

    pub fn from_u64(value: u64) -> (r: Option<PspSevMode>)
        ensures
            r == PspSevMode::spec_from_u64(value),
    {
        match value {
            0x1 => Some(PspSevMode::Disabled),
            0x0 => Some(PspSevMode::Enabled),
            _ => None,
        }
    }

    pub fn to_u64(&self) -> (r: Option<u64>)
        ensures
            r == Some(self.spec_to_u64()),
    {
        Some(
            match self {
                PspSevMode::Disabled => 0x1,
                PspSevMode::Enabled => 0x0,
            },
        )
    }
}

/// Every value of PspSevMode is read back from its own number, and every number that is
/// read as a value is that value's number.
pub proof fn lemma_psp_sev_mode_roundtrip(x: PspSevMode, value: u64)
    ensures
        PspSevMode::spec_from_u64(x.spec_to_u64()) == Some(x),
        PspSevMode::spec_from_u64(value) matches Some(y) ==> y.spec_to_u64() == value,
{
}

#[derive(Debug, PartialEq, Eq, Clone, Copy, Structural)]
pub enum PspApmlSbtsiSlaveMode {
    I3c,
    I2c,
}

impl PspApmlSbtsiSlaveMode {
    /// The number that stands for this value.
    pub open spec fn spec_to_u64(self) -> u64 {
        match self {
            PspApmlSbtsiSlaveMode::I3c => 0x0,
            PspApmlSbtsiSlaveMode::I2c => 0x1,
        }
    }

    /// The value that VALUE stands for, if any.
    pub open spec fn spec_from_u64(value: u64) -> Option<PspApmlSbtsiSlaveMode> {
        match value {
            0x0 => Some(PspApmlSbtsiSlaveMode::I3c),
            0x1 => Some(PspApmlSbtsiSlaveMode::I2c),
            _ => None,
        }
    }

    pub fn from_u64(value: u64) -> (r: Option<PspApmlSbtsiSlaveMode>)
        ensures
            r == PspApmlSbtsiSlaveMode::spec_from_u64(value),
    {
        match value {
            0x0 => Some(PspApmlSbtsiSlaveMode::I3c),
            0x1 => Some(PspApmlSbtsiSlaveMode::I2c),
            _ => None,
        }
    }

    pub fn to_u64(&self) -> (r: Option<u64>)
        ensures
            r == Some(self.spec_to_u64()),
    {
        Some(
            match self {
                PspApmlSbtsiSlaveMode::I3c => 0x0,
                PspApmlSbtsiSlaveMode::I2c => 0x1,
            },
        )
    }
}

/// Every value of PspApmlSbtsiSlaveMode is read back from its own number, and every number that is
/// read as a value is that value's number.
pub proof fn lemma_psp_apml_sbtsi_slave_mode_roundtrip(x: PspApmlSbtsiSlaveMode, value: u64)
    ensures
        PspApmlSbtsiSlaveMode::spec_from_u64(x.spec_to_u64()) == Some(x),
        PspApmlSbtsiSlaveMode::spec_from_u64(value) matches Some(y) ==> y.spec_to_u64() == value,
{
}

#[derive(Debug, PartialEq, Eq, Clone, Copy, Structural)]
pub enum MemTccd5ReadCommandSpacingMode {
    Disabled,
    Enabled,
}

impl MemTccd5ReadCommandSpacingMode {
    /// The number that stands for this value.
    pub open spec fn spec_to_u64(self) -> u64 {
        match self {
            MemTccd5ReadCommandSpacingMode::Disabled => 0x1,
            MemTccd5ReadCommandSpacingMode::Enabled => 0x0,
        }
    }

    /// The value that VALUE stands for, if any.
    pub open spec fn spec_from_u64(value: u64) -> Option<MemTccd5ReadCommandSpacingMode> {
        match value {
            0x1 => Some(MemTccd5ReadCommandSpacingMode::Disabled),
            0x0 => Some(MemTccd5ReadCommandSpacingMode::Enabled),
            _ => None,
        }
    }

    pub fn from_u64(value: u64) -> (r: Option<MemTccd5ReadCommandSpacingMode>)
        ensures
            r == MemTccd5ReadCommandSpacingMode::spec_from_u64(value),
    {
        match value {
            0x1 => Some(MemTccd5ReadCommandSpacingMode::Disabled),
            0x0 => Some(MemTccd5ReadCommandSpacingMode::Enabled),
            _ => None,
        }
    }

    pub fn to_u64(&self) -> (r: Option<u64>)
        ensures
            r == Some(self.spec_to_u64()),
    {
        Some(
            match self {
                MemTccd5ReadCommandSpacingMode::Disabled => 0x1,
                MemTccd5ReadCommandSpacingMode::Enabled => 0x0,
            },
        )
    }
}

/// Every value of MemTccd5ReadCommandSpacingMode is read back from its own number, and every number that is
/// read as a value is that value's number.
pub proof fn lemma_mem_tccd5_read_command_spacing_mode_roundtrip(x: MemTccd5ReadCommandSpacingMode, value: u64)
    ensures
        MemTccd5ReadCommandSpacingMode::spec_from_u64(x.spec_to_u64()) == Some(x),
        MemTccd5ReadCommandSpacingMode::spec_from_u64(value) matches Some(y) ==> y.spec_to_u64() == value,
{
}

#[derive(Debug, PartialEq, Eq, Clone, Copy, Structural)]
pub enum ReservedDramModuleDrtmMode {
    Disabled,
    Enabled,
}

impl ReservedDramModuleDrtmMode {
    /// The number that stands for this value.
    pub open spec fn spec_to_u64(self) -> u64 {
        match self {
            ReservedDramModuleDrtmMode::Disabled => 0x0,
            ReservedDramModuleDrtmMode::Enabled => 0x1,
        }
    }

    /// The value that VALUE stands for, if any.
    pub open spec fn spec_from_u64(value: u64) -> Option<ReservedDramModuleDrtmMode> {
        match value {
            0x0 => Some(ReservedDramModuleDrtmMode::Disabled),
            0x1 => Some(ReservedDramModuleDrtmMode::Enabled),
            _ => None,
        }
    }

    pub fn from_u64(value: u64) -> (r: Option<ReservedDramModuleDrtmMode>)
        ensures
            r == ReservedDramModuleDrtmMode::spec_from_u64(value),
    {
        match value {
            0x0 => Some(ReservedDramModuleDrtmMode::Disabled),
            0x1 => Some(ReservedDramModuleDrtmMode::Enabled),
            _ => None,
        }
    }

    pub fn to_u64(&self) -> (r: Option<u64>)
        ensures
            r == Some(self.spec_to_u64()),
    {
        Some(
            match self {
                ReservedDramModuleDrtmMode::Disabled => 0x0,
                ReservedDramModuleDrtmMode::Enabled => 0x1,
            },
        )
    }
}

/// Every value of ReservedDramModuleDrtmMode is read back from its own number, and every number that is
/// read as a value is that value's number.
pub proof fn lemma_reserved_dram_module_drtm_mode_roundtrip(x: ReservedDramModuleDrtmMode, value: u64)
    ensures
        ReservedDramModuleDrtmMode::spec_from_u64(x.spec_to_u64()) == Some(x),
        ReservedDramModuleDrtmMode::spec_from_u64(value) matches Some(y) ==> y.spec_to_u64() == value,
{
}

#[derive(Debug, PartialEq, Eq, Clone, Copy, Structural)]
pub enum DfXgmiPresetControlMode {
    Disabled,
    Enabled,
    Auto,
}

impl DfXgmiPresetControlMode {
    /// The number that stands for this value.
    pub open spec fn spec_to_u64(self) -> u64 {
        match self {
            DfXgmiPresetControlMode::Disabled => 0x0,
            DfXgmiPresetControlMode::Enabled => 0x1,
            DfXgmiPresetControlMode::Auto => 0xff,
        }
    }

    /// The value that VALUE stands for, if any.
    pub open spec fn spec_from_u64(value: u64) -> Option<DfXgmiPresetControlMode> {
        match value {
            0x0 => Some(DfXgmiPresetControlMode::Disabled),
            0x1 => Some(DfXgmiPresetControlMode::Enabled),
            0xff => Some(DfXgmiPresetControlMode::Auto),
            _ => None,
        }
    }

    pub fn from_u64(value: u64) -> (r: Option<DfXgmiPresetControlMode>)
        ensures
            r == DfXgmiPresetControlMode::spec_from_u64(value),
    {
        match value {
            0x0 => Some(DfXgmiPresetControlMode::Disabled),
            0x1 => Some(DfXgmiPresetControlMode::Enabled),
            0xff => Some(DfXgmiPresetControlMode::Auto),
            _ => None,
        }
    }

    pub fn to_u64(&self) -> (r: Option<u64>)
        ensures
            r == Some(self.spec_to_u64()),
    {
        Some(
            match self {
                DfXgmiPresetControlMode::Disabled => 0x0,
                DfXgmiPresetControlMode::Enabled => 0x1,
                DfXgmiPresetControlMode::Auto => 0xff,
            },
        )
    }
}

/// Every value of DfXgmiPresetControlMode is read back from its own number, and every number that is
/// read as a value is that value's number.
pub proof fn lemma_df_xgmi_preset_control_mode_roundtrip(x: DfXgmiPresetControlMode, value: u64)
    ensures
        DfXgmiPresetControlMode::spec_from_u64(x.spec_to_u64()) == Some(x),
        DfXgmiPresetControlMode::spec_from_u64(value) matches Some(y) ==> y.spec_to_u64() == value,
{
}

#[derive(Debug, PartialEq, Eq, Clone, Copy, Structural)]
pub enum MemPmuTrainingResultOutput {
    Disabled,
    Console,
}

impl MemPmuTrainingResultOutput {
    /// The number that stands for this value.
    pub open spec fn spec_to_u64(self) -> u64 {
        match self {
            MemPmuTrainingResultOutput::Disabled => 0x0,
            MemPmuTrainingResultOutput::Console => 0x1,
        }
    }

    /// The value that VALUE stands for, if any.
    pub open spec fn spec_from_u64(value: u64) -> Option<MemPmuTrainingResultOutput> {
        match value {
            0x0 => Some(MemPmuTrainingResultOutput::Disabled),
            0x1 => Some(MemPmuTrainingResultOutput::Console),
            _ => None,
        }
    }

    pub fn from_u64(value: u64) -> (r: Option<MemPmuTrainingResultOutput>)
        ensures
            r == MemPmuTrainingResultOutput::spec_from_u64(value),
    {
        match value {
            0x0 => Some(MemPmuTrainingResultOutput::Disabled),
            0x1 => Some(MemPmuTrainingResultOutput::Console),
            _ => None,
        }
    }

    pub fn to_u64(&self) -> (r: Option<u64>)
        ensures
            r == Some(self.spec_to_u64()),
    {
        Some(
            match self {
                MemPmuTrainingResultOutput::Disabled => 0x0,
                MemPmuTrainingResultOutput::Console => 0x1,
            },
        )
    }
}

/// Every value of MemPmuTrainingResultOutput is read back from its own number, and every number that is
/// read as a value is that value's number.
pub proof fn lemma_mem_pmu_training_result_output_roundtrip(x: MemPmuTrainingResultOutput, value: u64)
    ensures
        MemPmuTrainingResultOutput::spec_from_u64(x.spec_to_u64()) == Some(x),
        MemPmuTrainingResultOutput::spec_from_u64(value) matches Some(y) ==> y.spec_to_u64() == value,
{
}

#[derive(Debug, PartialEq, Eq, Clone, Copy, Structural)]
pub enum MemForcePowerDownThrottleEnable {
    Disabled,
    Enabled,
}

impl MemForcePowerDownThrottleEnable {
    /// The number that stands for this value.
    pub open spec fn spec_to_u64(self) -> u64 {
        match self {
            MemForcePowerDownThrottleEnable::Disabled => 0x0,
            MemForcePowerDownThrottleEnable::Enabled => 0x1,
        }
    }

    /// The value that VALUE stands for, if any.
    pub open spec fn spec_from_u64(value: u64) -> Option<MemForcePowerDownThrottleEnable> {
        match value {
            0x0 => Some(MemForcePowerDownThrottleEnable::Disabled),
            0x1 => Some(MemForcePowerDownThrottleEnable::Enabled),
            _ => None,
        }
    }

    pub fn from_u64(value: u64) -> (r: Option<MemForcePowerDownThrottleEnable>)
        ensures
            r == MemForcePowerDownThrottleEnable::spec_from_u64(value),
    {
        match value {
            0x0 => Some(MemForcePowerDownThrottleEnable::Disabled),
            0x1 => Some(MemForcePowerDownThrottleEnable::Enabled),
            _ => None,
        }
    }

    pub fn to_u64(&self) -> (r: Option<u64>)
        ensures
            r == Some(self.spec_to_u64()),
    {
        Some(
            match self {
                MemForcePowerDownThrottleEnable::Disabled => 0x0,
                MemForcePowerDownThrottleEnable::Enabled => 0x1,
            },
        )
    }
}

/// Every value of MemForcePowerDownThrottleEnable is read back from its own number, and every number that is
/// read as a value is that value's number.
pub proof fn lemma_mem_force_power_down_throttle_enable_roundtrip(x: MemForcePowerDownThrottleEnable, value: u64)
    ensures
        MemForcePowerDownThrottleEnable::spec_from_u64(x.spec_to_u64()) == Some(x),
        MemForcePowerDownThrottleEnable::spec_from_u64(value) matches Some(y) ==> y.spec_to_u64() == value,
{
}

#[derive(Debug, PartialEq, Eq, Clone, Copy, Structural)]
pub enum MemPopulationMsgControlMode {
    Warn,
    Halt,
}

impl MemPopulationMsgControlMode {
    /// The number that stands for this value.
    pub open spec fn spec_to_u64(self) -> u64 {
        match self {
            MemPopulationMsgControlMode::Warn => 0x0,
            MemPopulationMsgControlMode::Halt => 0x1,
        }
    }

    /// The value that VALUE stands for, if any.
    pub open spec fn spec_from_u64(value: u64) -> Option<MemPopulationMsgControlMode> {
        match value {
            0x0 => Some(MemPopulationMsgControlMode::Warn),
            0x1 => Some(MemPopulationMsgControlMode::Halt),
            _ => None,
        }
    }

    pub fn from_u64(value: u64) -> (r: Option<MemPopulationMsgControlMode>)
        ensures
            r == MemPopulationMsgControlMode::spec_from_u64(value),
    {
        match value {
            0x0 => Some(MemPopulationMsgControlMode::Warn),
            0x1 => Some(MemPopulationMsgControlMode::Halt),
            _ => None,
        }
    }

    pub fn to_u64(&self) -> (r: Option<u64>)
        ensures
            r == Some(self.spec_to_u64()),
    {
        Some(
            match self {
                MemPopulationMsgControlMode::Warn => 0x0,
                MemPopulationMsgControlMode::Halt => 0x1,
            },
        )
    }
}

/// Every value of MemPopulationMsgControlMode is read back from its own number, and every number that is
/// read as a value is that value's number.
pub proof fn lemma_mem_population_msg_control_mode_roundtrip(x: MemPopulationMsgControlMode, value: u64)
    ensures
        MemPopulationMsgControlMode::spec_from_u64(x.spec_to_u64()) == Some(x),
        MemPopulationMsgControlMode::spec_from_u64(value) matches Some(y) ==> y.spec_to_u64() == value,
{
}

#[derive(Debug, PartialEq, Eq, Clone, Copy, Structural)]
pub enum MemOdtsCmdThrottleMode {
    Disabled,
    Enabled,
}

impl MemOdtsCmdThrottleMode {
    /// The number that stands for this value.
    pub open spec fn spec_to_u64(self) -> u64 {
        match self {
            MemOdtsCmdThrottleMode::Disabled => 0x0,
            MemOdtsCmdThrottleMode::Enabled => 0x1,
        }
    }

    /// The value that VALUE stands for, if any.
    pub open spec fn spec_from_u64(value: u64) -> Option<MemOdtsCmdThrottleMode> {
        match value {
            0x0 => Some(MemOdtsCmdThrottleMode::Disabled),
            0x1 => Some(MemOdtsCmdThrottleMode::Enabled),
            _ => None,
        }
    }

    pub fn from_u64(value: u64) -> (r: Option<MemOdtsCmdThrottleMode>)
        ensures
            r == MemOdtsCmdThrottleMode::spec_from_u64(value),
    {
        match value {
            0x0 => Some(MemOdtsCmdThrottleMode::Disabled),
            0x1 => Some(MemOdtsCmdThrottleMode::Enabled),
            _ => None,
        }
    }

    pub fn to_u64(&self) -> (r: Option<u64>)
        ensures
            r == Some(self.spec_to_u64()),
    {
        Some(
            match self {
                MemOdtsCmdThrottleMode::Disabled => 0x0,
                MemOdtsCmdThrottleMode::Enabled => 0x1,
            },
        )
    }
}

/// Every value of MemOdtsCmdThrottleMode is read back from its own number, and every number that is
/// read as a value is that value's number.
pub proof fn lemma_mem_odts_cmd_throttle_mode_roundtrip(x: MemOdtsCmdThrottleMode, value: u64)
    ensures
        MemOdtsCmdThrottleMode::spec_from_u64(x.spec_to_u64()) == Some(x),
        MemOdtsCmdThrottleMode::spec_from_u64(value) matches Some(y) ==> y.spec_to_u64() == value,
{
}

#[derive(Debug, PartialEq, Eq, Clone, Copy, Structural)]
pub enum MemRcdParityMode {
    Disabled,
    Enabled,
    Auto,
}

impl MemRcdParityMode {
    /// The number that stands for this value.
    pub open spec fn spec_to_u64(self) -> u64 {
        match self {
            MemRcdParityMode::Disabled => 0x0,
            MemRcdParityMode::Enabled => 0x1,
            MemRcdParityMode::Auto => 0xff,
        }
    }

    /// The value that VALUE stands for, if any.
    pub open spec fn spec_from_u64(value: u64) -> Option<MemRcdParityMode> {
        match value {
            0x0 => Some(MemRcdParityMode::Disabled),
            0x1 => Some(MemRcdParityMode::Enabled),
            0xff => Some(MemRcdParityMode::Auto),
            _ => None,
        }
    }

    pub fn from_u64(value: u64) -> (r: Option<MemRcdParityMode>)
        ensures
            r == MemRcdParityMode::spec_from_u64(value),
    {
        match value {
            0x0 => Some(MemRcdParityMode::Disabled),
            0x1 => Some(MemRcdParityMode::Enabled),
            0xff => Some(MemRcdParityMode::Auto),
            _ => None,
        }
    }

    pub fn to_u64(&self) -> (r: Option<u64>)
        ensures
            r == Some(self.spec_to_u64()),
    {
        Some(
            match self {
                MemRcdParityMode::Disabled => 0x0,
                MemRcdParityMode::Enabled => 0x1,
                MemRcdParityMode::Auto => 0xff,
            },
        )
    }
}

/// Every value of MemRcdParityMode is read back from its own number, and every number that is
/// read as a value is that value's number.
pub proof fn lemma_mem_rcd_parity_mode_roundtrip(x: MemRcdParityMode, value: u64)
    ensures
        MemRcdParityMode::spec_from_u64(x.spec_to_u64()) == Some(x),
        MemRcdParityMode::spec_from_u64(value) matches Some(y) ==> y.spec_to_u64() == value,
{
}

#[derive(Debug, PartialEq, Eq, Clone, Copy, Structural)]
pub enum MemThermalThrottleMode {
    Disabled,
    Enabled,
}

impl MemThermalThrottleMode {
    /// The number that stands for this value.
    pub open spec fn spec_to_u64(self) -> u64 {
        match self {
            MemThermalThrottleMode::Disabled => 0x0,
            MemThermalThrottleMode::Enabled => 0x1,
        }
    }

    /// The value that VALUE stands for, if any.
    pub open spec fn spec_from_u64(value: u64) -> Option<MemThermalThrottleMode> {
        match value {
            0x0 => Some(MemThermalThrottleMode::Disabled),
            0x1 => Some(MemThermalThrottleMode::Enabled),
            _ => None,
        }
    }

    pub fn from_u64(value: u64) -> (r: Option<MemThermalThrottleMode>)
        ensures
            r == MemThermalThrottleMode::spec_from_u64(value),
    {
        match value {
            0x0 => Some(MemThermalThrottleMode::Disabled),
            0x1 => Some(MemThermalThrottleMode::Enabled),
            _ => None,
        }
    }

    pub fn to_u64(&self) -> (r: Option<u64>)
        ensures
            r == Some(self.spec_to_u64()),
    {
        Some(
            match self {
                MemThermalThrottleMode::Disabled => 0x0,
                MemThermalThrottleMode::Enabled => 0x1,
            },
        )
    }
}

/// Every value of MemThermalThrottleMode is read back from its own number, and every number that is
/// read as a value is that value's number.
pub proof fn lemma_mem_thermal_throttle_mode_roundtrip(x: MemThermalThrottleMode, value: u64)
    ensures
        MemThermalThrottleMode::spec_from_u64(x.spec_to_u64()) == Some(x),
        MemThermalThrottleMode::spec_from_u64(value) matches Some(y) ==> y.spec_to_u64() == value,
{
}

#[derive(Debug, PartialEq, Eq, Clone, Copy, Structural)]
pub enum FchI2cSdaHoldOverrideMode {
    IgnoreBoth,
    OverrideBoth,
}

impl FchI2cSdaHoldOverrideMode {
    /// The number that stands for this value.
    pub open spec fn spec_to_u64(self) -> u64 {
        match self {
            FchI2cSdaHoldOverrideMode::IgnoreBoth => 0x0,
            FchI2cSdaHoldOverrideMode::OverrideBoth => 0x1,
        }
    }

    /// The value that VALUE stands for, if any.
    pub open spec fn spec_from_u64(value: u64) -> Option<FchI2cSdaHoldOverrideMode> {
        match value {
            0x0 => Some(FchI2cSdaHoldOverrideMode::IgnoreBoth),
            0x1 => Some(FchI2cSdaHoldOverrideMode::OverrideBoth),
            _ => None,
        }
    }

    pub fn from_u64(value: u64) -> (r: Option<FchI2cSdaHoldOverrideMode>)
        ensures
            r == FchI2cSdaHoldOverrideMode::spec_from_u64(value),
    {
        match value {
            0x0 => Some(FchI2cSdaHoldOverrideMode::IgnoreBoth),
            0x1 => Some(FchI2cSdaHoldOverrideMode::OverrideBoth),
            _ => None,
        }
    }

    pub fn to_u64(&self) -> (r: Option<u64>)
        ensures
            r == Some(self.spec_to_u64()),
    {
        Some(
            match self {
                FchI2cSdaHoldOverrideMode::IgnoreBoth => 0x0,
                FchI2cSdaHoldOverrideMode::OverrideBoth => 0x1,
            },
        )
    }
}

/// Every value of FchI2cSdaHoldOverrideMode is read back from its own number, and every number that is
/// read as a value is that value's number.
pub proof fn lemma_fch_i2c_sda_hold_override_mode_roundtrip(x: FchI2cSdaHoldOverrideMode, value: u64)
    ensures
        FchI2cSdaHoldOverrideMode::spec_from_u64(x.spec_to_u64()) == Some(x),
        FchI2cSdaHoldOverrideMode::spec_from_u64(value) matches Some(y) ==> y.spec_to_u64() == value,
{
}

#[derive(Debug, PartialEq, Eq, Clone, Copy, Structural)]
pub enum FchI3cSdaHoldOverrideMode {
    Disabled,
    Enabled,
}

impl FchI3cSdaHoldOverrideMode {
    /// The number that stands for this value.
    pub open spec fn spec_to_u64(self) -> u64 {
        match self {
            FchI3cSdaHoldOverrideMode::Disabled => 0x0,
            FchI3cSdaHoldOverrideMode::Enabled => 0x1,
        }
    }

    /// The value that VALUE stands for, if any.
    pub open spec fn spec_from_u64(value: u64) -> Option<FchI3cSdaHoldOverrideMode> {
        match value {
            0x0 => Some(FchI3cSdaHoldOverrideMode::Disabled),
            0x1 => Some(FchI3cSdaHoldOverrideMode::Enabled),
            _ => None,
        }
    }

    pub fn from_u64(value: u64) -> (r: Option<FchI3cSdaHoldOverrideMode>)
        ensures
            r == FchI3cSdaHoldOverrideMode::spec_from_u64(value),
    {
        match value {
            0x0 => Some(FchI3cSdaHoldOverrideMode::Disabled),
            0x1 => Some(FchI3cSdaHoldOverrideMode::Enabled),
            _ => None,
        }
    }

    pub fn to_u64(&self) -> (r: Option<u64>)
        ensures
            r == Some(self.spec_to_u64()),
    {
        Some(
            match self {
                FchI3cSdaHoldOverrideMode::Disabled => 0x0,
                FchI3cSdaHoldOverrideMode::Enabled => 0x1,
            },
        )
    }
}

/// Every value of FchI3cSdaHoldOverrideMode is read back from its own number, and every number that is
/// read as a value is that value's number.
pub proof fn lemma_fch_i3c_sda_hold_override_mode_roundtrip(x: FchI3cSdaHoldOverrideMode, value: u64)
    ensures
        FchI3cSdaHoldOverrideMode::spec_from_u64(x.spec_to_u64()) == Some(x),
        FchI3cSdaHoldOverrideMode::spec_from_u64(value) matches Some(y) ==> y.spec_to_u64() == value,
{
}

#[derive(Debug, PartialEq, Eq, Clone, Copy, Structural)]
pub enum FchI2cI3cControllerMode {
    I3c,
    I2c,
}

impl FchI2cI3cControllerMode {
    /// The number that stands for this value.
    pub open spec fn spec_to_u64(self) -> u64 {
        match self {
            FchI2cI3cControllerMode::I3c => 0x0,
            FchI2cI3cControllerMode::I2c => 0x1,
        }
    }

    /// The value that VALUE stands for, if any.
    pub open spec fn spec_from_u64(value: u64) -> Option<FchI2cI3cControllerMode> {
        match value {
            0x0 => Some(FchI2cI3cControllerMode::I3c),
            0x1 => Some(FchI2cI3cControllerMode::I2c),
            _ => None,
        }
    }

    pub fn from_u64(value: u64) -> (r: Option<FchI2cI3cControllerMode>)
        ensures
            r == FchI2cI3cControllerMode::spec_from_u64(value),
    {
        match value {
            0x0 => Some(FchI2cI3cControllerMode::I3c),
            0x1 => Some(FchI2cI3cControllerMode::I2c),
            _ => None,
        }
    }

    pub fn to_u64(&self) -> (r: Option<u64>)
        ensures
            r == Some(self.spec_to_u64()),
    {
        Some(
            match self {
                FchI2cI3cControllerMode::I3c => 0x0,
                FchI2cI3cControllerMode::I2c => 0x1,
            },
        )
    }
}

/// Every value of FchI2cI3cControllerMode is read back from its own number, and every number that is
/// read as a value is that value's number.
pub proof fn lemma_fch_i2c_i3c_controller_mode_roundtrip(x: FchI2cI3cControllerMode, value: u64)
    ensures
        FchI2cI3cControllerMode::spec_from_u64(x.spec_to_u64()) == Some(x),
        FchI2cI3cControllerMode::spec_from_u64(value) matches Some(y) ==> y.spec_to_u64() == value,
{
}

#[derive(Debug, PartialEq, Eq, Clone, Copy, Structural)]
pub enum FchI2cI3cSmbusSelect {
    I3c,
    I2c,
    Smbus,
}

impl FchI2cI3cSmbusSelect {
    /// The number that stands for this value.
    pub open spec fn spec_to_u64(self) -> u64 {
        match self {
            FchI2cI3cSmbusSelect::I3c => 0x0,
            FchI2cI3cSmbusSelect::I2c => 0x1,
            FchI2cI3cSmbusSelect::Smbus => 0x2,
        }
    }

    /// The value that VALUE stands for, if any.
    pub open spec fn spec_from_u64(value: u64) -> Option<FchI2cI3cSmbusSelect> {
        match value {
            0x0 => Some(FchI2cI3cSmbusSelect::I3c),
            0x1 => Some(FchI2cI3cSmbusSelect::I2c),
            0x2 => Some(FchI2cI3cSmbusSelect::Smbus),
            _ => None,
        }
    }

    pub fn from_u64(value: u64) -> (r: Option<FchI2cI3cSmbusSelect>)
        ensures
            r == FchI2cI3cSmbusSelect::spec_from_u64(value),
    {
        match value {
            0x0 => Some(FchI2cI3cSmbusSelect::I3c),
            0x1 => Some(FchI2cI3cSmbusSelect::I2c),
            0x2 => Some(FchI2cI3cSmbusSelect::Smbus),
            _ => None,
        }
    }

    pub fn to_u64(&self) -> (r: Option<u64>)
        ensures
            r == Some(self.spec_to_u64()),
    {
        Some(
            match self {
                FchI2cI3cSmbusSelect::I3c => 0x0,
                FchI2cI3cSmbusSelect::I2c => 0x1,
                FchI2cI3cSmbusSelect::Smbus => 0x2,
            },
        )
    }
}

/// Every value of FchI2cI3cSmbusSelect is read back from its own number, and every number that is
/// read as a value is that value's number.
pub proof fn lemma_fch_i2c_i3c_smbus_select_roundtrip(x: FchI2cI3cSmbusSelect, value: u64)
    ensures
        FchI2cI3cSmbusSelect::spec_from_u64(x.spec_to_u64()) == Some(x),
        FchI2cI3cSmbusSelect::spec_from_u64(value) matches Some(y) ==> y.spec_to_u64() == value,
{
}

#[derive(Debug, PartialEq, Eq, Clone, Copy, Structural)]
pub enum FchI2cMode {
    Disabled,
    Enabled,
}

impl FchI2cMode {
    /// The number that stands for this value.
    pub open spec fn spec_to_u64(self) -> u64 {
        match self {
            FchI2cMode::Disabled => 0x0,
            FchI2cMode::Enabled => 0x1,
        }
    }

    /// The value that VALUE stands for, if any.
    pub open spec fn spec_from_u64(value: u64) -> Option<FchI2cMode> {
        match value {
            0x0 => Some(FchI2cMode::Disabled),
            0x1 => Some(FchI2cMode::Enabled),
            _ => None,
        }
    }

    pub fn from_u64(value: u64) -> (r: Option<FchI2cMode>)
        ensures
            r == FchI2cMode::spec_from_u64(value),
    {
        match value {
            0x0 => Some(FchI2cMode::Disabled),
            0x1 => Some(FchI2cMode::Enabled),
            _ => None,
        }
    }

    pub fn to_u64(&self) -> (r: Option<u64>)
        ensures
            r == Some(self.spec_to_u64()),
    {
        Some(
            match self {
                FchI2cMode::Disabled => 0x0,
                FchI2cMode::Enabled => 0x1,
            },
        )
    }
}

/// Every value of FchI2cMode is read back from its own number, and every number that is
/// read as a value is that value's number.
pub proof fn lemma_fch_i2c_mode_roundtrip(x: FchI2cMode, value: u64)
    ensures
        FchI2cMode::spec_from_u64(x.spec_to_u64()) == Some(x),
        FchI2cMode::spec_from_u64(value) matches Some(y) ==> y.spec_to_u64() == value,
{
}

#[derive(Debug, PartialEq, Eq, Clone, Copy, Structural)]
pub enum FchSpdControlOwnershipMode {
    Linked,
    Separate,
}

impl FchSpdControlOwnershipMode {
    /// The number that stands for this value.
    pub open spec fn spec_to_u64(self) -> u64 {
        match self {
            FchSpdControlOwnershipMode::Linked => 0x0,
            FchSpdControlOwnershipMode::Separate => 0x1,
        }
    }

    /// The value that VALUE stands for, if any.
    pub open spec fn spec_from_u64(value: u64) -> Option<FchSpdControlOwnershipMode> {
        match value {
            0x0 => Some(FchSpdControlOwnershipMode::Linked),
            0x1 => Some(FchSpdControlOwnershipMode::Separate),
            _ => None,
        }
    }

    pub fn from_u64(value: u64) -> (r: Option<FchSpdControlOwnershipMode>)
        ensures
            r == FchSpdControlOwnershipMode::spec_from_u64(value),
    {
        match value {
            0x0 => Some(FchSpdControlOwnershipMode::Linked),
            0x1 => Some(FchSpdControlOwnershipMode::Separate),
            _ => None,
        }
    }

    pub fn to_u64(&self) -> (r: Option<u64>)
        ensures
            r == Some(self.spec_to_u64()),
    {
        Some(
            match self {
                FchSpdControlOwnershipMode::Linked => 0x0,
                FchSpdControlOwnershipMode::Separate => 0x1,
            },
        )
    }
}

/// Every value of FchSpdControlOwnershipMode is read back from its own number, and every number that is
/// read as a value is that value's number.
pub proof fn lemma_fch_spd_control_ownership_mode_roundtrip(x: FchSpdControlOwnershipMode, value: u64)
    ensures
        FchSpdControlOwnershipMode::spec_from_u64(x.spec_to_u64()) == Some(x),
        FchSpdControlOwnershipMode::spec_from_u64(value) matches Some(y) ==> y.spec_to_u64() == value,
{
}

#[derive(Debug, PartialEq, Eq, Clone, Copy, Structural)]
pub enum DfP2pOrderedWrites {
    Enabled,
    Disabled,
}

impl DfP2pOrderedWrites {
    /// The number that stands for this value.
    pub open spec fn spec_to_u64(self) -> u64 {
        match self {
            DfP2pOrderedWrites::Enabled => 0x0,
            DfP2pOrderedWrites::Disabled => 0x1,
        }
    }

    /// The value that VALUE stands for, if any.
    pub open spec fn spec_from_u64(value: u64) -> Option<DfP2pOrderedWrites> {
        match value {
            0x0 => Some(DfP2pOrderedWrites::Enabled),
            0x1 => Some(DfP2pOrderedWrites::Disabled),
            _ => None,
        }
    }

    pub fn from_u64(value: u64) -> (r: Option<DfP2pOrderedWrites>)
        ensures
            r == DfP2pOrderedWrites::spec_from_u64(value),
    {
        match value {
            0x0 => Some(DfP2pOrderedWrites::Enabled),
            0x1 => Some(DfP2pOrderedWrites::Disabled),
            _ => None,
        }
    }

    pub fn to_u64(&self) -> (r: Option<u64>)
        ensures
            r == Some(self.spec_to_u64()),
    {
        Some(
            match self {
                DfP2pOrderedWrites::Enabled => 0x0,
                DfP2pOrderedWrites::Disabled => 0x1,
            },
        )
    }
}

/// Every value of DfP2pOrderedWrites is read back from its own number, and every number that is
/// read as a value is that value's number.
pub proof fn lemma_df_p2p_ordered_writes_roundtrip(x: DfP2pOrderedWrites, value: u64)
    ensures
        DfP2pOrderedWrites::spec_from_u64(x.spec_to_u64()) == Some(x),
        DfP2pOrderedWrites::spec_from_u64(value) matches Some(y) ==> y.spec_to_u64() == value,
{
}

#[derive(Debug, PartialEq, Eq, Clone, Copy, Structural)]
pub enum MemMbistDdrMode {
    Disabled,
    Enabled,
    Auto,
}

impl MemMbistDdrMode {
    /// The number that stands for this value.
    pub open spec fn spec_to_u64(self) -> u64 {
        match self {
            MemMbistDdrMode::Disabled => 0x0,
            MemMbistDdrMode::Enabled => 0x1,
            MemMbistDdrMode::Auto => 0xff,
        }
    }

    /// The value that VALUE stands for, if any.
    pub open spec fn spec_from_u64(value: u64) -> Option<MemMbistDdrMode> {
        match value {
            0x0 => Some(MemMbistDdrMode::Disabled),
            0x1 => Some(MemMbistDdrMode::Enabled),
            0xff => Some(MemMbistDdrMode::Auto),
            _ => None,
        }
    }

    pub fn from_u64(value: u64) -> (r: Option<MemMbistDdrMode>)
        ensures
            r == MemMbistDdrMode::spec_from_u64(value),
    {
        match value {
            0x0 => Some(MemMbistDdrMode::Disabled),
            0x1 => Some(MemMbistDdrMode::Enabled),
            0xff => Some(MemMbistDdrMode::Auto),
            _ => None,
        }
    }

    pub fn to_u64(&self) -> (r: Option<u64>)
        ensures
            r == Some(self.spec_to_u64()),
    {
        Some(
            match self {
                MemMbistDdrMode::Disabled => 0x0,
                MemMbistDdrMode::Enabled => 0x1,
                MemMbistDdrMode::Auto => 0xff,
            },
        )
    }
}

/// Every value of MemMbistDdrMode is read back from its own number, and every number that is
/// read as a value is that value's number.
pub proof fn lemma_mem_mbist_ddr_mode_roundtrip(x: MemMbistDdrMode, value: u64)
    ensures
        MemMbistDdrMode::spec_from_u64(x.spec_to_u64()) == Some(x),
        MemMbistDdrMode::spec_from_u64(value) matches Some(y) ==> y.spec_to_u64() == value,
{
}

#[derive(Debug, PartialEq, Eq, Clone, Copy, Structural)]
pub enum MemMbistAggressorsChannelDdrMode {
    SubChannel,
    Half,
    All,
}

impl MemMbistAggressorsChannelDdrMode {
    /// The number that stands for this value.
    pub open spec fn spec_to_u64(self) -> u64 {
        match self {
            MemMbistAggressorsChannelDdrMode::SubChannel => 0x0,
            MemMbistAggressorsChannelDdrMode::Half => 0x1,
            MemMbistAggressorsChannelDdrMode::All => 0x2,
        }
    }

    /// The value that VALUE stands for, if any.
    pub open spec fn spec_from_u64(value: u64) -> Option<MemMbistAggressorsChannelDdrMode> {
        match value {
            0x0 => Some(MemMbistAggressorsChannelDdrMode::SubChannel),
            0x1 => Some(MemMbistAggressorsChannelDdrMode::Half),
            0x2 => Some(MemMbistAggressorsChannelDdrMode::All),
            _ => None,
        }
    }

    pub fn from_u64(value: u64) -> (r: Option<MemMbistAggressorsChannelDdrMode>)
        ensures
            r == MemMbistAggressorsChannelDdrMode::spec_from_u64(value),
    {
        match value {
            0x0 => Some(MemMbistAggressorsChannelDdrMode::SubChannel),
            0x1 => Some(MemMbistAggressorsChannelDdrMode::Half),
            0x2 => Some(MemMbistAggressorsChannelDdrMode::All),
            _ => None,
        }
    }

    pub fn to_u64(&self) -> (r: Option<u64>)
        ensures
            r == Some(self.spec_to_u64()),
    {
        Some(
            match self {
                MemMbistAggressorsChannelDdrMode::SubChannel => 0x0,
                MemMbistAggressorsChannelDdrMode::Half => 0x1,
                MemMbistAggressorsChannelDdrMode::All => 0x2,
            },
        )
    }
}

/// Every value of MemMbistAggressorsChannelDdrMode is read back from its own number, and every number that is
/// read as a value is that value's number.
pub proof fn lemma_mem_mbist_aggressors_channel_ddr_mode_roundtrip(x: MemMbistAggressorsChannelDdrMode, value: u64)
    ensures
        MemMbistAggressorsChannelDdrMode::spec_from_u64(x.spec_to_u64()) == Some(x),
        MemMbistAggressorsChannelDdrMode::spec_from_u64(value) matches Some(y) ==> y.spec_to_u64() == value,
{
}

#[derive(Debug, PartialEq, Eq, Clone, Copy, Structural)]
pub enum MemMbistPerBitSlaveDieReportDdr {
    Disabled,
    Enabled,
    Auto,
}

impl MemMbistPerBitSlaveDieReportDdr {
    /// The number that stands for this value.
    pub open spec fn spec_to_u64(self) -> u64 {
        match self {
            MemMbistPerBitSlaveDieReportDdr::Disabled => 0x0,
            MemMbistPerBitSlaveDieReportDdr::Enabled => 0x1,
            MemMbistPerBitSlaveDieReportDdr::Auto => 0xff,
        }
    }

    /// The value that VALUE stands for, if any.
    pub open spec fn spec_from_u64(value: u64) -> Option<MemMbistPerBitSlaveDieReportDdr> {
        match value {
            0x0 => Some(MemMbistPerBitSlaveDieReportDdr::Disabled),
            0x1 => Some(MemMbistPerBitSlaveDieReportDdr::Enabled),
            0xff => Some(MemMbistPerBitSlaveDieReportDdr::Auto),
            _ => None,
        }
    }

    pub fn from_u64(value: u64) -> (r: Option<MemMbistPerBitSlaveDieReportDdr>)
        ensures
            r == MemMbistPerBitSlaveDieReportDdr::spec_from_u64(value),
    {
        match value {
            0x0 => Some(MemMbistPerBitSlaveDieReportDdr::Disabled),
            0x1 => Some(MemMbistPerBitSlaveDieReportDdr::Enabled),
            0xff => Some(MemMbistPerBitSlaveDieReportDdr::Auto),
            _ => None,
        }
    }

    pub fn to_u64(&self) -> (r: Option<u64>)
        ensures
            r == Some(self.spec_to_u64()),
    {
        Some(
            match self {
                MemMbistPerBitSlaveDieReportDdr::Disabled => 0x0,
                MemMbistPerBitSlaveDieReportDdr::Enabled => 0x1,
                MemMbistPerBitSlaveDieReportDdr::Auto => 0xff,
            },
        )
    }
}

/// Every value of MemMbistPerBitSlaveDieReportDdr is read back from its own number, and every number that is
/// read as a value is that value's number.
pub proof fn lemma_mem_mbist_per_bit_slave_die_report_ddr_roundtrip(x: MemMbistPerBitSlaveDieReportDdr, value: u64)
    ensures
        MemMbistPerBitSlaveDieReportDdr::spec_from_u64(x.spec_to_u64()) == Some(x),
        MemMbistPerBitSlaveDieReportDdr::spec_from_u64(value) matches Some(y) ==> y.spec_to_u64() == value,
{
}

#[derive(Debug, PartialEq, Eq, Clone, Copy, Structural)]
pub enum MemMbistDataEyeSilentExecutionDdr {
    Disabled,
    Enabled,
}

impl MemMbistDataEyeSilentExecutionDdr {
    /// The number that stands for this value.
    pub open spec fn spec_to_u64(self) -> u64 {
        match self {
            MemMbistDataEyeSilentExecutionDdr::Disabled => 0x0,
            MemMbistDataEyeSilentExecutionDdr::Enabled => 0x1,
        }
    }

    /// The value that VALUE stands for, if any.
    pub open spec fn spec_from_u64(value: u64) -> Option<MemMbistDataEyeSilentExecutionDdr> {
        match value {
            0x0 => Some(MemMbistDataEyeSilentExecutionDdr::Disabled),
            0x1 => Some(MemMbistDataEyeSilentExecutionDdr::Enabled),
            _ => None,
        }
    }

    pub fn from_u64(value: u64) -> (r: Option<MemMbistDataEyeSilentExecutionDdr>)
        ensures
            r == MemMbistDataEyeSilentExecutionDdr::spec_from_u64(value),
    {
        match value {
            0x0 => Some(MemMbistDataEyeSilentExecutionDdr::Disabled),
            0x1 => Some(MemMbistDataEyeSilentExecutionDdr::Enabled),
            _ => None,
        }
    }

    pub fn to_u64(&self) -> (r: Option<u64>)
        ensures
            r == Some(self.spec_to_u64()),
    {
        Some(
            match self {
                MemMbistDataEyeSilentExecutionDdr::Disabled => 0x0,
                MemMbistDataEyeSilentExecutionDdr::Enabled => 0x1,
            },
        )
    }
}

/// Every value of MemMbistDataEyeSilentExecutionDdr is read back from its own number, and every number that is
/// read as a value is that value's number.
pub proof fn lemma_mem_mbist_data_eye_silent_execution_ddr_roundtrip(x: MemMbistDataEyeSilentExecutionDdr, value: u64)
    ensures
        MemMbistDataEyeSilentExecutionDdr::spec_from_u64(x.spec_to_u64()) == Some(x),
        MemMbistDataEyeSilentExecutionDdr::spec_from_u64(value) matches Some(y) ==> y.spec_to_u64() == value,
{
}

#[derive(Debug, PartialEq, Eq, Clone, Copy, Structural)]
pub enum MemSelfHealing {
    Disabled,
    Pmu,
    SelfHealing,
    Both,
}

impl MemSelfHealing {
    /// The number that stands for this value.
    pub open spec fn spec_to_u64(self) -> u64 {
        match self {
            MemSelfHealing::Disabled => 0x0,
            MemSelfHealing::Pmu => 0x1,
            MemSelfHealing::SelfHealing => 0x2,
            MemSelfHealing::Both => 0x3,
        }
    }

    /// The value that VALUE stands for, if any.
    pub open spec fn spec_from_u64(value: u64) -> Option<MemSelfHealing> {
        match value {
            0x0 => Some(MemSelfHealing::Disabled),
            0x1 => Some(MemSelfHealing::Pmu),
            0x2 => Some(MemSelfHealing::SelfHealing),
            0x3 => Some(MemSelfHealing::Both),
            _ => None,
        }
    }

    pub fn from_u64(value: u64) -> (r: Option<MemSelfHealing>)
        ensures
            r == MemSelfHealing::spec_from_u64(value),
    {
        match value {
            0x0 => Some(MemSelfHealing::Disabled),
            0x1 => Some(MemSelfHealing::Pmu),
            0x2 => Some(MemSelfHealing::SelfHealing),
            0x3 => Some(MemSelfHealing::Both),
            _ => None,
        }
    }

    pub fn to_u64(&self) -> (r: Option<u64>)
        ensures
            r == Some(self.spec_to_u64()),
    {
        Some(
            match self {
                MemSelfHealing::Disabled => 0x0,
                MemSelfHealing::Pmu => 0x1,
                MemSelfHealing::SelfHealing => 0x2,
                MemSelfHealing::Both => 0x3,
            },
        )
    }
}

/// Every value of MemSelfHealing is read back from its own number, and every number that is
/// read as a value is that value's number.
pub proof fn lemma_mem_self_healing_roundtrip(x: MemSelfHealing, value: u64)
    ensures
        MemSelfHealing::spec_from_u64(x.spec_to_u64()) == Some(x),
        MemSelfHealing::spec_from_u64(value) matches Some(y) ==> y.spec_to_u64() == value,
{
}

#[derive(Debug, PartialEq, Eq, Clone, Copy, Structural)]
pub enum BdatSupport {
    Disabled,
    Enabled,
}

impl BdatSupport {
    /// The number that stands for this value.
    pub open spec fn spec_to_u64(self) -> u64 {
        match self {
            BdatSupport::Disabled => 0x0,
            BdatSupport::Enabled => 0x1,
        }
    }

    /// The value that VALUE stands for, if any.
    pub open spec fn spec_from_u64(value: u64) -> Option<BdatSupport> {
        match value {
            0x0 => Some(BdatSupport::Disabled),
            0x1 => Some(BdatSupport::Enabled),
            _ => None,
        }
    }

    pub fn from_u64(value: u64) -> (r: Option<BdatSupport>)
        ensures
            r == BdatSupport::spec_from_u64(value),
    {
        match value {
            0x0 => Some(BdatSupport::Disabled),
            0x1 => Some(BdatSupport::Enabled),
            _ => None,
        }
    }

    pub fn to_u64(&self) -> (r: Option<u64>)
        ensures
            r == Some(self.spec_to_u64()),
    {
        Some(
            match self {
                BdatSupport::Disabled => 0x0,
                BdatSupport::Enabled => 0x1,
            },
        )
    }
}

/// Every value of BdatSupport is read back from its own number, and every number that is
/// read as a value is that value's number.
pub proof fn lemma_bdat_support_roundtrip(x: BdatSupport, value: u64)
    ensures
        BdatSupport::spec_from_u64(x.spec_to_u64()) == Some(x),
        BdatSupport::spec_from_u64(value) matches Some(y) ==> y.spec_to_u64() == value,
{
}

#[derive(Debug, PartialEq, Eq, Clone, Copy, Structural)]
pub enum BdatPrintData {
    Disabled,
    Enabled,
}

impl BdatPrintData {
    /// The number that stands for this value.
    pub open spec fn spec_to_u64(self) -> u64 {
        match self {
            BdatPrintData::Disabled => 0x0,
            BdatPrintData::Enabled => 0x1,
        }
    }

    /// The value that VALUE stands for, if any.
    pub open spec fn spec_from_u64(value: u64) -> Option<BdatPrintData> {
        match value {
            0x0 => Some(BdatPrintData::Disabled),
            0x1 => Some(BdatPrintData::Enabled),
            _ => None,
        }
    }

    pub fn from_u64(value: u64) -> (r: Option<BdatPrintData>)
        ensures
            r == BdatPrintData::spec_from_u64(value),
    {
        match value {
            0x0 => Some(BdatPrintData::Disabled),
            0x1 => Some(BdatPrintData::Enabled),
            _ => None,
        }
    }

    pub fn to_u64(&self) -> (r: Option<u64>)
        ensures
            r == Some(self.spec_to_u64()),
    {
        Some(
            match self {
                BdatPrintData::Disabled => 0x0,
                BdatPrintData::Enabled => 0x1,
            },
        )
    }
}

/// Every value of BdatPrintData is read back from its own number, and every number that is
/// read as a value is that value's number.
pub proof fn lemma_bdat_print_data_roundtrip(x: BdatPrintData, value: u64)
    ensures
        BdatPrintData::spec_from_u64(x.spec_to_u64()) == Some(x),
        BdatPrintData::spec_from_u64(value) matches Some(y) ==> y.spec_to_u64() == value,
{
}

#[derive(Debug, PartialEq, Eq, Clone, Copy, Structural)]
pub enum DfPdrTuningMode {
    MemorySensity,
    CacheBound,
    Neutral,
    Adaptive,
    Auto,
}

impl DfPdrTuningMode {
    /// The number that stands for this value.
    pub open spec fn spec_to_u64(self) -> u64 {
        match self {
            DfPdrTuningMode::MemorySensity => 0x0,
            DfPdrTuningMode::CacheBound => 0x1,
            DfPdrTuningMode::Neutral => 0x2,
            DfPdrTuningMode::Adaptive => 0x3,
            DfPdrTuningMode::Auto => 0xff,
        }
    }

    /// The value that VALUE stands for, if any.
    pub open spec fn spec_from_u64(value: u64) -> Option<DfPdrTuningMode> {
        match value {
            0x0 => Some(DfPdrTuningMode::MemorySensity),
            0x1 => Some(DfPdrTuningMode::CacheBound),
            0x2 => Some(DfPdrTuningMode::Neutral),
            0x3 => Some(DfPdrTuningMode::Adaptive),
            0xff => Some(DfPdrTuningMode::Auto),
            _ => None,
        }
    }

    pub fn from_u64(value: u64) -> (r: Option<DfPdrTuningMode>)
        ensures
            r == DfPdrTuningMode::spec_from_u64(value),
    {
        match value {
            0x0 => Some(DfPdrTuningMode::MemorySensity),
            0x1 => Some(DfPdrTuningMode::CacheBound),
            0x2 => Some(DfPdrTuningMode::Neutral),
            0x3 => Some(DfPdrTuningMode::Adaptive),
            0xff => Some(DfPdrTuningMode::Auto),
            _ => None,
        }
    }

    pub fn to_u64(&self) -> (r: Option<u64>)
        ensures
            r == Some(self.spec_to_u64()),
    {
        Some(
            match self {
                DfPdrTuningMode::MemorySensity => 0x0,
                DfPdrTuningMode::CacheBound => 0x1,
                DfPdrTuningMode::Neutral => 0x2,
                DfPdrTuningMode::Adaptive => 0x3,
                DfPdrTuningMode::Auto => 0xff,
            },
        )
    }
}

/// Every value of DfPdrTuningMode is read back from its own number, and every number that is
/// read as a value is that value's number.
pub proof fn lemma_df_pdr_tuning_mode_roundtrip(x: DfPdrTuningMode, value: u64)
    ensures
        DfPdrTuningMode::spec_from_u64(x.spec_to_u64()) == Some(x),
        DfPdrTuningMode::spec_from_u64(value) matches Some(y) ==> y.spec_to_u64() == value,
{
}

#[derive(Debug, PartialEq, Eq, Clone, Copy, Structural)]
pub enum DfPdrMode {
    All,
    Selective,
}

impl DfPdrMode {
    /// The number that stands for this value.
    pub open spec fn spec_to_u64(self) -> u64 {
        match self {
            DfPdrMode::All => 0x0,
            DfPdrMode::Selective => 0x1,
        }
    }

    /// The value that VALUE stands for, if any.
    pub open spec fn spec_from_u64(value: u64) -> Option<DfPdrMode> {
        match value {
            0x0 => Some(DfPdrMode::All),
            0x1 => Some(DfPdrMode::Selective),
            _ => None,
        }
    }

    pub fn from_u64(value: u64) -> (r: Option<DfPdrMode>)
        ensures
            r == DfPdrMode::spec_from_u64(value),
    {
        match value {
            0x0 => Some(DfPdrMode::All),
            0x1 => Some(DfPdrMode::Selective),
            _ => None,
        }
    }

    pub fn to_u64(&self) -> (r: Option<u64>)
        ensures
            r == Some(self.spec_to_u64()),
    {
        Some(
            match self {
                DfPdrMode::All => 0x0,
                DfPdrMode::Selective => 0x1,
            },
        )
    }
}

/// Every value of DfPdrMode is read back from its own number, and every number that is
/// read as a value is that value's number.
pub proof fn lemma_df_pdr_mode_roundtrip(x: DfPdrMode, value: u64)
    ensures
        DfPdrMode::spec_from_u64(x.spec_to_u64()) == Some(x),
        DfPdrMode::spec_from_u64(value) matches Some(y) ==> y.spec_to_u64() == value,
{
}

#[derive(Debug, PartialEq, Eq, Clone, Copy, Structural)]
pub enum DfXgmiAcDcMode {
    AcCoupled,
    DcCoupled,
}

impl DfXgmiAcDcMode {
    /// The number that stands for this value.
    pub open spec fn spec_to_u64(self) -> u64 {
        match self {
            DfXgmiAcDcMode::AcCoupled => 0x0,
            DfXgmiAcDcMode::DcCoupled => 0x1,
        }
    }

    /// The value that VALUE stands for, if any.
    pub open spec fn spec_from_u64(value: u64) -> Option<DfXgmiAcDcMode> {
        match value {
            0x0 => Some(DfXgmiAcDcMode::AcCoupled),
            0x1 => Some(DfXgmiAcDcMode::DcCoupled),
            _ => None,
        }
    }

    pub fn from_u64(value: u64) -> (r: Option<DfXgmiAcDcMode>)
        ensures
            r == DfXgmiAcDcMode::spec_from_u64(value),
    {
        match value {
            0x0 => Some(DfXgmiAcDcMode::AcCoupled),
            0x1 => Some(DfXgmiAcDcMode::DcCoupled),
            _ => None,
        }
    }

    pub fn to_u64(&self) -> (r: Option<u64>)
        ensures
            r == Some(self.spec_to_u64()),
    {
        Some(
            match self {
                DfXgmiAcDcMode::AcCoupled => 0x0,
                DfXgmiAcDcMode::DcCoupled => 0x1,
            },
        )
    }
}

impl Default for DfXgmiAcDcMode {
    fn default() -> (r: Self)
        ensures
            r == DfXgmiAcDcMode::DcCoupled,
    {
        DfXgmiAcDcMode::DcCoupled
    }
}

/// Every value of DfXgmiAcDcMode is read back from its own number, and every number that is
/// read as a value is that value's number.
pub proof fn lemma_df_xgmi_ac_dc_mode_roundtrip(x: DfXgmiAcDcMode, value: u64)
    ensures
        DfXgmiAcDcMode::spec_from_u64(x.spec_to_u64()) == Some(x),
        DfXgmiAcDcMode::spec_from_u64(value) matches Some(y) ==> y.spec_to_u64() == value,
{
}

#[derive(Debug, PartialEq, Eq, Clone, Copy, Structural)]
pub enum FchMp1WarnRstAckMode {
    Enable,
    Disable,
    Auto,
}

impl FchMp1WarnRstAckMode {
    /// The number that stands for this value.
    pub open spec fn spec_to_u64(self) -> u64 {
        match self {
            FchMp1WarnRstAckMode::Enable => 0x0,
            FchMp1WarnRstAckMode::Disable => 0x1,
            FchMp1WarnRstAckMode::Auto => 0xff,
        }
    }

    /// The value that VALUE stands for, if any.
    pub open spec fn spec_from_u64(value: u64) -> Option<FchMp1WarnRstAckMode> {
        match value {
            0x0 => Some(FchMp1WarnRstAckMode::Enable),
            0x1 => Some(FchMp1WarnRstAckMode::Disable),
            0xff => Some(FchMp1WarnRstAckMode::Auto),
            _ => None,
        }
    }

    pub fn from_u64(value: u64) -> (r: Option<FchMp1WarnRstAckMode>)
        ensures
            r == FchMp1WarnRstAckMode::spec_from_u64(value),
    {
        match value {
            0x0 => Some(FchMp1WarnRstAckMode::Enable),
            0x1 => Some(FchMp1WarnRstAckMode::Disable),
            0xff => Some(FchMp1WarnRstAckMode::Auto),
            _ => None,
        }
    }

    pub fn to_u64(&self) -> (r: Option<u64>)
        ensures
            r == Some(self.spec_to_u64()),
    {
        Some(
            match self {
                FchMp1WarnRstAckMode::Enable => 0x0,
                FchMp1WarnRstAckMode::Disable => 0x1,
                FchMp1WarnRstAckMode::Auto => 0xff,
            },
        )
    }
}

/// Every value of FchMp1WarnRstAckMode is read back from its own number, and every number that is
/// read as a value is that value's number.
pub proof fn lemma_fch_mp1_warn_rst_ack_mode_roundtrip(x: FchMp1WarnRstAckMode, value: u64)
    ensures
        FchMp1WarnRstAckMode::spec_from_u64(x.spec_to_u64()) == Some(x),
        FchMp1WarnRstAckMode::spec_from_u64(value) matches Some(y) ==> y.spec_to_u64() == value,
{
}

#[derive(Debug, PartialEq, Eq, Clone, Copy, Structural)]
pub enum FchPowerFailMode {
    DefaultOff,
    On,
    Off,
    Previous,
}

impl FchPowerFailMode {
    /// The number that stands for this value.
    pub open spec fn spec_to_u64(self) -> u64 {
        match self {
            FchPowerFailMode::DefaultOff => 0x0,
            FchPowerFailMode::On => 0x1,
            FchPowerFailMode::Off => 0x2,
            FchPowerFailMode::Previous => 0x3,
        }
    }

    /// The value that VALUE stands for, if any.
    pub open spec fn spec_from_u64(value: u64) -> Option<FchPowerFailMode> {
        match value {
            0x0 => Some(FchPowerFailMode::DefaultOff),
            0x1 => Some(FchPowerFailMode::On),
            0x2 => Some(FchPowerFailMode::Off),
            0x3 => Some(FchPowerFailMode::Previous),
            _ => None,
        }
    }

    pub fn from_u64(value: u64) -> (r: Option<FchPowerFailMode>)
        ensures
            r == FchPowerFailMode::spec_from_u64(value),
    {
        match value {
            0x0 => Some(FchPowerFailMode::DefaultOff),
            0x1 => Some(FchPowerFailMode::On),
            0x2 => Some(FchPowerFailMode::Off),
            0x3 => Some(FchPowerFailMode::Previous),
            _ => None,
        }
    }

    pub fn to_u64(&self) -> (r: Option<u64>)
        ensures
            r == Some(self.spec_to_u64()),
    {
        Some(
            match self {
                FchPowerFailMode::DefaultOff => 0x0,
                FchPowerFailMode::On => 0x1,
                FchPowerFailMode::Off => 0x2,
                FchPowerFailMode::Previous => 0x3,
            },
        )
    }
}

/// Every value of FchPowerFailMode is read back from its own number, and every number that is
/// read as a value is that value's number.
pub proof fn lemma_fch_power_fail_mode_roundtrip(x: FchPowerFailMode, value: u64)
    ensures
        FchPowerFailMode::spec_from_u64(x.spec_to_u64()) == Some(x),
        FchPowerFailMode::spec_from_u64(value) matches Some(y) ==> y.spec_to_u64() == value,
{
}

/// The kind of an xGMI channel.
#[derive(Debug, PartialEq, Eq, Clone, Copy, Structural)]
pub enum DfXgmiChannelType {
    Disabled,
    LongReach,
}

impl DfXgmiChannelType {
    /// The number that stands for this value.
    pub open spec fn spec_to_u64(self) -> u64 {
        match self {
            DfXgmiChannelType::Disabled => 0x0,
            DfXgmiChannelType::LongReach => 0x1,
        }
    }

    /// The value that VALUE stands for, if any.
    pub open spec fn spec_from_u64(value: u64) -> Option<DfXgmiChannelType> {
        match value {
            0x0 => Some(DfXgmiChannelType::Disabled),
            0x1 => Some(DfXgmiChannelType::LongReach),
            _ => None,
        }
    }

    pub fn from_u64(value: u64) -> (r: Option<DfXgmiChannelType>)
        ensures
            r == DfXgmiChannelType::spec_from_u64(value),
    {
        match value {
            0x0 => Some(DfXgmiChannelType::Disabled),
            0x1 => Some(DfXgmiChannelType::LongReach),
            _ => None,
        }
    }

    pub fn to_u64(&self) -> (r: Option<u64>)
        ensures
            r == Some(self.spec_to_u64()),
    {
        Some(
            match self {
                DfXgmiChannelType::Disabled => 0x0,
                DfXgmiChannelType::LongReach => 0x1,
            },
        )
    }
}

/// Every value of DfXgmiChannelType is read back from its own number, and every number that is
/// read as a value is that value's number.
pub proof fn lemma_df_xgmi_channel_type_roundtrip(x: DfXgmiChannelType, value: u64)
    ensures
        DfXgmiChannelType::spec_from_u64(x.spec_to_u64()) == Some(x),
        DfXgmiChannelType::spec_from_u64(value) matches Some(y) ==> y.spec_to_u64() == value,
{
}

impl Default for DfXgmiChannelType {
    fn default() -> (r: Self)
        ensures
            r == DfXgmiChannelType::Disabled,
    {
        DfXgmiChannelType::Disabled
    }
}

/// The kind of each xGMI channel (socket and link), four bits each.
#[derive(Debug, Clone, Copy, PartialEq, Eq, Structural)]
pub struct DfXgmiChannelTypeSelect(u32);

impl DfXgmiChannelTypeSelect {
    /// The packed bits.
    pub closed spec fn spec_raw(self) -> u32 {
        self.0
    }

    /// The value with the given packed bits.
    pub closed spec fn spec_from_raw(raw: u32) -> Self {
        DfXgmiChannelTypeSelect(raw)
    }

    /// The packed bits determine the value, and any packed bits make a value.
    pub proof fn lemma_raw(x: Self, raw: u32)
        ensures
            Self::spec_from_raw(raw).spec_raw() == raw,
            Self::spec_from_raw(x.spec_raw()) == x,
    {
    }

    pub open spec fn spec_s0l0(self) -> u32 {
        spec_field_u32(self.spec_raw(), 0, 4)
    }

    pub open spec fn spec_s0l1(self) -> u32 {
        spec_field_u32(self.spec_raw(), 4, 4)
    }

    pub open spec fn spec_s0l2(self) -> u32 {
        spec_field_u32(self.spec_raw(), 8, 4)
    }

    pub open spec fn spec_s0l3(self) -> u32 {
        spec_field_u32(self.spec_raw(), 12, 4)
    }

    pub open spec fn spec_s1l0(self) -> u32 {
        spec_field_u32(self.spec_raw(), 16, 4)
    }

    pub open spec fn spec_s1l1(self) -> u32 {
        spec_field_u32(self.spec_raw(), 20, 4)
    }

    pub open spec fn spec_s1l2(self) -> u32 {
        spec_field_u32(self.spec_raw(), 24, 4)
    }

    pub open spec fn spec_s1l3(self) -> u32 {
        spec_field_u32(self.spec_raw(), 28, 4)
    }

    /// All bits clear.
    pub fn new() -> (r: Self)
        ensures
            r.spec_raw() == 0,
    {
        DfXgmiChannelTypeSelect(0)
    }

    /// The value with the given packed bits.
    pub fn from_raw(raw: u32) -> (r: Self)
        ensures
            r.spec_raw() == raw,
            r == Self::spec_from_raw(raw),
    {
        DfXgmiChannelTypeSelect(raw)
    }

    /// The packed bits.
    pub fn into_raw(self) -> (r: u32)
        ensures
            r == self.spec_raw(),
    {
        self.0
    }

    pub fn s0l0(&self) -> (r: DfXgmiChannelType)
        requires
            DfXgmiChannelType::spec_from_u64(self.spec_s0l0() as u64) is Some,
        ensures
            Some(r) == DfXgmiChannelType::spec_from_u64(self.spec_s0l0() as u64),
    {
        proof {
            lemma_shift_table_u32();
        }
        DfXgmiChannelType::from_u64(field_u32(self.0, 0, 4) as u64).unwrap()
    }

    pub fn set_s0l0(&mut self, value: DfXgmiChannelType)
        ensures
            final(self).spec_raw() == spec_with_field_u32(old(self).spec_raw(), 0, 4, value.spec_to_u64() as u32),
            final(self).spec_s0l0() == value.spec_to_u64() as u32,
            final(self).spec_s0l1() == old(self).spec_s0l1(),
            final(self).spec_s0l2() == old(self).spec_s0l2(),
            final(self).spec_s0l3() == old(self).spec_s0l3(),
            final(self).spec_s1l0() == old(self).spec_s1l0(),
            final(self).spec_s1l1() == old(self).spec_s1l1(),
            final(self).spec_s1l2() == old(self).spec_s1l2(),
            final(self).spec_s1l3() == old(self).spec_s1l3(),
    {
        let x: u32 = value.to_u64().unwrap() as u32;
        let ghost old_raw = self.0;
        proof {
            lemma_shift_table_u32();
            lemma_with_field_same_u32(old_raw, 0, 4, x);
            lemma_with_field_other_u32(old_raw, 0, 4, x, 4, 4);
            lemma_with_field_other_u32(old_raw, 0, 4, x, 8, 4);
            lemma_with_field_other_u32(old_raw, 0, 4, x, 12, 4);
            lemma_with_field_other_u32(old_raw, 0, 4, x, 16, 4);
            lemma_with_field_other_u32(old_raw, 0, 4, x, 20, 4);
            lemma_with_field_other_u32(old_raw, 0, 4, x, 24, 4);
            lemma_with_field_other_u32(old_raw, 0, 4, x, 28, 4);
        }
        self.0 = with_field_u32(self.0, 0, 4, x);
    }

    pub fn with_s0l0(self, value: DfXgmiChannelType) -> (r: Self)
        ensures
            r.spec_raw() == spec_with_field_u32(self.spec_raw(), 0, 4, value.spec_to_u64() as u32),
            r.spec_s0l0() == value.spec_to_u64() as u32,
            r.spec_s0l1() == self.spec_s0l1(),
            r.spec_s0l2() == self.spec_s0l2(),
            r.spec_s0l3() == self.spec_s0l3(),
            r.spec_s1l0() == self.spec_s1l0(),
            r.spec_s1l1() == self.spec_s1l1(),
            r.spec_s1l2() == self.spec_s1l2(),
            r.spec_s1l3() == self.spec_s1l3(),
    {
        let mut r = self;
        r.set_s0l0(value);
        r
    }

    pub fn s0l1(&self) -> (r: DfXgmiChannelType)
        requires
            DfXgmiChannelType::spec_from_u64(self.spec_s0l1() as u64) is Some,
        ensures
            Some(r) == DfXgmiChannelType::spec_from_u64(self.spec_s0l1() as u64),
    {
        proof {
            lemma_shift_table_u32();
        }
        DfXgmiChannelType::from_u64(field_u32(self.0, 4, 4) as u64).unwrap()
    }

    pub fn set_s0l1(&mut self, value: DfXgmiChannelType)
        ensures
            final(self).spec_raw() == spec_with_field_u32(old(self).spec_raw(), 4, 4, value.spec_to_u64() as u32),
            final(self).spec_s0l1() == value.spec_to_u64() as u32,
            final(self).spec_s0l0() == old(self).spec_s0l0(),
            final(self).spec_s0l2() == old(self).spec_s0l2(),
            final(self).spec_s0l3() == old(self).spec_s0l3(),
            final(self).spec_s1l0() == old(self).spec_s1l0(),
            final(self).spec_s1l1() == old(self).spec_s1l1(),
            final(self).spec_s1l2() == old(self).spec_s1l2(),
            final(self).spec_s1l3() == old(self).spec_s1l3(),
    {
        let x: u32 = value.to_u64().unwrap() as u32;
        let ghost old_raw = self.0;
        proof {
            lemma_shift_table_u32();
            lemma_with_field_same_u32(old_raw, 4, 4, x);
            lemma_with_field_other_u32(old_raw, 4, 4, x, 0, 4);
            lemma_with_field_other_u32(old_raw, 4, 4, x, 8, 4);
            lemma_with_field_other_u32(old_raw, 4, 4, x, 12, 4);
            lemma_with_field_other_u32(old_raw, 4, 4, x, 16, 4);
            lemma_with_field_other_u32(old_raw, 4, 4, x, 20, 4);
            lemma_with_field_other_u32(old_raw, 4, 4, x, 24, 4);
            lemma_with_field_other_u32(old_raw, 4, 4, x, 28, 4);
        }
        self.0 = with_field_u32(self.0, 4, 4, x);
    }

    pub fn with_s0l1(self, value: DfXgmiChannelType) -> (r: Self)
        ensures
            r.spec_raw() == spec_with_field_u32(self.spec_raw(), 4, 4, value.spec_to_u64() as u32),
            r.spec_s0l1() == value.spec_to_u64() as u32,
            r.spec_s0l0() == self.spec_s0l0(),
            r.spec_s0l2() == self.spec_s0l2(),
            r.spec_s0l3() == self.spec_s0l3(),
            r.spec_s1l0() == self.spec_s1l0(),
            r.spec_s1l1() == self.spec_s1l1(),
            r.spec_s1l2() == self.spec_s1l2(),
            r.spec_s1l3() == self.spec_s1l3(),
    {
        let mut r = self;
        r.set_s0l1(value);
        r
    }

    pub fn s0l2(&self) -> (r: DfXgmiChannelType)
        requires
            DfXgmiChannelType::spec_from_u64(self.spec_s0l2() as u64) is Some,
        ensures
            Some(r) == DfXgmiChannelType::spec_from_u64(self.spec_s0l2() as u64),
    {
        proof {
            lemma_shift_table_u32();
        }
        DfXgmiChannelType::from_u64(field_u32(self.0, 8, 4) as u64).unwrap()
    }

    pub fn set_s0l2(&mut self, value: DfXgmiChannelType)
        ensures
            final(self).spec_raw() == spec_with_field_u32(old(self).spec_raw(), 8, 4, value.spec_to_u64() as u32),
            final(self).spec_s0l2() == value.spec_to_u64() as u32,
            final(self).spec_s0l0() == old(self).spec_s0l0(),
            final(self).spec_s0l1() == old(self).spec_s0l1(),
            final(self).spec_s0l3() == old(self).spec_s0l3(),
            final(self).spec_s1l0() == old(self).spec_s1l0(),
            final(self).spec_s1l1() == old(self).spec_s1l1(),
            final(self).spec_s1l2() == old(self).spec_s1l2(),
            final(self).spec_s1l3() == old(self).spec_s1l3(),
    {
        let x: u32 = value.to_u64().unwrap() as u32;
        let ghost old_raw = self.0;
        proof {
            lemma_shift_table_u32();
            lemma_with_field_same_u32(old_raw, 8, 4, x);
            lemma_with_field_other_u32(old_raw, 8, 4, x, 0, 4);
            lemma_with_field_other_u32(old_raw, 8, 4, x, 4, 4);
            lemma_with_field_other_u32(old_raw, 8, 4, x, 12, 4);
            lemma_with_field_other_u32(old_raw, 8, 4, x, 16, 4);
            lemma_with_field_other_u32(old_raw, 8, 4, x, 20, 4);
            lemma_with_field_other_u32(old_raw, 8, 4, x, 24, 4);
            lemma_with_field_other_u32(old_raw, 8, 4, x, 28, 4);
        }
        self.0 = with_field_u32(self.0, 8, 4, x);
    }

    pub fn with_s0l2(self, value: DfXgmiChannelType) -> (r: Self)
        ensures
            r.spec_raw() == spec_with_field_u32(self.spec_raw(), 8, 4, value.spec_to_u64() as u32),
            r.spec_s0l2() == value.spec_to_u64() as u32,
            r.spec_s0l0() == self.spec_s0l0(),
            r.spec_s0l1() == self.spec_s0l1(),
            r.spec_s0l3() == self.spec_s0l3(),
            r.spec_s1l0() == self.spec_s1l0(),
            r.spec_s1l1() == self.spec_s1l1(),
            r.spec_s1l2() == self.spec_s1l2(),
            r.spec_s1l3() == self.spec_s1l3(),
    {
        let mut r = self;
        r.set_s0l2(value);
        r
    }

    pub fn s0l3(&self) -> (r: DfXgmiChannelType)
        requires
            DfXgmiChannelType::spec_from_u64(self.spec_s0l3() as u64) is Some,
        ensures
            Some(r) == DfXgmiChannelType::spec_from_u64(self.spec_s0l3() as u64),
    {
        proof {
            lemma_shift_table_u32();
        }
        DfXgmiChannelType::from_u64(field_u32(self.0, 12, 4) as u64).unwrap()
    }

    pub fn set_s0l3(&mut self, value: DfXgmiChannelType)
        ensures
            final(self).spec_raw() == spec_with_field_u32(old(self).spec_raw(), 12, 4, value.spec_to_u64() as u32),
            final(self).spec_s0l3() == value.spec_to_u64() as u32,
            final(self).spec_s0l0() == old(self).spec_s0l0(),
            final(self).spec_s0l1() == old(self).spec_s0l1(),
            final(self).spec_s0l2() == old(self).spec_s0l2(),
            final(self).spec_s1l0() == old(self).spec_s1l0(),
            final(self).spec_s1l1() == old(self).spec_s1l1(),
            final(self).spec_s1l2() == old(self).spec_s1l2(),
            final(self).spec_s1l3() == old(self).spec_s1l3(),
    {
        let x: u32 = value.to_u64().unwrap() as u32;
        let ghost old_raw = self.0;
        proof {
            lemma_shift_table_u32();
            lemma_with_field_same_u32(old_raw, 12, 4, x);
            lemma_with_field_other_u32(old_raw, 12, 4, x, 0, 4);
            lemma_with_field_other_u32(old_raw, 12, 4, x, 4, 4);
            lemma_with_field_other_u32(old_raw, 12, 4, x, 8, 4);
            lemma_with_field_other_u32(old_raw, 12, 4, x, 16, 4);
            lemma_with_field_other_u32(old_raw, 12, 4, x, 20, 4);
            lemma_with_field_other_u32(old_raw, 12, 4, x, 24, 4);
            lemma_with_field_other_u32(old_raw, 12, 4, x, 28, 4);
        }
        self.0 = with_field_u32(self.0, 12, 4, x);
    }

    pub fn with_s0l3(self, value: DfXgmiChannelType) -> (r: Self)
        ensures
            r.spec_raw() == spec_with_field_u32(self.spec_raw(), 12, 4, value.spec_to_u64() as u32),
            r.spec_s0l3() == value.spec_to_u64() as u32,
            r.spec_s0l0() == self.spec_s0l0(),
            r.spec_s0l1() == self.spec_s0l1(),
            r.spec_s0l2() == self.spec_s0l2(),
            r.spec_s1l0() == self.spec_s1l0(),
            r.spec_s1l1() == self.spec_s1l1(),
            r.spec_s1l2() == self.spec_s1l2(),
            r.spec_s1l3() == self.spec_s1l3(),
    {
        let mut r = self;
        r.set_s0l3(value);
        r
    }

    pub fn s1l0(&self) -> (r: DfXgmiChannelType)
        requires
            DfXgmiChannelType::spec_from_u64(self.spec_s1l0() as u64) is Some,
        ensures
            Some(r) == DfXgmiChannelType::spec_from_u64(self.spec_s1l0() as u64),
    {
        proof {
            lemma_shift_table_u32();
        }
        DfXgmiChannelType::from_u64(field_u32(self.0, 16, 4) as u64).unwrap()
    }

    pub fn set_s1l0(&mut self, value: DfXgmiChannelType)
        ensures
            final(self).spec_raw() == spec_with_field_u32(old(self).spec_raw(), 16, 4, value.spec_to_u64() as u32),
            final(self).spec_s1l0() == value.spec_to_u64() as u32,
            final(self).spec_s0l0() == old(self).spec_s0l0(),
            final(self).spec_s0l1() == old(self).spec_s0l1(),
            final(self).spec_s0l2() == old(self).spec_s0l2(),
            final(self).spec_s0l3() == old(self).spec_s0l3(),
            final(self).spec_s1l1() == old(self).spec_s1l1(),
            final(self).spec_s1l2() == old(self).spec_s1l2(),
            final(self).spec_s1l3() == old(self).spec_s1l3(),
    {
        let x: u32 = value.to_u64().unwrap() as u32;
        let ghost old_raw = self.0;
        proof {
            lemma_shift_table_u32();
            lemma_with_field_same_u32(old_raw, 16, 4, x);
            lemma_with_field_other_u32(old_raw, 16, 4, x, 0, 4);
            lemma_with_field_other_u32(old_raw, 16, 4, x, 4, 4);
            lemma_with_field_other_u32(old_raw, 16, 4, x, 8, 4);
            lemma_with_field_other_u32(old_raw, 16, 4, x, 12, 4);
            lemma_with_field_other_u32(old_raw, 16, 4, x, 20, 4);
            lemma_with_field_other_u32(old_raw, 16, 4, x, 24, 4);
            lemma_with_field_other_u32(old_raw, 16, 4, x, 28, 4);
        }
        self.0 = with_field_u32(self.0, 16, 4, x);
    }

    pub fn with_s1l0(self, value: DfXgmiChannelType) -> (r: Self)
        ensures
            r.spec_raw() == spec_with_field_u32(self.spec_raw(), 16, 4, value.spec_to_u64() as u32),
            r.spec_s1l0() == value.spec_to_u64() as u32,
            r.spec_s0l0() == self.spec_s0l0(),
            r.spec_s0l1() == self.spec_s0l1(),
            r.spec_s0l2() == self.spec_s0l2(),
            r.spec_s0l3() == self.spec_s0l3(),
            r.spec_s1l1() == self.spec_s1l1(),
            r.spec_s1l2() == self.spec_s1l2(),
            r.spec_s1l3() == self.spec_s1l3(),
    {
        let mut r = self;
        r.set_s1l0(value);
        r
    }

    pub fn s1l1(&self) -> (r: DfXgmiChannelType)
        requires
            DfXgmiChannelType::spec_from_u64(self.spec_s1l1() as u64) is Some,
        ensures
            Some(r) == DfXgmiChannelType::spec_from_u64(self.spec_s1l1() as u64),
    {
        proof {
            lemma_shift_table_u32();
        }
        DfXgmiChannelType::from_u64(field_u32(self.0, 20, 4) as u64).unwrap()
    }

    pub fn set_s1l1(&mut self, value: DfXgmiChannelType)
        ensures
            final(self).spec_raw() == spec_with_field_u32(old(self).spec_raw(), 20, 4, value.spec_to_u64() as u32),
            final(self).spec_s1l1() == value.spec_to_u64() as u32,
            final(self).spec_s0l0() == old(self).spec_s0l0(),
            final(self).spec_s0l1() == old(self).spec_s0l1(),
            final(self).spec_s0l2() == old(self).spec_s0l2(),
            final(self).spec_s0l3() == old(self).spec_s0l3(),
            final(self).spec_s1l0() == old(self).spec_s1l0(),
            final(self).spec_s1l2() == old(self).spec_s1l2(),
            final(self).spec_s1l3() == old(self).spec_s1l3(),
    {
        let x: u32 = value.to_u64().unwrap() as u32;
        let ghost old_raw = self.0;
        proof {
            lemma_shift_table_u32();
            lemma_with_field_same_u32(old_raw, 20, 4, x);
            lemma_with_field_other_u32(old_raw, 20, 4, x, 0, 4);
            lemma_with_field_other_u32(old_raw, 20, 4, x, 4, 4);
            lemma_with_field_other_u32(old_raw, 20, 4, x, 8, 4);
            lemma_with_field_other_u32(old_raw, 20, 4, x, 12, 4);
            lemma_with_field_other_u32(old_raw, 20, 4, x, 16, 4);
            lemma_with_field_other_u32(old_raw, 20, 4, x, 24, 4);
            lemma_with_field_other_u32(old_raw, 20, 4, x, 28, 4);
        }
        self.0 = with_field_u32(self.0, 20, 4, x);
    }

    pub fn with_s1l1(self, value: DfXgmiChannelType) -> (r: Self)
        ensures
            r.spec_raw() == spec_with_field_u32(self.spec_raw(), 20, 4, value.spec_to_u64() as u32),
            r.spec_s1l1() == value.spec_to_u64() as u32,
            r.spec_s0l0() == self.spec_s0l0(),
            r.spec_s0l1() == self.spec_s0l1(),
            r.spec_s0l2() == self.spec_s0l2(),
            r.spec_s0l3() == self.spec_s0l3(),
            r.spec_s1l0() == self.spec_s1l0(),
            r.spec_s1l2() == self.spec_s1l2(),
            r.spec_s1l3() == self.spec_s1l3(),
    {
        let mut r = self;
        r.set_s1l1(value);
        r
    }

    pub fn s1l2(&self) -> (r: DfXgmiChannelType)
        requires
            DfXgmiChannelType::spec_from_u64(self.spec_s1l2() as u64) is Some,
        ensures
            Some(r) == DfXgmiChannelType::spec_from_u64(self.spec_s1l2() as u64),
    {
        proof {
            lemma_shift_table_u32();
        }
        DfXgmiChannelType::from_u64(field_u32(self.0, 24, 4) as u64).unwrap()
    }

    pub fn set_s1l2(&mut self, value: DfXgmiChannelType)
        ensures
            final(self).spec_raw() == spec_with_field_u32(old(self).spec_raw(), 24, 4, value.spec_to_u64() as u32),
            final(self).spec_s1l2() == value.spec_to_u64() as u32,
            final(self).spec_s0l0() == old(self).spec_s0l0(),
            final(self).spec_s0l1() == old(self).spec_s0l1(),
            final(self).spec_s0l2() == old(self).spec_s0l2(),
            final(self).spec_s0l3() == old(self).spec_s0l3(),
            final(self).spec_s1l0() == old(self).spec_s1l0(),
            final(self).spec_s1l1() == old(self).spec_s1l1(),
            final(self).spec_s1l3() == old(self).spec_s1l3(),
    {
        let x: u32 = value.to_u64().unwrap() as u32;
        let ghost old_raw = self.0;
        proof {
            lemma_shift_table_u32();
            lemma_with_field_same_u32(old_raw, 24, 4, x);
            lemma_with_field_other_u32(old_raw, 24, 4, x, 0, 4);
            lemma_with_field_other_u32(old_raw, 24, 4, x, 4, 4);
            lemma_with_field_other_u32(old_raw, 24, 4, x, 8, 4);
            lemma_with_field_other_u32(old_raw, 24, 4, x, 12, 4);
            lemma_with_field_other_u32(old_raw, 24, 4, x, 16, 4);
            lemma_with_field_other_u32(old_raw, 24, 4, x, 20, 4);
            lemma_with_field_other_u32(old_raw, 24, 4, x, 28, 4);
        }
        self.0 = with_field_u32(self.0, 24, 4, x);
    }

    pub fn with_s1l2(self, value: DfXgmiChannelType) -> (r: Self)
        ensures
            r.spec_raw() == spec_with_field_u32(self.spec_raw(), 24, 4, value.spec_to_u64() as u32),
            r.spec_s1l2() == value.spec_to_u64() as u32,
            r.spec_s0l0() == self.spec_s0l0(),
            r.spec_s0l1() == self.spec_s0l1(),
            r.spec_s0l2() == self.spec_s0l2(),
            r.spec_s0l3() == self.spec_s0l3(),
            r.spec_s1l0() == self.spec_s1l0(),
            r.spec_s1l1() == self.spec_s1l1(),
            r.spec_s1l3() == self.spec_s1l3(),
    {
        let mut r = self;
        r.set_s1l2(value);
        r
    }

    pub fn s1l3(&self) -> (r: DfXgmiChannelType)
        requires
            DfXgmiChannelType::spec_from_u64(self.spec_s1l3() as u64) is Some,
        ensures
            Some(r) == DfXgmiChannelType::spec_from_u64(self.spec_s1l3() as u64),
    {
        proof {
            lemma_shift_table_u32();
        }
        DfXgmiChannelType::from_u64(field_u32(self.0, 28, 4) as u64).unwrap()
    }

    pub fn set_s1l3(&mut self, value: DfXgmiChannelType)
        ensures
            final(self).spec_raw() == spec_with_field_u32(old(self).spec_raw(), 28, 4, value.spec_to_u64() as u32),
            final(self).spec_s1l3() == value.spec_to_u64() as u32,
            final(self).spec_s0l0() == old(self).spec_s0l0(),
            final(self).spec_s0l1() == old(self).spec_s0l1(),
            final(self).spec_s0l2() == old(self).spec_s0l2(),
            final(self).spec_s0l3() == old(self).spec_s0l3(),
            final(self).spec_s1l0() == old(self).spec_s1l0(),
            final(self).spec_s1l1() == old(self).spec_s1l1(),
            final(self).spec_s1l2() == old(self).spec_s1l2(),
    {
        let x: u32 = value.to_u64().unwrap() as u32;
        let ghost old_raw = self.0;
        proof {
            lemma_shift_table_u32();
            lemma_with_field_same_u32(old_raw, 28, 4, x);
            lemma_with_field_other_u32(old_raw, 28, 4, x, 0, 4);
            lemma_with_field_other_u32(old_raw, 28, 4, x, 4, 4);
            lemma_with_field_other_u32(old_raw, 28, 4, x, 8, 4);
            lemma_with_field_other_u32(old_raw, 28, 4, x, 12, 4);
            lemma_with_field_other_u32(old_raw, 28, 4, x, 16, 4);
            lemma_with_field_other_u32(old_raw, 28, 4, x, 20, 4);
            lemma_with_field_other_u32(old_raw, 28, 4, x, 24, 4);
        }
        self.0 = with_field_u32(self.0, 28, 4, x);
    }

    pub fn with_s1l3(self, value: DfXgmiChannelType) -> (r: Self)
        ensures
            r.spec_raw() == spec_with_field_u32(self.spec_raw(), 28, 4, value.spec_to_u64() as u32),
            r.spec_s1l3() == value.spec_to_u64() as u32,
            r.spec_s0l0() == self.spec_s0l0(),
            r.spec_s0l1() == self.spec_s0l1(),
            r.spec_s0l2() == self.spec_s0l2(),
            r.spec_s0l3() == self.spec_s0l3(),
            r.spec_s1l0() == self.spec_s1l0(),
            r.spec_s1l1() == self.spec_s1l1(),
            r.spec_s1l2() == self.spec_s1l2(),
    {
        let mut r = self;
        r.set_s1l3(value);
        r
    }

    /// The bits that `from_u64` accepts: the lanes of socket 0 only. This is deliberate, as
    /// the token values in use select socket 0 lanes; a value with a socket 1 lane set (which
    /// the setters can build) is refused by `from_u64`.
    pub const VALID_BITS: u64 = 0xffff;

    /// Whether VALUE leaves all bits outside VALID_BITS clear.
    pub fn all_reserved_bits_are_unused(value: u64) -> (r: bool)
        ensures
            r == (value & !0xffffu64 == 0),
    {
        value & !Self::VALID_BITS == 0
    }

    pub fn from_u64(value: u64) -> (r: Option<Self>)
        ensures
            r is Some <==> (value & !0xffffu64 == 0 && value <= 0xffffffff),
            r matches Some(x) ==> x.spec_raw() == value,
    {
        if Self::all_reserved_bits_are_unused(value) {
            if value <= 0xffffffff {
                Some(DfXgmiChannelTypeSelect(value as u32))
            } else {
                None
            }
        } else {
            None
        }
    }

    pub fn from_i64(value: i64) -> (r: Option<Self>)
        ensures
            r is Some <==> (value >= 0 && (value as u64) & !0xffffu64 == 0 && value <= 0xffffffff),
            r matches Some(x) ==> x.spec_raw() == value,
    {
        if value >= 0 {
            Self::from_u64(value as u64)
        } else {
            None
        }
    }

    pub fn to_u64(&self) -> (r: Option<u64>)
        ensures
            r == Some(self.spec_raw() as u64),
    {
        Some(self.0 as u64)
    }

    pub fn to_i64(&self) -> (r: Option<i64>)
        ensures
            r == Some(self.spec_raw() as i64),
    {
        Some(self.0 as i64)
    }

}

/// The GPP clocks that are switched off (one bit each).
#[derive(Debug, Clone, Copy, PartialEq, Eq, Structural)]
pub struct FchGppClkMapSelection(u16);

impl FchGppClkMapSelection {
    /// The packed bits.
    pub closed spec fn spec_raw(self) -> u16 {
        self.0
    }

    /// The value with the given packed bits.
    pub closed spec fn spec_from_raw(raw: u16) -> Self {
        FchGppClkMapSelection(raw)
    }

    /// The packed bits determine the value, and any packed bits make a value.
    pub proof fn lemma_raw(x: Self, raw: u16)
        ensures
            Self::spec_from_raw(raw).spec_raw() == raw,
            Self::spec_from_raw(x.spec_raw()) == x,
    {
    }

    pub open spec fn spec_s0_gpp0_off(self) -> bool {
        spec_field_u16(self.spec_raw(), 0, 1) == 1
    }

    pub open spec fn spec_s0_gpp1_off(self) -> bool {
        spec_field_u16(self.spec_raw(), 1, 1) == 1
    }

    pub open spec fn spec_s0_gpp4_off(self) -> bool {
        spec_field_u16(self.spec_raw(), 2, 1) == 1
    }

    pub open spec fn spec_s0_gpp2_off(self) -> bool {
        spec_field_u16(self.spec_raw(), 3, 1) == 1
    }

    pub open spec fn spec_s0_gpp3_off(self) -> bool {
        spec_field_u16(self.spec_raw(), 4, 1) == 1
    }

    pub open spec fn spec_s0_gpp5_off(self) -> bool {
        spec_field_u16(self.spec_raw(), 5, 1) == 1
    }

    pub open spec fn spec_s1_gpp0_off(self) -> bool {
        spec_field_u16(self.spec_raw(), 8, 1) == 1
    }

    pub open spec fn spec_s1_gpp1_off(self) -> bool {
        spec_field_u16(self.spec_raw(), 9, 1) == 1
    }

    pub open spec fn spec_s1_gpp4_off(self) -> bool {
        spec_field_u16(self.spec_raw(), 10, 1) == 1
    }

    pub open spec fn spec_s1_gpp2_off(self) -> bool {
        spec_field_u16(self.spec_raw(), 11, 1) == 1
    }

    pub open spec fn spec_s1_gpp3_off(self) -> bool {
        spec_field_u16(self.spec_raw(), 12, 1) == 1
    }

    pub open spec fn spec_s1_gpp5_off(self) -> bool {
        spec_field_u16(self.spec_raw(), 13, 1) == 1
    }

    /// All bits clear.
    pub fn new() -> (r: Self)
        ensures
            r.spec_raw() == 0,
    {
        FchGppClkMapSelection(0)
    }

    /// The value with the given packed bits.
    pub fn from_raw(raw: u16) -> (r: Self)
        ensures
            r.spec_raw() == raw,
            r == Self::spec_from_raw(raw),
    {
        FchGppClkMapSelection(raw)
    }

    /// The packed bits.
    pub fn into_raw(self) -> (r: u16)
        ensures
            r == self.spec_raw(),
    {
        self.0
    }

    pub fn s0_gpp0_off(&self) -> (r: bool)
        ensures
            r == self.spec_s0_gpp0_off(),
    {
        field_u16(self.0, 0, 1) == 1
    }

    pub fn set_s0_gpp0_off(&mut self, value: bool)
        ensures
            final(self).spec_raw() == spec_with_field_u16(old(self).spec_raw(), 0, 1, (if value { 1u16 } else { 0u16 })),
            final(self).spec_s0_gpp0_off() == value,
            final(self).spec_s0_gpp1_off() == old(self).spec_s0_gpp1_off(),
            final(self).spec_s0_gpp4_off() == old(self).spec_s0_gpp4_off(),
            final(self).spec_s0_gpp2_off() == old(self).spec_s0_gpp2_off(),
            final(self).spec_s0_gpp3_off() == old(self).spec_s0_gpp3_off(),
            final(self).spec_s0_gpp5_off() == old(self).spec_s0_gpp5_off(),
            final(self).spec_s1_gpp0_off() == old(self).spec_s1_gpp0_off(),
            final(self).spec_s1_gpp1_off() == old(self).spec_s1_gpp1_off(),
            final(self).spec_s1_gpp4_off() == old(self).spec_s1_gpp4_off(),
            final(self).spec_s1_gpp2_off() == old(self).spec_s1_gpp2_off(),
            final(self).spec_s1_gpp3_off() == old(self).spec_s1_gpp3_off(),
            final(self).spec_s1_gpp5_off() == old(self).spec_s1_gpp5_off(),
    {
        let x: u16 = if value { 1 } else { 0 };
        let ghost old_raw = self.0;
        proof {
            lemma_shift_table_u16();
            lemma_with_field_same_u16(old_raw, 0, 1, x);
            lemma_with_field_other_u16(old_raw, 0, 1, x, 1, 1);
            lemma_with_field_other_u16(old_raw, 0, 1, x, 2, 1);
            lemma_with_field_other_u16(old_raw, 0, 1, x, 3, 1);
            lemma_with_field_other_u16(old_raw, 0, 1, x, 4, 1);
            lemma_with_field_other_u16(old_raw, 0, 1, x, 5, 1);
            lemma_with_field_other_u16(old_raw, 0, 1, x, 8, 1);
            lemma_with_field_other_u16(old_raw, 0, 1, x, 9, 1);
            lemma_with_field_other_u16(old_raw, 0, 1, x, 10, 1);
            lemma_with_field_other_u16(old_raw, 0, 1, x, 11, 1);
            lemma_with_field_other_u16(old_raw, 0, 1, x, 12, 1);
            lemma_with_field_other_u16(old_raw, 0, 1, x, 13, 1);
        }
        self.0 = with_field_u16(self.0, 0, 1, x);
    }

    pub fn with_s0_gpp0_off(self, value: bool) -> (r: Self)
        ensures
            r.spec_raw() == spec_with_field_u16(self.spec_raw(), 0, 1, (if value { 1u16 } else { 0u16 })),
            r.spec_s0_gpp0_off() == value,
            r.spec_s0_gpp1_off() == self.spec_s0_gpp1_off(),
            r.spec_s0_gpp4_off() == self.spec_s0_gpp4_off(),
            r.spec_s0_gpp2_off() == self.spec_s0_gpp2_off(),
            r.spec_s0_gpp3_off() == self.spec_s0_gpp3_off(),
            r.spec_s0_gpp5_off() == self.spec_s0_gpp5_off(),
            r.spec_s1_gpp0_off() == self.spec_s1_gpp0_off(),
            r.spec_s1_gpp1_off() == self.spec_s1_gpp1_off(),
            r.spec_s1_gpp4_off() == self.spec_s1_gpp4_off(),
            r.spec_s1_gpp2_off() == self.spec_s1_gpp2_off(),
            r.spec_s1_gpp3_off() == self.spec_s1_gpp3_off(),
            r.spec_s1_gpp5_off() == self.spec_s1_gpp5_off(),
    {
        let mut r = self;
        r.set_s0_gpp0_off(value);
        r
    }

    pub fn s0_gpp1_off(&self) -> (r: bool)
        ensures
            r == self.spec_s0_gpp1_off(),
    {
        field_u16(self.0, 1, 1) == 1
    }

    pub fn set_s0_gpp1_off(&mut self, value: bool)
        ensures
            final(self).spec_raw() == spec_with_field_u16(old(self).spec_raw(), 1, 1, (if value { 1u16 } else { 0u16 })),
            final(self).spec_s0_gpp1_off() == value,
            final(self).spec_s0_gpp0_off() == old(self).spec_s0_gpp0_off(),
            final(self).spec_s0_gpp4_off() == old(self).spec_s0_gpp4_off(),
            final(self).spec_s0_gpp2_off() == old(self).spec_s0_gpp2_off(),
            final(self).spec_s0_gpp3_off() == old(self).spec_s0_gpp3_off(),
            final(self).spec_s0_gpp5_off() == old(self).spec_s0_gpp5_off(),
            final(self).spec_s1_gpp0_off() == old(self).spec_s1_gpp0_off(),
            final(self).spec_s1_gpp1_off() == old(self).spec_s1_gpp1_off(),
            final(self).spec_s1_gpp4_off() == old(self).spec_s1_gpp4_off(),
            final(self).spec_s1_gpp2_off() == old(self).spec_s1_gpp2_off(),
            final(self).spec_s1_gpp3_off() == old(self).spec_s1_gpp3_off(),
            final(self).spec_s1_gpp5_off() == old(self).spec_s1_gpp5_off(),
    {
        let x: u16 = if value { 1 } else { 0 };
        let ghost old_raw = self.0;
        proof {
            lemma_shift_table_u16();
            lemma_with_field_same_u16(old_raw, 1, 1, x);
            lemma_with_field_other_u16(old_raw, 1, 1, x, 0, 1);
            lemma_with_field_other_u16(old_raw, 1, 1, x, 2, 1);
            lemma_with_field_other_u16(old_raw, 1, 1, x, 3, 1);
            lemma_with_field_other_u16(old_raw, 1, 1, x, 4, 1);
            lemma_with_field_other_u16(old_raw, 1, 1, x, 5, 1);
            lemma_with_field_other_u16(old_raw, 1, 1, x, 8, 1);
            lemma_with_field_other_u16(old_raw, 1, 1, x, 9, 1);
            lemma_with_field_other_u16(old_raw, 1, 1, x, 10, 1);
            lemma_with_field_other_u16(old_raw, 1, 1, x, 11, 1);
            lemma_with_field_other_u16(old_raw, 1, 1, x, 12, 1);
            lemma_with_field_other_u16(old_raw, 1, 1, x, 13, 1);
        }
        self.0 = with_field_u16(self.0, 1, 1, x);
    }

    pub fn with_s0_gpp1_off(self, value: bool) -> (r: Self)
        ensures
            r.spec_raw() == spec_with_field_u16(self.spec_raw(), 1, 1, (if value { 1u16 } else { 0u16 })),
            r.spec_s0_gpp1_off() == value,
            r.spec_s0_gpp0_off() == self.spec_s0_gpp0_off(),
            r.spec_s0_gpp4_off() == self.spec_s0_gpp4_off(),
            r.spec_s0_gpp2_off() == self.spec_s0_gpp2_off(),
            r.spec_s0_gpp3_off() == self.spec_s0_gpp3_off(),
            r.spec_s0_gpp5_off() == self.spec_s0_gpp5_off(),
            r.spec_s1_gpp0_off() == self.spec_s1_gpp0_off(),
            r.spec_s1_gpp1_off() == self.spec_s1_gpp1_off(),
            r.spec_s1_gpp4_off() == self.spec_s1_gpp4_off(),
            r.spec_s1_gpp2_off() == self.spec_s1_gpp2_off(),
            r.spec_s1_gpp3_off() == self.spec_s1_gpp3_off(),
            r.spec_s1_gpp5_off() == self.spec_s1_gpp5_off(),
    {
        let mut r = self;
        r.set_s0_gpp1_off(value);
        r
    }

    pub fn s0_gpp4_off(&self) -> (r: bool)
        ensures
            r == self.spec_s0_gpp4_off(),
    {
        field_u16(self.0, 2, 1) == 1
    }

    pub fn set_s0_gpp4_off(&mut self, value: bool)
        ensures
            final(self).spec_raw() == spec_with_field_u16(old(self).spec_raw(), 2, 1, (if value { 1u16 } else { 0u16 })),
            final(self).spec_s0_gpp4_off() == value,
            final(self).spec_s0_gpp0_off() == old(self).spec_s0_gpp0_off(),
            final(self).spec_s0_gpp1_off() == old(self).spec_s0_gpp1_off(),
            final(self).spec_s0_gpp2_off() == old(self).spec_s0_gpp2_off(),
            final(self).spec_s0_gpp3_off() == old(self).spec_s0_gpp3_off(),
            final(self).spec_s0_gpp5_off() == old(self).spec_s0_gpp5_off(),
            final(self).spec_s1_gpp0_off() == old(self).spec_s1_gpp0_off(),
            final(self).spec_s1_gpp1_off() == old(self).spec_s1_gpp1_off(),
            final(self).spec_s1_gpp4_off() == old(self).spec_s1_gpp4_off(),
            final(self).spec_s1_gpp2_off() == old(self).spec_s1_gpp2_off(),
            final(self).spec_s1_gpp3_off() == old(self).spec_s1_gpp3_off(),
            final(self).spec_s1_gpp5_off() == old(self).spec_s1_gpp5_off(),
    {
        let x: u16 = if value { 1 } else { 0 };
        let ghost old_raw = self.0;
        proof {
            lemma_shift_table_u16();
            lemma_with_field_same_u16(old_raw, 2, 1, x);
            lemma_with_field_other_u16(old_raw, 2, 1, x, 0, 1);
            lemma_with_field_other_u16(old_raw, 2, 1, x, 1, 1);
            lemma_with_field_other_u16(old_raw, 2, 1, x, 3, 1);
            lemma_with_field_other_u16(old_raw, 2, 1, x, 4, 1);
            lemma_with_field_other_u16(old_raw, 2, 1, x, 5, 1);
            lemma_with_field_other_u16(old_raw, 2, 1, x, 8, 1);
            lemma_with_field_other_u16(old_raw, 2, 1, x, 9, 1);
            lemma_with_field_other_u16(old_raw, 2, 1, x, 10, 1);
            lemma_with_field_other_u16(old_raw, 2, 1, x, 11, 1);
            lemma_with_field_other_u16(old_raw, 2, 1, x, 12, 1);
            lemma_with_field_other_u16(old_raw, 2, 1, x, 13, 1);
        }
        self.0 = with_field_u16(self.0, 2, 1, x);
    }

    pub fn with_s0_gpp4_off(self, value: bool) -> (r: Self)
        ensures
            r.spec_raw() == spec_with_field_u16(self.spec_raw(), 2, 1, (if value { 1u16 } else { 0u16 })),
            r.spec_s0_gpp4_off() == value,
            r.spec_s0_gpp0_off() == self.spec_s0_gpp0_off(),
            r.spec_s0_gpp1_off() == self.spec_s0_gpp1_off(),
            r.spec_s0_gpp2_off() == self.spec_s0_gpp2_off(),
            r.spec_s0_gpp3_off() == self.spec_s0_gpp3_off(),
            r.spec_s0_gpp5_off() == self.spec_s0_gpp5_off(),
            r.spec_s1_gpp0_off() == self.spec_s1_gpp0_off(),
            r.spec_s1_gpp1_off() == self.spec_s1_gpp1_off(),
            r.spec_s1_gpp4_off() == self.spec_s1_gpp4_off(),
            r.spec_s1_gpp2_off() == self.spec_s1_gpp2_off(),
            r.spec_s1_gpp3_off() == self.spec_s1_gpp3_off(),
            r.spec_s1_gpp5_off() == self.spec_s1_gpp5_off(),
    {
        let mut r = self;
        r.set_s0_gpp4_off(value);
        r
    }

    pub fn s0_gpp2_off(&self) -> (r: bool)
        ensures
            r == self.spec_s0_gpp2_off(),
    {
        field_u16(self.0, 3, 1) == 1
    }

    pub fn set_s0_gpp2_off(&mut self, value: bool)
        ensures
            final(self).spec_raw() == spec_with_field_u16(old(self).spec_raw(), 3, 1, (if value { 1u16 } else { 0u16 })),
            final(self).spec_s0_gpp2_off() == value,
            final(self).spec_s0_gpp0_off() == old(self).spec_s0_gpp0_off(),
            final(self).spec_s0_gpp1_off() == old(self).spec_s0_gpp1_off(),
            final(self).spec_s0_gpp4_off() == old(self).spec_s0_gpp4_off(),
            final(self).spec_s0_gpp3_off() == old(self).spec_s0_gpp3_off(),
            final(self).spec_s0_gpp5_off() == old(self).spec_s0_gpp5_off(),
            final(self).spec_s1_gpp0_off() == old(self).spec_s1_gpp0_off(),
            final(self).spec_s1_gpp1_off() == old(self).spec_s1_gpp1_off(),
            final(self).spec_s1_gpp4_off() == old(self).spec_s1_gpp4_off(),
            final(self).spec_s1_gpp2_off() == old(self).spec_s1_gpp2_off(),
            final(self).spec_s1_gpp3_off() == old(self).spec_s1_gpp3_off(),
            final(self).spec_s1_gpp5_off() == old(self).spec_s1_gpp5_off(),
    {
        let x: u16 = if value { 1 } else { 0 };
        let ghost old_raw = self.0;
        proof {
            lemma_shift_table_u16();
            lemma_with_field_same_u16(old_raw, 3, 1, x);
            lemma_with_field_other_u16(old_raw, 3, 1, x, 0, 1);
            lemma_with_field_other_u16(old_raw, 3, 1, x, 1, 1);
            lemma_with_field_other_u16(old_raw, 3, 1, x, 2, 1);
            lemma_with_field_other_u16(old_raw, 3, 1, x, 4, 1);
            lemma_with_field_other_u16(old_raw, 3, 1, x, 5, 1);
            lemma_with_field_other_u16(old_raw, 3, 1, x, 8, 1);
            lemma_with_field_other_u16(old_raw, 3, 1, x, 9, 1);
            lemma_with_field_other_u16(old_raw, 3, 1, x, 10, 1);
            lemma_with_field_other_u16(old_raw, 3, 1, x, 11, 1);
            lemma_with_field_other_u16(old_raw, 3, 1, x, 12, 1);
            lemma_with_field_other_u16(old_raw, 3, 1, x, 13, 1);
        }
        self.0 = with_field_u16(self.0, 3, 1, x);
    }

    pub fn with_s0_gpp2_off(self, value: bool) -> (r: Self)
        ensures
            r.spec_raw() == spec_with_field_u16(self.spec_raw(), 3, 1, (if value { 1u16 } else { 0u16 })),
            r.spec_s0_gpp2_off() == value,
            r.spec_s0_gpp0_off() == self.spec_s0_gpp0_off(),
            r.spec_s0_gpp1_off() == self.spec_s0_gpp1_off(),
            r.spec_s0_gpp4_off() == self.spec_s0_gpp4_off(),
            r.spec_s0_gpp3_off() == self.spec_s0_gpp3_off(),
            r.spec_s0_gpp5_off() == self.spec_s0_gpp5_off(),
            r.spec_s1_gpp0_off() == self.spec_s1_gpp0_off(),
            r.spec_s1_gpp1_off() == self.spec_s1_gpp1_off(),
            r.spec_s1_gpp4_off() == self.spec_s1_gpp4_off(),
            r.spec_s1_gpp2_off() == self.spec_s1_gpp2_off(),
            r.spec_s1_gpp3_off() == self.spec_s1_gpp3_off(),
            r.spec_s1_gpp5_off() == self.spec_s1_gpp5_off(),
    {
        let mut r = self;
        r.set_s0_gpp2_off(value);
        r
    }

    pub fn s0_gpp3_off(&self) -> (r: bool)
        ensures
            r == self.spec_s0_gpp3_off(),
    {
        field_u16(self.0, 4, 1) == 1
    }

    pub fn set_s0_gpp3_off(&mut self, value: bool)
        ensures
            final(self).spec_raw() == spec_with_field_u16(old(self).spec_raw(), 4, 1, (if value { 1u16 } else { 0u16 })),
            final(self).spec_s0_gpp3_off() == value,
            final(self).spec_s0_gpp0_off() == old(self).spec_s0_gpp0_off(),
            final(self).spec_s0_gpp1_off() == old(self).spec_s0_gpp1_off(),
            final(self).spec_s0_gpp4_off() == old(self).spec_s0_gpp4_off(),
            final(self).spec_s0_gpp2_off() == old(self).spec_s0_gpp2_off(),
            final(self).spec_s0_gpp5_off() == old(self).spec_s0_gpp5_off(),
            final(self).spec_s1_gpp0_off() == old(self).spec_s1_gpp0_off(),
            final(self).spec_s1_gpp1_off() == old(self).spec_s1_gpp1_off(),
            final(self).spec_s1_gpp4_off() == old(self).spec_s1_gpp4_off(),
            final(self).spec_s1_gpp2_off() == old(self).spec_s1_gpp2_off(),
            final(self).spec_s1_gpp3_off() == old(self).spec_s1_gpp3_off(),
            final(self).spec_s1_gpp5_off() == old(self).spec_s1_gpp5_off(),
    {
        let x: u16 = if value { 1 } else { 0 };
        let ghost old_raw = self.0;
        proof {
            lemma_shift_table_u16();
            lemma_with_field_same_u16(old_raw, 4, 1, x);
            lemma_with_field_other_u16(old_raw, 4, 1, x, 0, 1);
            lemma_with_field_other_u16(old_raw, 4, 1, x, 1, 1);
            lemma_with_field_other_u16(old_raw, 4, 1, x, 2, 1);
            lemma_with_field_other_u16(old_raw, 4, 1, x, 3, 1);
            lemma_with_field_other_u16(old_raw, 4, 1, x, 5, 1);
            lemma_with_field_other_u16(old_raw, 4, 1, x, 8, 1);
            lemma_with_field_other_u16(old_raw, 4, 1, x, 9, 1);
            lemma_with_field_other_u16(old_raw, 4, 1, x, 10, 1);
            lemma_with_field_other_u16(old_raw, 4, 1, x, 11, 1);
            lemma_with_field_other_u16(old_raw, 4, 1, x, 12, 1);
            lemma_with_field_other_u16(old_raw, 4, 1, x, 13, 1);
        }
        self.0 = with_field_u16(self.0, 4, 1, x);
    }

    pub fn with_s0_gpp3_off(self, value: bool) -> (r: Self)
        ensures
            r.spec_raw() == spec_with_field_u16(self.spec_raw(), 4, 1, (if value { 1u16 } else { 0u16 })),
            r.spec_s0_gpp3_off() == value,
            r.spec_s0_gpp0_off() == self.spec_s0_gpp0_off(),
            r.spec_s0_gpp1_off() == self.spec_s0_gpp1_off(),
            r.spec_s0_gpp4_off() == self.spec_s0_gpp4_off(),
            r.spec_s0_gpp2_off() == self.spec_s0_gpp2_off(),
            r.spec_s0_gpp5_off() == self.spec_s0_gpp5_off(),
            r.spec_s1_gpp0_off() == self.spec_s1_gpp0_off(),
            r.spec_s1_gpp1_off() == self.spec_s1_gpp1_off(),
            r.spec_s1_gpp4_off() == self.spec_s1_gpp4_off(),
            r.spec_s1_gpp2_off() == self.spec_s1_gpp2_off(),
            r.spec_s1_gpp3_off() == self.spec_s1_gpp3_off(),
            r.spec_s1_gpp5_off() == self.spec_s1_gpp5_off(),
    {
        let mut r = self;
        r.set_s0_gpp3_off(value);
        r
    }

    pub fn s0_gpp5_off(&self) -> (r: bool)
        ensures
            r == self.spec_s0_gpp5_off(),
    {
        field_u16(self.0, 5, 1) == 1
    }

    pub fn set_s0_gpp5_off(&mut self, value: bool)
        ensures
            final(self).spec_raw() == spec_with_field_u16(old(self).spec_raw(), 5, 1, (if value { 1u16 } else { 0u16 })),
            final(self).spec_s0_gpp5_off() == value,
            final(self).spec_s0_gpp0_off() == old(self).spec_s0_gpp0_off(),
            final(self).spec_s0_gpp1_off() == old(self).spec_s0_gpp1_off(),
            final(self).spec_s0_gpp4_off() == old(self).spec_s0_gpp4_off(),
            final(self).spec_s0_gpp2_off() == old(self).spec_s0_gpp2_off(),
            final(self).spec_s0_gpp3_off() == old(self).spec_s0_gpp3_off(),
            final(self).spec_s1_gpp0_off() == old(self).spec_s1_gpp0_off(),
            final(self).spec_s1_gpp1_off() == old(self).spec_s1_gpp1_off(),
            final(self).spec_s1_gpp4_off() == old(self).spec_s1_gpp4_off(),
            final(self).spec_s1_gpp2_off() == old(self).spec_s1_gpp2_off(),
            final(self).spec_s1_gpp3_off() == old(self).spec_s1_gpp3_off(),
            final(self).spec_s1_gpp5_off() == old(self).spec_s1_gpp5_off(),
    {
        let x: u16 = if value { 1 } else { 0 };
        let ghost old_raw = self.0;
        proof {
            lemma_shift_table_u16();
            lemma_with_field_same_u16(old_raw, 5, 1, x);
            lemma_with_field_other_u16(old_raw, 5, 1, x, 0, 1);
            lemma_with_field_other_u16(old_raw, 5, 1, x, 1, 1);
            lemma_with_field_other_u16(old_raw, 5, 1, x, 2, 1);
            lemma_with_field_other_u16(old_raw, 5, 1, x, 3, 1);
            lemma_with_field_other_u16(old_raw, 5, 1, x, 4, 1);
            lemma_with_field_other_u16(old_raw, 5, 1, x, 8, 1);
            lemma_with_field_other_u16(old_raw, 5, 1, x, 9, 1);
            lemma_with_field_other_u16(old_raw, 5, 1, x, 10, 1);
            lemma_with_field_other_u16(old_raw, 5, 1, x, 11, 1);
            lemma_with_field_other_u16(old_raw, 5, 1, x, 12, 1);
            lemma_with_field_other_u16(old_raw, 5, 1, x, 13, 1);
        }
        self.0 = with_field_u16(self.0, 5, 1, x);
    }

    pub fn with_s0_gpp5_off(self, value: bool) -> (r: Self)
        ensures
            r.spec_raw() == spec_with_field_u16(self.spec_raw(), 5, 1, (if value { 1u16 } else { 0u16 })),
            r.spec_s0_gpp5_off() == value,
            r.spec_s0_gpp0_off() == self.spec_s0_gpp0_off(),
            r.spec_s0_gpp1_off() == self.spec_s0_gpp1_off(),
            r.spec_s0_gpp4_off() == self.spec_s0_gpp4_off(),
            r.spec_s0_gpp2_off() == self.spec_s0_gpp2_off(),
            r.spec_s0_gpp3_off() == self.spec_s0_gpp3_off(),
            r.spec_s1_gpp0_off() == self.spec_s1_gpp0_off(),
            r.spec_s1_gpp1_off() == self.spec_s1_gpp1_off(),
            r.spec_s1_gpp4_off() == self.spec_s1_gpp4_off(),
            r.spec_s1_gpp2_off() == self.spec_s1_gpp2_off(),
            r.spec_s1_gpp3_off() == self.spec_s1_gpp3_off(),
            r.spec_s1_gpp5_off() == self.spec_s1_gpp5_off(),
    {
        let mut r = self;
        r.set_s0_gpp5_off(value);
        r
    }

    pub fn s1_gpp0_off(&self) -> (r: bool)
        ensures
            r == self.spec_s1_gpp0_off(),
    {
        field_u16(self.0, 8, 1) == 1
    }

    pub fn set_s1_gpp0_off(&mut self, value: bool)
        ensures
            final(self).spec_raw() == spec_with_field_u16(old(self).spec_raw(), 8, 1, (if value { 1u16 } else { 0u16 })),
            final(self).spec_s1_gpp0_off() == value,
            final(self).spec_s0_gpp0_off() == old(self).spec_s0_gpp0_off(),
            final(self).spec_s0_gpp1_off() == old(self).spec_s0_gpp1_off(),
            final(self).spec_s0_gpp4_off() == old(self).spec_s0_gpp4_off(),
            final(self).spec_s0_gpp2_off() == old(self).spec_s0_gpp2_off(),
            final(self).spec_s0_gpp3_off() == old(self).spec_s0_gpp3_off(),
            final(self).spec_s0_gpp5_off() == old(self).spec_s0_gpp5_off(),
            final(self).spec_s1_gpp1_off() == old(self).spec_s1_gpp1_off(),
            final(self).spec_s1_gpp4_off() == old(self).spec_s1_gpp4_off(),
            final(self).spec_s1_gpp2_off() == old(self).spec_s1_gpp2_off(),
            final(self).spec_s1_gpp3_off() == old(self).spec_s1_gpp3_off(),
            final(self).spec_s1_gpp5_off() == old(self).spec_s1_gpp5_off(),
    {
        let x: u16 = if value { 1 } else { 0 };
        let ghost old_raw = self.0;
        proof {
            lemma_shift_table_u16();
            lemma_with_field_same_u16(old_raw, 8, 1, x);
            lemma_with_field_other_u16(old_raw, 8, 1, x, 0, 1);
            lemma_with_field_other_u16(old_raw, 8, 1, x, 1, 1);
            lemma_with_field_other_u16(old_raw, 8, 1, x, 2, 1);
            lemma_with_field_other_u16(old_raw, 8, 1, x, 3, 1);
            lemma_with_field_other_u16(old_raw, 8, 1, x, 4, 1);
            lemma_with_field_other_u16(old_raw, 8, 1, x, 5, 1);
            lemma_with_field_other_u16(old_raw, 8, 1, x, 9, 1);
            lemma_with_field_other_u16(old_raw, 8, 1, x, 10, 1);
            lemma_with_field_other_u16(old_raw, 8, 1, x, 11, 1);
            lemma_with_field_other_u16(old_raw, 8, 1, x, 12, 1);
            lemma_with_field_other_u16(old_raw, 8, 1, x, 13, 1);
        }
        self.0 = with_field_u16(self.0, 8, 1, x);
    }

    pub fn with_s1_gpp0_off(self, value: bool) -> (r: Self)
        ensures
            r.spec_raw() == spec_with_field_u16(self.spec_raw(), 8, 1, (if value { 1u16 } else { 0u16 })),
            r.spec_s1_gpp0_off() == value,
            r.spec_s0_gpp0_off() == self.spec_s0_gpp0_off(),
            r.spec_s0_gpp1_off() == self.spec_s0_gpp1_off(),
            r.spec_s0_gpp4_off() == self.spec_s0_gpp4_off(),
            r.spec_s0_gpp2_off() == self.spec_s0_gpp2_off(),
            r.spec_s0_gpp3_off() == self.spec_s0_gpp3_off(),
            r.spec_s0_gpp5_off() == self.spec_s0_gpp5_off(),
            r.spec_s1_gpp1_off() == self.spec_s1_gpp1_off(),
            r.spec_s1_gpp4_off() == self.spec_s1_gpp4_off(),
            r.spec_s1_gpp2_off() == self.spec_s1_gpp2_off(),
            r.spec_s1_gpp3_off() == self.spec_s1_gpp3_off(),
            r.spec_s1_gpp5_off() == self.spec_s1_gpp5_off(),
    {
        let mut r = self;
        r.set_s1_gpp0_off(value);
        r
    }

    pub fn s1_gpp1_off(&self) -> (r: bool)
        ensures
            r == self.spec_s1_gpp1_off(),
    {
        field_u16(self.0, 9, 1) == 1
    }

    pub fn set_s1_gpp1_off(&mut self, value: bool)
        ensures
            final(self).spec_raw() == spec_with_field_u16(old(self).spec_raw(), 9, 1, (if value { 1u16 } else { 0u16 })),
            final(self).spec_s1_gpp1_off() == value,
            final(self).spec_s0_gpp0_off() == old(self).spec_s0_gpp0_off(),
            final(self).spec_s0_gpp1_off() == old(self).spec_s0_gpp1_off(),
            final(self).spec_s0_gpp4_off() == old(self).spec_s0_gpp4_off(),
            final(self).spec_s0_gpp2_off() == old(self).spec_s0_gpp2_off(),
            final(self).spec_s0_gpp3_off() == old(self).spec_s0_gpp3_off(),
            final(self).spec_s0_gpp5_off() == old(self).spec_s0_gpp5_off(),
            final(self).spec_s1_gpp0_off() == old(self).spec_s1_gpp0_off(),
            final(self).spec_s1_gpp4_off() == old(self).spec_s1_gpp4_off(),
            final(self).spec_s1_gpp2_off() == old(self).spec_s1_gpp2_off(),
            final(self).spec_s1_gpp3_off() == old(self).spec_s1_gpp3_off(),
            final(self).spec_s1_gpp5_off() == old(self).spec_s1_gpp5_off(),
    {
        let x: u16 = if value { 1 } else { 0 };
        let ghost old_raw = self.0;
        proof {
            lemma_shift_table_u16();
            lemma_with_field_same_u16(old_raw, 9, 1, x);
            lemma_with_field_other_u16(old_raw, 9, 1, x, 0, 1);
            lemma_with_field_other_u16(old_raw, 9, 1, x, 1, 1);
            lemma_with_field_other_u16(old_raw, 9, 1, x, 2, 1);
            lemma_with_field_other_u16(old_raw, 9, 1, x, 3, 1);
            lemma_with_field_other_u16(old_raw, 9, 1, x, 4, 1);
            lemma_with_field_other_u16(old_raw, 9, 1, x, 5, 1);
            lemma_with_field_other_u16(old_raw, 9, 1, x, 8, 1);
            lemma_with_field_other_u16(old_raw, 9, 1, x, 10, 1);
            lemma_with_field_other_u16(old_raw, 9, 1, x, 11, 1);
            lemma_with_field_other_u16(old_raw, 9, 1, x, 12, 1);
            lemma_with_field_other_u16(old_raw, 9, 1, x, 13, 1);
        }
        self.0 = with_field_u16(self.0, 9, 1, x);
    }

    pub fn with_s1_gpp1_off(self, value: bool) -> (r: Self)
        ensures
            r.spec_raw() == spec_with_field_u16(self.spec_raw(), 9, 1, (if value { 1u16 } else { 0u16 })),
            r.spec_s1_gpp1_off() == value,
            r.spec_s0_gpp0_off() == self.spec_s0_gpp0_off(),
            r.spec_s0_gpp1_off() == self.spec_s0_gpp1_off(),
            r.spec_s0_gpp4_off() == self.spec_s0_gpp4_off(),
            r.spec_s0_gpp2_off() == self.spec_s0_gpp2_off(),
            r.spec_s0_gpp3_off() == self.spec_s0_gpp3_off(),
            r.spec_s0_gpp5_off() == self.spec_s0_gpp5_off(),
            r.spec_s1_gpp0_off() == self.spec_s1_gpp0_off(),
            r.spec_s1_gpp4_off() == self.spec_s1_gpp4_off(),
            r.spec_s1_gpp2_off() == self.spec_s1_gpp2_off(),
            r.spec_s1_gpp3_off() == self.spec_s1_gpp3_off(),
            r.spec_s1_gpp5_off() == self.spec_s1_gpp5_off(),
    {
        let mut r = self;
        r.set_s1_gpp1_off(value);
        r
    }

    pub fn s1_gpp4_off(&self) -> (r: bool)
        ensures
            r == self.spec_s1_gpp4_off(),
    {
        field_u16(self.0, 10, 1) == 1
    }

    pub fn set_s1_gpp4_off(&mut self, value: bool)
        ensures
            final(self).spec_raw() == spec_with_field_u16(old(self).spec_raw(), 10, 1, (if value { 1u16 } else { 0u16 })),
            final(self).spec_s1_gpp4_off() == value,
            final(self).spec_s0_gpp0_off() == old(self).spec_s0_gpp0_off(),
            final(self).spec_s0_gpp1_off() == old(self).spec_s0_gpp1_off(),
            final(self).spec_s0_gpp4_off() == old(self).spec_s0_gpp4_off(),
            final(self).spec_s0_gpp2_off() == old(self).spec_s0_gpp2_off(),
            final(self).spec_s0_gpp3_off() == old(self).spec_s0_gpp3_off(),
            final(self).spec_s0_gpp5_off() == old(self).spec_s0_gpp5_off(),
            final(self).spec_s1_gpp0_off() == old(self).spec_s1_gpp0_off(),
            final(self).spec_s1_gpp1_off() == old(self).spec_s1_gpp1_off(),
            final(self).spec_s1_gpp2_off() == old(self).spec_s1_gpp2_off(),
            final(self).spec_s1_gpp3_off() == old(self).spec_s1_gpp3_off(),
            final(self).spec_s1_gpp5_off() == old(self).spec_s1_gpp5_off(),
    {
        let x: u16 = if value { 1 } else { 0 };
        let ghost old_raw = self.0;
        proof {
            lemma_shift_table_u16();
            lemma_with_field_same_u16(old_raw, 10, 1, x);
            lemma_with_field_other_u16(old_raw, 10, 1, x, 0, 1);
            lemma_with_field_other_u16(old_raw, 10, 1, x, 1, 1);
            lemma_with_field_other_u16(old_raw, 10, 1, x, 2, 1);
            lemma_with_field_other_u16(old_raw, 10, 1, x, 3, 1);
            lemma_with_field_other_u16(old_raw, 10, 1, x, 4, 1);
            lemma_with_field_other_u16(old_raw, 10, 1, x, 5, 1);
            lemma_with_field_other_u16(old_raw, 10, 1, x, 8, 1);
            lemma_with_field_other_u16(old_raw, 10, 1, x, 9, 1);
            lemma_with_field_other_u16(old_raw, 10, 1, x, 11, 1);
            lemma_with_field_other_u16(old_raw, 10, 1, x, 12, 1);
            lemma_with_field_other_u16(old_raw, 10, 1, x, 13, 1);
        }
        self.0 = with_field_u16(self.0, 10, 1, x);
    }

    pub fn with_s1_gpp4_off(self, value: bool) -> (r: Self)
        ensures
            r.spec_raw() == spec_with_field_u16(self.spec_raw(), 10, 1, (if value { 1u16 } else { 0u16 })),
            r.spec_s1_gpp4_off() == value,
            r.spec_s0_gpp0_off() == self.spec_s0_gpp0_off(),
            r.spec_s0_gpp1_off() == self.spec_s0_gpp1_off(),
            r.spec_s0_gpp4_off() == self.spec_s0_gpp4_off(),
            r.spec_s0_gpp2_off() == self.spec_s0_gpp2_off(),
            r.spec_s0_gpp3_off() == self.spec_s0_gpp3_off(),
            r.spec_s0_gpp5_off() == self.spec_s0_gpp5_off(),
            r.spec_s1_gpp0_off() == self.spec_s1_gpp0_off(),
            r.spec_s1_gpp1_off() == self.spec_s1_gpp1_off(),
            r.spec_s1_gpp2_off() == self.spec_s1_gpp2_off(),
            r.spec_s1_gpp3_off() == self.spec_s1_gpp3_off(),
            r.spec_s1_gpp5_off() == self.spec_s1_gpp5_off(),
    {
        let mut r = self;
        r.set_s1_gpp4_off(value);
        r
    }

    pub fn s1_gpp2_off(&self) -> (r: bool)
        ensures
            r == self.spec_s1_gpp2_off(),
    {
        field_u16(self.0, 11, 1) == 1
    }

    pub fn set_s1_gpp2_off(&mut self, value: bool)
        ensures
            final(self).spec_raw() == spec_with_field_u16(old(self).spec_raw(), 11, 1, (if value { 1u16 } else { 0u16 })),
            final(self).spec_s1_gpp2_off() == value,
            final(self).spec_s0_gpp0_off() == old(self).spec_s0_gpp0_off(),
            final(self).spec_s0_gpp1_off() == old(self).spec_s0_gpp1_off(),
            final(self).spec_s0_gpp4_off() == old(self).spec_s0_gpp4_off(),
            final(self).spec_s0_gpp2_off() == old(self).spec_s0_gpp2_off(),
            final(self).spec_s0_gpp3_off() == old(self).spec_s0_gpp3_off(),
            final(self).spec_s0_gpp5_off() == old(self).spec_s0_gpp5_off(),
            final(self).spec_s1_gpp0_off() == old(self).spec_s1_gpp0_off(),
            final(self).spec_s1_gpp1_off() == old(self).spec_s1_gpp1_off(),
            final(self).spec_s1_gpp4_off() == old(self).spec_s1_gpp4_off(),
            final(self).spec_s1_gpp3_off() == old(self).spec_s1_gpp3_off(),
            final(self).spec_s1_gpp5_off() == old(self).spec_s1_gpp5_off(),
    {
        let x: u16 = if value { 1 } else { 0 };
        let ghost old_raw = self.0;
        proof {
            lemma_shift_table_u16();
            lemma_with_field_same_u16(old_raw, 11, 1, x);
            lemma_with_field_other_u16(old_raw, 11, 1, x, 0, 1);
            lemma_with_field_other_u16(old_raw, 11, 1, x, 1, 1);
            lemma_with_field_other_u16(old_raw, 11, 1, x, 2, 1);
            lemma_with_field_other_u16(old_raw, 11, 1, x, 3, 1);
            lemma_with_field_other_u16(old_raw, 11, 1, x, 4, 1);
            lemma_with_field_other_u16(old_raw, 11, 1, x, 5, 1);
            lemma_with_field_other_u16(old_raw, 11, 1, x, 8, 1);
            lemma_with_field_other_u16(old_raw, 11, 1, x, 9, 1);
            lemma_with_field_other_u16(old_raw, 11, 1, x, 10, 1);
            lemma_with_field_other_u16(old_raw, 11, 1, x, 12, 1);
            lemma_with_field_other_u16(old_raw, 11, 1, x, 13, 1);
        }
        self.0 = with_field_u16(self.0, 11, 1, x);
    }

    pub fn with_s1_gpp2_off(self, value: bool) -> (r: Self)
        ensures
            r.spec_raw() == spec_with_field_u16(self.spec_raw(), 11, 1, (if value { 1u16 } else { 0u16 })),
            r.spec_s1_gpp2_off() == value,
            r.spec_s0_gpp0_off() == self.spec_s0_gpp0_off(),
            r.spec_s0_gpp1_off() == self.spec_s0_gpp1_off(),
            r.spec_s0_gpp4_off() == self.spec_s0_gpp4_off(),
            r.spec_s0_gpp2_off() == self.spec_s0_gpp2_off(),
            r.spec_s0_gpp3_off() == self.spec_s0_gpp3_off(),
            r.spec_s0_gpp5_off() == self.spec_s0_gpp5_off(),
            r.spec_s1_gpp0_off() == self.spec_s1_gpp0_off(),
            r.spec_s1_gpp1_off() == self.spec_s1_gpp1_off(),
            r.spec_s1_gpp4_off() == self.spec_s1_gpp4_off(),
            r.spec_s1_gpp3_off() == self.spec_s1_gpp3_off(),
            r.spec_s1_gpp5_off() == self.spec_s1_gpp5_off(),
    {
        let mut r = self;
        r.set_s1_gpp2_off(value);
        r
    }

    pub fn s1_gpp3_off(&self) -> (r: bool)
        ensures
            r == self.spec_s1_gpp3_off(),
    {
        field_u16(self.0, 12, 1) == 1
    }

    pub fn set_s1_gpp3_off(&mut self, value: bool)
        ensures
            final(self).spec_raw() == spec_with_field_u16(old(self).spec_raw(), 12, 1, (if value { 1u16 } else { 0u16 })),
            final(self).spec_s1_gpp3_off() == value,
            final(self).spec_s0_gpp0_off() == old(self).spec_s0_gpp0_off(),
            final(self).spec_s0_gpp1_off() == old(self).spec_s0_gpp1_off(),
            final(self).spec_s0_gpp4_off() == old(self).spec_s0_gpp4_off(),
            final(self).spec_s0_gpp2_off() == old(self).spec_s0_gpp2_off(),
            final(self).spec_s0_gpp3_off() == old(self).spec_s0_gpp3_off(),
            final(self).spec_s0_gpp5_off() == old(self).spec_s0_gpp5_off(),
            final(self).spec_s1_gpp0_off() == old(self).spec_s1_gpp0_off(),
            final(self).spec_s1_gpp1_off() == old(self).spec_s1_gpp1_off(),
            final(self).spec_s1_gpp4_off() == old(self).spec_s1_gpp4_off(),
            final(self).spec_s1_gpp2_off() == old(self).spec_s1_gpp2_off(),
            final(self).spec_s1_gpp5_off() == old(self).spec_s1_gpp5_off(),
    {
        let x: u16 = if value { 1 } else { 0 };
        let ghost old_raw = self.0;
        proof {
            lemma_shift_table_u16();
            lemma_with_field_same_u16(old_raw, 12, 1, x);
            lemma_with_field_other_u16(old_raw, 12, 1, x, 0, 1);
            lemma_with_field_other_u16(old_raw, 12, 1, x, 1, 1);
            lemma_with_field_other_u16(old_raw, 12, 1, x, 2, 1);
            lemma_with_field_other_u16(old_raw, 12, 1, x, 3, 1);
            lemma_with_field_other_u16(old_raw, 12, 1, x, 4, 1);
            lemma_with_field_other_u16(old_raw, 12, 1, x, 5, 1);
            lemma_with_field_other_u16(old_raw, 12, 1, x, 8, 1);
            lemma_with_field_other_u16(old_raw, 12, 1, x, 9, 1);
            lemma_with_field_other_u16(old_raw, 12, 1, x, 10, 1);
            lemma_with_field_other_u16(old_raw, 12, 1, x, 11, 1);
            lemma_with_field_other_u16(old_raw, 12, 1, x, 13, 1);
        }
        self.0 = with_field_u16(self.0, 12, 1, x);
    }

    pub fn with_s1_gpp3_off(self, value: bool) -> (r: Self)
        ensures
            r.spec_raw() == spec_with_field_u16(self.spec_raw(), 12, 1, (if value { 1u16 } else { 0u16 })),
            r.spec_s1_gpp3_off() == value,
            r.spec_s0_gpp0_off() == self.spec_s0_gpp0_off(),
            r.spec_s0_gpp1_off() == self.spec_s0_gpp1_off(),
            r.spec_s0_gpp4_off() == self.spec_s0_gpp4_off(),
            r.spec_s0_gpp2_off() == self.spec_s0_gpp2_off(),
            r.spec_s0_gpp3_off() == self.spec_s0_gpp3_off(),
            r.spec_s0_gpp5_off() == self.spec_s0_gpp5_off(),
            r.spec_s1_gpp0_off() == self.spec_s1_gpp0_off(),
            r.spec_s1_gpp1_off() == self.spec_s1_gpp1_off(),
            r.spec_s1_gpp4_off() == self.spec_s1_gpp4_off(),
            r.spec_s1_gpp2_off() == self.spec_s1_gpp2_off(),
            r.spec_s1_gpp5_off() == self.spec_s1_gpp5_off(),
    {
        let mut r = self;
        r.set_s1_gpp3_off(value);
        r
    }

    pub fn s1_gpp5_off(&self) -> (r: bool)
        ensures
            r == self.spec_s1_gpp5_off(),
    {
        field_u16(self.0, 13, 1) == 1
    }

    pub fn set_s1_gpp5_off(&mut self, value: bool)
        ensures
            final(self).spec_raw() == spec_with_field_u16(old(self).spec_raw(), 13, 1, (if value { 1u16 } else { 0u16 })),
            final(self).spec_s1_gpp5_off() == value,
            final(self).spec_s0_gpp0_off() == old(self).spec_s0_gpp0_off(),
            final(self).spec_s0_gpp1_off() == old(self).spec_s0_gpp1_off(),
            final(self).spec_s0_gpp4_off() == old(self).spec_s0_gpp4_off(),
            final(self).spec_s0_gpp2_off() == old(self).spec_s0_gpp2_off(),
            final(self).spec_s0_gpp3_off() == old(self).spec_s0_gpp3_off(),
            final(self).spec_s0_gpp5_off() == old(self).spec_s0_gpp5_off(),
            final(self).spec_s1_gpp0_off() == old(self).spec_s1_gpp0_off(),
            final(self).spec_s1_gpp1_off() == old(self).spec_s1_gpp1_off(),
            final(self).spec_s1_gpp4_off() == old(self).spec_s1_gpp4_off(),
            final(self).spec_s1_gpp2_off() == old(self).spec_s1_gpp2_off(),
            final(self).spec_s1_gpp3_off() == old(self).spec_s1_gpp3_off(),
    {
        let x: u16 = if value { 1 } else { 0 };
        let ghost old_raw = self.0;
        proof {
            lemma_shift_table_u16();
            lemma_with_field_same_u16(old_raw, 13, 1, x);
            lemma_with_field_other_u16(old_raw, 13, 1, x, 0, 1);
            lemma_with_field_other_u16(old_raw, 13, 1, x, 1, 1);
            lemma_with_field_other_u16(old_raw, 13, 1, x, 2, 1);
            lemma_with_field_other_u16(old_raw, 13, 1, x, 3, 1);
            lemma_with_field_other_u16(old_raw, 13, 1, x, 4, 1);
            lemma_with_field_other_u16(old_raw, 13, 1, x, 5, 1);
            lemma_with_field_other_u16(old_raw, 13, 1, x, 8, 1);
            lemma_with_field_other_u16(old_raw, 13, 1, x, 9, 1);
            lemma_with_field_other_u16(old_raw, 13, 1, x, 10, 1);
            lemma_with_field_other_u16(old_raw, 13, 1, x, 11, 1);
            lemma_with_field_other_u16(old_raw, 13, 1, x, 12, 1);
        }
        self.0 = with_field_u16(self.0, 13, 1, x);
    }

    pub fn with_s1_gpp5_off(self, value: bool) -> (r: Self)
        ensures
            r.spec_raw() == spec_with_field_u16(self.spec_raw(), 13, 1, (if value { 1u16 } else { 0u16 })),
            r.spec_s1_gpp5_off() == value,
            r.spec_s0_gpp0_off() == self.spec_s0_gpp0_off(),
            r.spec_s0_gpp1_off() == self.spec_s0_gpp1_off(),
            r.spec_s0_gpp4_off() == self.spec_s0_gpp4_off(),
            r.spec_s0_gpp2_off() == self.spec_s0_gpp2_off(),
            r.spec_s0_gpp3_off() == self.spec_s0_gpp3_off(),
            r.spec_s0_gpp5_off() == self.spec_s0_gpp5_off(),
            r.spec_s1_gpp0_off() == self.spec_s1_gpp0_off(),
            r.spec_s1_gpp1_off() == self.spec_s1_gpp1_off(),
            r.spec_s1_gpp4_off() == self.spec_s1_gpp4_off(),
            r.spec_s1_gpp2_off() == self.spec_s1_gpp2_off(),
            r.spec_s1_gpp3_off() == self.spec_s1_gpp3_off(),
    {
        let mut r = self;
        r.set_s1_gpp5_off(value);
        r
    }

}

impl Default for FchGppClkMapSelection {
    fn default() -> (r: Self)
        ensures
            r.spec_raw() == 0,
    {
        Self::new()
    }
}

/// The PMU built-in self test algorithms to run (one bit each).
#[derive(Debug, Clone, Copy, PartialEq, Eq, Structural)]
pub struct MemPmuBistTestSelect(u8);

impl MemPmuBistTestSelect {
    /// The packed bits.
    pub closed spec fn spec_raw(self) -> u8 {
        self.0
    }

    /// The value with the given packed bits.
    pub closed spec fn spec_from_raw(raw: u8) -> Self {
        MemPmuBistTestSelect(raw)
    }

    /// The packed bits determine the value, and any packed bits make a value.
    pub proof fn lemma_raw(x: Self, raw: u8)
        ensures
            Self::spec_from_raw(raw).spec_raw() == raw,
            Self::spec_from_raw(x.spec_raw()) == x,
    {
    }

    pub open spec fn spec_algorithm_1(self) -> bool {
        spec_field_u8(self.spec_raw(), 0, 1) == 1
    }

    pub open spec fn spec_algorithm_2(self) -> bool {
        spec_field_u8(self.spec_raw(), 1, 1) == 1
    }

    pub open spec fn spec_algorithm_3(self) -> bool {
        spec_field_u8(self.spec_raw(), 2, 1) == 1
    }

    pub open spec fn spec_algorithm_4(self) -> bool {
        spec_field_u8(self.spec_raw(), 3, 1) == 1
    }

    pub open spec fn spec_algorithm_5(self) -> bool {
        spec_field_u8(self.spec_raw(), 4, 1) == 1
    }

    /// All bits clear.
    pub fn new() -> (r: Self)
        ensures
            r.spec_raw() == 0,
    {
        MemPmuBistTestSelect(0)
    }

    /// The value with the given packed bits.
    pub fn from_raw(raw: u8) -> (r: Self)
        ensures
            r.spec_raw() == raw,
            r == Self::spec_from_raw(raw),
    {
        MemPmuBistTestSelect(raw)
    }

    /// The packed bits.
    pub fn into_raw(self) -> (r: u8)
        ensures
            r == self.spec_raw(),
    {
        self.0
    }

    pub fn algorithm_1(&self) -> (r: bool)
        ensures
            r == self.spec_algorithm_1(),
    {
        field_u8(self.0, 0, 1) == 1
    }

    pub fn set_algorithm_1(&mut self, value: bool)
        ensures
            final(self).spec_raw() == spec_with_field_u8(old(self).spec_raw(), 0, 1, (if value { 1u8 } else { 0u8 })),
            final(self).spec_algorithm_1() == value,
            final(self).spec_algorithm_2() == old(self).spec_algorithm_2(),
            final(self).spec_algorithm_3() == old(self).spec_algorithm_3(),
            final(self).spec_algorithm_4() == old(self).spec_algorithm_4(),
            final(self).spec_algorithm_5() == old(self).spec_algorithm_5(),
    {
        let x: u8 = if value { 1 } else { 0 };
        let ghost old_raw = self.0;
        proof {
            lemma_shift_table_u8();
            lemma_with_field_same_u8(old_raw, 0, 1, x);
            lemma_with_field_other_u8(old_raw, 0, 1, x, 1, 1);
            lemma_with_field_other_u8(old_raw, 0, 1, x, 2, 1);
            lemma_with_field_other_u8(old_raw, 0, 1, x, 3, 1);
            lemma_with_field_other_u8(old_raw, 0, 1, x, 4, 1);
        }
        self.0 = with_field_u8(self.0, 0, 1, x);
    }

    pub fn with_algorithm_1(self, value: bool) -> (r: Self)
        ensures
            r.spec_raw() == spec_with_field_u8(self.spec_raw(), 0, 1, (if value { 1u8 } else { 0u8 })),
            r.spec_algorithm_1() == value,
            r.spec_algorithm_2() == self.spec_algorithm_2(),
            r.spec_algorithm_3() == self.spec_algorithm_3(),
            r.spec_algorithm_4() == self.spec_algorithm_4(),
            r.spec_algorithm_5() == self.spec_algorithm_5(),
    {
        let mut r = self;
        r.set_algorithm_1(value);
        r
    }

    pub fn algorithm_2(&self) -> (r: bool)
        ensures
            r == self.spec_algorithm_2(),
    {
        field_u8(self.0, 1, 1) == 1
    }

    pub fn set_algorithm_2(&mut self, value: bool)
        ensures
            final(self).spec_raw() == spec_with_field_u8(old(self).spec_raw(), 1, 1, (if value { 1u8 } else { 0u8 })),
            final(self).spec_algorithm_2() == value,
            final(self).spec_algorithm_1() == old(self).spec_algorithm_1(),
            final(self).spec_algorithm_3() == old(self).spec_algorithm_3(),
            final(self).spec_algorithm_4() == old(self).spec_algorithm_4(),
            final(self).spec_algorithm_5() == old(self).spec_algorithm_5(),
    {
        let x: u8 = if value { 1 } else { 0 };
        let ghost old_raw = self.0;
        proof {
            lemma_shift_table_u8();
            lemma_with_field_same_u8(old_raw, 1, 1, x);
            lemma_with_field_other_u8(old_raw, 1, 1, x, 0, 1);
            lemma_with_field_other_u8(old_raw, 1, 1, x, 2, 1);
            lemma_with_field_other_u8(old_raw, 1, 1, x, 3, 1);
            lemma_with_field_other_u8(old_raw, 1, 1, x, 4, 1);
        }
        self.0 = with_field_u8(self.0, 1, 1, x);
    }

    pub fn with_algorithm_2(self, value: bool) -> (r: Self)
        ensures
            r.spec_raw() == spec_with_field_u8(self.spec_raw(), 1, 1, (if value { 1u8 } else { 0u8 })),
            r.spec_algorithm_2() == value,
            r.spec_algorithm_1() == self.spec_algorithm_1(),
            r.spec_algorithm_3() == self.spec_algorithm_3(),
            r.spec_algorithm_4() == self.spec_algorithm_4(),
            r.spec_algorithm_5() == self.spec_algorithm_5(),
    {
        let mut r = self;
        r.set_algorithm_2(value);
        r
    }

    pub fn algorithm_3(&self) -> (r: bool)
        ensures
            r == self.spec_algorithm_3(),
    {
        field_u8(self.0, 2, 1) == 1
    }

    pub fn set_algorithm_3(&mut self, value: bool)
        ensures
            final(self).spec_raw() == spec_with_field_u8(old(self).spec_raw(), 2, 1, (if value { 1u8 } else { 0u8 })),
            final(self).spec_algorithm_3() == value,
            final(self).spec_algorithm_1() == old(self).spec_algorithm_1(),
            final(self).spec_algorithm_2() == old(self).spec_algorithm_2(),
            final(self).spec_algorithm_4() == old(self).spec_algorithm_4(),
            final(self).spec_algorithm_5() == old(self).spec_algorithm_5(),
    {
        let x: u8 = if value { 1 } else { 0 };
        let ghost old_raw = self.0;
        proof {
            lemma_shift_table_u8();
            lemma_with_field_same_u8(old_raw, 2, 1, x);
            lemma_with_field_other_u8(old_raw, 2, 1, x, 0, 1);
            lemma_with_field_other_u8(old_raw, 2, 1, x, 1, 1);
            lemma_with_field_other_u8(old_raw, 2, 1, x, 3, 1);
            lemma_with_field_other_u8(old_raw, 2, 1, x, 4, 1);
        }
        self.0 = with_field_u8(self.0, 2, 1, x);
    }

    pub fn with_algorithm_3(self, value: bool) -> (r: Self)
        ensures
            r.spec_raw() == spec_with_field_u8(self.spec_raw(), 2, 1, (if value { 1u8 } else { 0u8 })),
            r.spec_algorithm_3() == value,
            r.spec_algorithm_1() == self.spec_algorithm_1(),
            r.spec_algorithm_2() == self.spec_algorithm_2(),
            r.spec_algorithm_4() == self.spec_algorithm_4(),
            r.spec_algorithm_5() == self.spec_algorithm_5(),
    {
        let mut r = self;
        r.set_algorithm_3(value);
        r
    }

    pub fn algorithm_4(&self) -> (r: bool)
        ensures
            r == self.spec_algorithm_4(),
    {
        field_u8(self.0, 3, 1) == 1
    }

    pub fn set_algorithm_4(&mut self, value: bool)
        ensures
            final(self).spec_raw() == spec_with_field_u8(old(self).spec_raw(), 3, 1, (if value { 1u8 } else { 0u8 })),
            final(self).spec_algorithm_4() == value,
            final(self).spec_algorithm_1() == old(self).spec_algorithm_1(),
            final(self).spec_algorithm_2() == old(self).spec_algorithm_2(),
            final(self).spec_algorithm_3() == old(self).spec_algorithm_3(),
            final(self).spec_algorithm_5() == old(self).spec_algorithm_5(),
    {
        let x: u8 = if value { 1 } else { 0 };
        let ghost old_raw = self.0;
        proof {
            lemma_shift_table_u8();
            lemma_with_field_same_u8(old_raw, 3, 1, x);
            lemma_with_field_other_u8(old_raw, 3, 1, x, 0, 1);
            lemma_with_field_other_u8(old_raw, 3, 1, x, 1, 1);
            lemma_with_field_other_u8(old_raw, 3, 1, x, 2, 1);
            lemma_with_field_other_u8(old_raw, 3, 1, x, 4, 1);
        }
        self.0 = with_field_u8(self.0, 3, 1, x);
    }

    pub fn with_algorithm_4(self, value: bool) -> (r: Self)
        ensures
            r.spec_raw() == spec_with_field_u8(self.spec_raw(), 3, 1, (if value { 1u8 } else { 0u8 })),
            r.spec_algorithm_4() == value,
            r.spec_algorithm_1() == self.spec_algorithm_1(),
            r.spec_algorithm_2() == self.spec_algorithm_2(),
            r.spec_algorithm_3() == self.spec_algorithm_3(),
            r.spec_algorithm_5() == self.spec_algorithm_5(),
    {
        let mut r = self;
        r.set_algorithm_4(value);
        r
    }

    pub fn algorithm_5(&self) -> (r: bool)
        ensures
            r == self.spec_algorithm_5(),
    {
        field_u8(self.0, 4, 1) == 1
    }

    pub fn set_algorithm_5(&mut self, value: bool)
        ensures
            final(self).spec_raw() == spec_with_field_u8(old(self).spec_raw(), 4, 1, (if value { 1u8 } else { 0u8 })),
            final(self).spec_algorithm_5() == value,
            final(self).spec_algorithm_1() == old(self).spec_algorithm_1(),
            final(self).spec_algorithm_2() == old(self).spec_algorithm_2(),
            final(self).spec_algorithm_3() == old(self).spec_algorithm_3(),
            final(self).spec_algorithm_4() == old(self).spec_algorithm_4(),
    {
        let x: u8 = if value { 1 } else { 0 };
        let ghost old_raw = self.0;
        proof {
            lemma_shift_table_u8();
            lemma_with_field_same_u8(old_raw, 4, 1, x);
            lemma_with_field_other_u8(old_raw, 4, 1, x, 0, 1);
            lemma_with_field_other_u8(old_raw, 4, 1, x, 1, 1);
            lemma_with_field_other_u8(old_raw, 4, 1, x, 2, 1);
            lemma_with_field_other_u8(old_raw, 4, 1, x, 3, 1);
        }
        self.0 = with_field_u8(self.0, 4, 1, x);
    }

    pub fn with_algorithm_5(self, value: bool) -> (r: Self)
        ensures
            r.spec_raw() == spec_with_field_u8(self.spec_raw(), 4, 1, (if value { 1u8 } else { 0u8 })),
            r.spec_algorithm_5() == value,
            r.spec_algorithm_1() == self.spec_algorithm_1(),
            r.spec_algorithm_2() == self.spec_algorithm_2(),
            r.spec_algorithm_3() == self.spec_algorithm_3(),
            r.spec_algorithm_4() == self.spec_algorithm_4(),
    {
        let mut r = self;
        r.set_algorithm_5(value);
        r
    }

    /// The bits that have a meaning; the others are reserved.
    pub const VALID_BITS: u64 = 0x1f;

    /// Whether VALUE leaves all reserved bits clear.
    pub fn all_reserved_bits_are_unused(value: u64) -> (r: bool)
        ensures
            r == (value & !0x1fu64 == 0),
    {
        value & !Self::VALID_BITS == 0
    }

    pub fn from_u64(value: u64) -> (r: Option<Self>)
        ensures
            r is Some <==> (value & !0x1fu64 == 0 && value <= 0xff),
            r matches Some(x) ==> x.spec_raw() == value,
    {
        if Self::all_reserved_bits_are_unused(value) {
            if value <= 0xff {
                Some(MemPmuBistTestSelect(value as u8))
            } else {
                None
            }
        } else {
            None
        }
    }

    pub fn from_i64(value: i64) -> (r: Option<Self>)
        ensures
            r is Some <==> (value >= 0 && (value as u64) & !0x1fu64 == 0 && value <= 0xff),
            r matches Some(x) ==> x.spec_raw() == value,
    {
        if value >= 0 {
            Self::from_u64(value as u64)
        } else {
            None
        }
    }

    pub fn to_u64(&self) -> (r: Option<u64>)
        ensures
            r == Some(self.spec_raw() as u64),
    {
        Some(self.0 as u64)
    }

    pub fn to_i64(&self) -> (r: Option<i64>)
        ensures
            r == Some(self.spec_raw() as i64),
    {
        Some(self.0 as i64)
    }

}

/// The eSPI controller of the console serial port, and which I/O ports are disabled.
#[derive(Debug, Clone, Copy, PartialEq, Eq, Structural)]
pub struct FchConsoleOutSerialPortEspiControllerSelect(u8);

impl FchConsoleOutSerialPortEspiControllerSelect {
    /// The packed bits.
    pub closed spec fn spec_raw(self) -> u8 {
        self.0
    }

    /// The value with the given packed bits.
    pub closed spec fn spec_from_raw(raw: u8) -> Self {
        FchConsoleOutSerialPortEspiControllerSelect(raw)
    }

    /// The packed bits determine the value, and any packed bits make a value.
    pub proof fn lemma_raw(x: Self, raw: u8)
        ensures
            Self::spec_from_raw(raw).spec_raw() == raw,
            Self::spec_from_raw(x.spec_raw()) == x,
    {
    }

    pub open spec fn spec_espi_controller(self) -> u8 {
        spec_field_u8(self.spec_raw(), 0, 1)
    }

    pub open spec fn spec_io_2e_2f_disabled(self) -> bool {
        spec_field_u8(self.spec_raw(), 3, 1) == 1
    }

    pub open spec fn spec_io_4e_4f_disabled(self) -> bool {
        spec_field_u8(self.spec_raw(), 4, 1) == 1
    }

    /// All bits clear.
    pub fn new() -> (r: Self)
        ensures
            r.spec_raw() == 0,
    {
        FchConsoleOutSerialPortEspiControllerSelect(0)
    }

    /// The value with the given packed bits.
    pub fn from_raw(raw: u8) -> (r: Self)
        ensures
            r.spec_raw() == raw,
            r == Self::spec_from_raw(raw),
    {
        FchConsoleOutSerialPortEspiControllerSelect(raw)
    }

    /// The packed bits.
    pub fn into_raw(self) -> (r: u8)
        ensures
            r == self.spec_raw(),
    {
        self.0
    }

    pub fn espi_controller(&self) -> (r: EspiController)
        ensures
            Some(r) == EspiController::spec_from_u64(self.spec_espi_controller() as u64),
    {
        proof {
            lemma_shift_table_u8();
        }
        EspiController::from_u64(field_u8(self.0, 0, 1) as u64).unwrap()
    }

    pub fn set_espi_controller(&mut self, value: EspiController)
        ensures
            final(self).spec_raw() == spec_with_field_u8(old(self).spec_raw(), 0, 1, value.spec_to_u64() as u8),
            final(self).spec_espi_controller() == value.spec_to_u64() as u8,
            final(self).spec_io_2e_2f_disabled() == old(self).spec_io_2e_2f_disabled(),
            final(self).spec_io_4e_4f_disabled() == old(self).spec_io_4e_4f_disabled(),
    {
        let x: u8 = value.to_u64().unwrap() as u8;
        let ghost old_raw = self.0;
        proof {
            lemma_shift_table_u8();
            lemma_with_field_same_u8(old_raw, 0, 1, x);
            lemma_with_field_other_u8(old_raw, 0, 1, x, 3, 1);
            lemma_with_field_other_u8(old_raw, 0, 1, x, 4, 1);
        }
        self.0 = with_field_u8(self.0, 0, 1, x);
    }

    pub fn with_espi_controller(self, value: EspiController) -> (r: Self)
        ensures
            r.spec_raw() == spec_with_field_u8(self.spec_raw(), 0, 1, value.spec_to_u64() as u8),
            r.spec_espi_controller() == value.spec_to_u64() as u8,
            r.spec_io_2e_2f_disabled() == self.spec_io_2e_2f_disabled(),
            r.spec_io_4e_4f_disabled() == self.spec_io_4e_4f_disabled(),
    {
        let mut r = self;
        r.set_espi_controller(value);
        r
    }

    pub fn io_2e_2f_disabled(&self) -> (r: bool)
        ensures
            r == self.spec_io_2e_2f_disabled(),
    {
        field_u8(self.0, 3, 1) == 1
    }

    pub fn set_io_2e_2f_disabled(&mut self, value: bool)
        ensures
            final(self).spec_raw() == spec_with_field_u8(old(self).spec_raw(), 3, 1, (if value { 1u8 } else { 0u8 })),
            final(self).spec_io_2e_2f_disabled() == value,
            final(self).spec_espi_controller() == old(self).spec_espi_controller(),
            final(self).spec_io_4e_4f_disabled() == old(self).spec_io_4e_4f_disabled(),
    {
        let x: u8 = if value { 1 } else { 0 };
        let ghost old_raw = self.0;
        proof {
            lemma_shift_table_u8();
            lemma_with_field_same_u8(old_raw, 3, 1, x);
            lemma_with_field_other_u8(old_raw, 3, 1, x, 0, 1);
            lemma_with_field_other_u8(old_raw, 3, 1, x, 4, 1);
        }
        self.0 = with_field_u8(self.0, 3, 1, x);
    }

    pub fn with_io_2e_2f_disabled(self, value: bool) -> (r: Self)
        ensures
            r.spec_raw() == spec_with_field_u8(self.spec_raw(), 3, 1, (if value { 1u8 } else { 0u8 })),
            r.spec_io_2e_2f_disabled() == value,
            r.spec_espi_controller() == self.spec_espi_controller(),
            r.spec_io_4e_4f_disabled() == self.spec_io_4e_4f_disabled(),
    {
        let mut r = self;
        r.set_io_2e_2f_disabled(value);
        r
    }

    pub fn io_4e_4f_disabled(&self) -> (r: bool)
        ensures
            r == self.spec_io_4e_4f_disabled(),
    {
        field_u8(self.0, 4, 1) == 1
    }

    pub fn set_io_4e_4f_disabled(&mut self, value: bool)
        ensures
            final(self).spec_raw() == spec_with_field_u8(old(self).spec_raw(), 4, 1, (if value { 1u8 } else { 0u8 })),
            final(self).spec_io_4e_4f_disabled() == value,
            final(self).spec_espi_controller() == old(self).spec_espi_controller(),
            final(self).spec_io_2e_2f_disabled() == old(self).spec_io_2e_2f_disabled(),
    {
        let x: u8 = if value { 1 } else { 0 };
        let ghost old_raw = self.0;
        proof {
            lemma_shift_table_u8();
            lemma_with_field_same_u8(old_raw, 4, 1, x);
            lemma_with_field_other_u8(old_raw, 4, 1, x, 0, 1);
            lemma_with_field_other_u8(old_raw, 4, 1, x, 3, 1);
        }
        self.0 = with_field_u8(self.0, 4, 1, x);
    }

    pub fn with_io_4e_4f_disabled(self, value: bool) -> (r: Self)
        ensures
            r.spec_raw() == spec_with_field_u8(self.spec_raw(), 4, 1, (if value { 1u8 } else { 0u8 })),
            r.spec_io_4e_4f_disabled() == value,
            r.spec_espi_controller() == self.spec_espi_controller(),
            r.spec_io_2e_2f_disabled() == self.spec_io_2e_2f_disabled(),
    {
        let mut r = self;
        r.set_io_4e_4f_disabled(value);
        r
    }

    /// The bits that have a meaning; the others are reserved.
    pub const VALID_BITS: u64 = 0x19;

    /// Whether VALUE leaves all reserved bits clear.
    pub fn all_reserved_bits_are_unused(value: u64) -> (r: bool)
        ensures
            r == (value & !0x19u64 == 0),
    {
        value & !Self::VALID_BITS == 0
    }

    pub fn from_u64(value: u64) -> (r: Option<Self>)
        ensures
            r is Some <==> (value & !0x19u64 == 0 && value <= 0xff),
            r matches Some(x) ==> x.spec_raw() == value,
    {
        if Self::all_reserved_bits_are_unused(value) {
            if value <= 0xff {
                Some(FchConsoleOutSerialPortEspiControllerSelect(value as u8))
            } else {
                None
            }
        } else {
            None
        }
    }

    pub fn from_i64(value: i64) -> (r: Option<Self>)
        ensures
            r is Some <==> (value >= 0 && (value as u64) & !0x19u64 == 0 && value <= 0xff),
            r matches Some(x) ==> x.spec_raw() == value,
    {
        if value >= 0 {
            Self::from_u64(value as u64)
        } else {
            None
        }
    }

    pub fn to_u64(&self) -> (r: Option<u64>)
        ensures
            r == Some(self.spec_raw() as u64),
    {
        Some(self.0 as u64)
    }

    pub fn to_i64(&self) -> (r: Option<i64>)
        ensures
            r == Some(self.spec_raw() as i64),
    {
        Some(self.0 as i64)
    }

}

/// The PMU built-in self test algorithms (one bit each).
#[derive(Debug, Clone, Copy, PartialEq, Eq, Structural)]
pub struct MemPmuBistAlgorithmSelect(u16);

impl MemPmuBistAlgorithmSelect {
    /// The packed bits.
    pub closed spec fn spec_raw(self) -> u16 {
        self.0
    }

    /// The value with the given packed bits.
    pub closed spec fn spec_from_raw(raw: u16) -> Self {
        MemPmuBistAlgorithmSelect(raw)
    }

    /// The packed bits determine the value, and any packed bits make a value.
    pub proof fn lemma_raw(x: Self, raw: u16)
        ensures
            Self::spec_from_raw(raw).spec_raw() == raw,
            Self::spec_from_raw(x.spec_raw()) == x,
    {
    }

    pub open spec fn spec_algorithm_1(self) -> bool {
        spec_field_u16(self.spec_raw(), 0, 1) == 1
    }

    pub open spec fn spec_algorithm_2(self) -> bool {
        spec_field_u16(self.spec_raw(), 1, 1) == 1
    }

    pub open spec fn spec_algorithm_3(self) -> bool {
        spec_field_u16(self.spec_raw(), 2, 1) == 1
    }

    pub open spec fn spec_algorithm_4(self) -> bool {
        spec_field_u16(self.spec_raw(), 3, 1) == 1
    }

    pub open spec fn spec_algorithm_5(self) -> bool {
        spec_field_u16(self.spec_raw(), 4, 1) == 1
    }

    pub open spec fn spec_algorithm_6(self) -> bool {
        spec_field_u16(self.spec_raw(), 5, 1) == 1
    }

    pub open spec fn spec_algorithm_7(self) -> bool {
        spec_field_u16(self.spec_raw(), 6, 1) == 1
    }

    pub open spec fn spec_algorithm_8(self) -> bool {
        spec_field_u16(self.spec_raw(), 7, 1) == 1
    }

    pub open spec fn spec_algorithm_9(self) -> bool {
        spec_field_u16(self.spec_raw(), 8, 1) == 1
    }

    /// All bits clear.
    pub fn new() -> (r: Self)
        ensures
            r.spec_raw() == 0,
    {
        MemPmuBistAlgorithmSelect(0)
    }

    /// The value with the given packed bits.
    pub fn from_raw(raw: u16) -> (r: Self)
        ensures
            r.spec_raw() == raw,
            r == Self::spec_from_raw(raw),
    {
        MemPmuBistAlgorithmSelect(raw)
    }

    /// The packed bits.
    pub fn into_raw(self) -> (r: u16)
        ensures
            r == self.spec_raw(),
    {
        self.0
    }

    pub fn algorithm_1(&self) -> (r: bool)
        ensures
            r == self.spec_algorithm_1(),
    {
        field_u16(self.0, 0, 1) == 1
    }

    pub fn set_algorithm_1(&mut self, value: bool)
        ensures
            final(self).spec_raw() == spec_with_field_u16(old(self).spec_raw(), 0, 1, (if value { 1u16 } else { 0u16 })),
            final(self).spec_algorithm_1() == value,
            final(self).spec_algorithm_2() == old(self).spec_algorithm_2(),
            final(self).spec_algorithm_3() == old(self).spec_algorithm_3(),
            final(self).spec_algorithm_4() == old(self).spec_algorithm_4(),
            final(self).spec_algorithm_5() == old(self).spec_algorithm_5(),
            final(self).spec_algorithm_6() == old(self).spec_algorithm_6(),
            final(self).spec_algorithm_7() == old(self).spec_algorithm_7(),
            final(self).spec_algorithm_8() == old(self).spec_algorithm_8(),
            final(self).spec_algorithm_9() == old(self).spec_algorithm_9(),
    {
        let x: u16 = if value { 1 } else { 0 };
        let ghost old_raw = self.0;
        proof {
            lemma_shift_table_u16();
            lemma_with_field_same_u16(old_raw, 0, 1, x);
            lemma_with_field_other_u16(old_raw, 0, 1, x, 1, 1);
            lemma_with_field_other_u16(old_raw, 0, 1, x, 2, 1);
            lemma_with_field_other_u16(old_raw, 0, 1, x, 3, 1);
            lemma_with_field_other_u16(old_raw, 0, 1, x, 4, 1);
            lemma_with_field_other_u16(old_raw, 0, 1, x, 5, 1);
            lemma_with_field_other_u16(old_raw, 0, 1, x, 6, 1);
            lemma_with_field_other_u16(old_raw, 0, 1, x, 7, 1);
            lemma_with_field_other_u16(old_raw, 0, 1, x, 8, 1);
        }
        self.0 = with_field_u16(self.0, 0, 1, x);
    }

    pub fn with_algorithm_1(self, value: bool) -> (r: Self)
        ensures
            r.spec_raw() == spec_with_field_u16(self.spec_raw(), 0, 1, (if value { 1u16 } else { 0u16 })),
            r.spec_algorithm_1() == value,
            r.spec_algorithm_2() == self.spec_algorithm_2(),
            r.spec_algorithm_3() == self.spec_algorithm_3(),
            r.spec_algorithm_4() == self.spec_algorithm_4(),
            r.spec_algorithm_5() == self.spec_algorithm_5(),
            r.spec_algorithm_6() == self.spec_algorithm_6(),
            r.spec_algorithm_7() == self.spec_algorithm_7(),
            r.spec_algorithm_8() == self.spec_algorithm_8(),
            r.spec_algorithm_9() == self.spec_algorithm_9(),
    {
        let mut r = self;
        r.set_algorithm_1(value);
        r
    }

    pub fn algorithm_2(&self) -> (r: bool)
        ensures
            r == self.spec_algorithm_2(),
    {
        field_u16(self.0, 1, 1) == 1
    }

    pub fn set_algorithm_2(&mut self, value: bool)
        ensures
            final(self).spec_raw() == spec_with_field_u16(old(self).spec_raw(), 1, 1, (if value { 1u16 } else { 0u16 })),
            final(self).spec_algorithm_2() == value,
            final(self).spec_algorithm_1() == old(self).spec_algorithm_1(),
            final(self).spec_algorithm_3() == old(self).spec_algorithm_3(),
            final(self).spec_algorithm_4() == old(self).spec_algorithm_4(),
            final(self).spec_algorithm_5() == old(self).spec_algorithm_5(),
            final(self).spec_algorithm_6() == old(self).spec_algorithm_6(),
            final(self).spec_algorithm_7() == old(self).spec_algorithm_7(),
            final(self).spec_algorithm_8() == old(self).spec_algorithm_8(),
            final(self).spec_algorithm_9() == old(self).spec_algorithm_9(),
    {
        let x: u16 = if value { 1 } else { 0 };
        let ghost old_raw = self.0;
        proof {
            lemma_shift_table_u16();
            lemma_with_field_same_u16(old_raw, 1, 1, x);
            lemma_with_field_other_u16(old_raw, 1, 1, x, 0, 1);
            lemma_with_field_other_u16(old_raw, 1, 1, x, 2, 1);
            lemma_with_field_other_u16(old_raw, 1, 1, x, 3, 1);
            lemma_with_field_other_u16(old_raw, 1, 1, x, 4, 1);
            lemma_with_field_other_u16(old_raw, 1, 1, x, 5, 1);
            lemma_with_field_other_u16(old_raw, 1, 1, x, 6, 1);
            lemma_with_field_other_u16(old_raw, 1, 1, x, 7, 1);
            lemma_with_field_other_u16(old_raw, 1, 1, x, 8, 1);
        }
        self.0 = with_field_u16(self.0, 1, 1, x);
    }

    pub fn with_algorithm_2(self, value: bool) -> (r: Self)
        ensures
            r.spec_raw() == spec_with_field_u16(self.spec_raw(), 1, 1, (if value { 1u16 } else { 0u16 })),
            r.spec_algorithm_2() == value,
            r.spec_algorithm_1() == self.spec_algorithm_1(),
            r.spec_algorithm_3() == self.spec_algorithm_3(),
            r.spec_algorithm_4() == self.spec_algorithm_4(),
            r.spec_algorithm_5() == self.spec_algorithm_5(),
            r.spec_algorithm_6() == self.spec_algorithm_6(),
            r.spec_algorithm_7() == self.spec_algorithm_7(),
            r.spec_algorithm_8() == self.spec_algorithm_8(),
            r.spec_algorithm_9() == self.spec_algorithm_9(),
    {
        let mut r = self;
        r.set_algorithm_2(value);
        r
    }

    pub fn algorithm_3(&self) -> (r: bool)
        ensures
            r == self.spec_algorithm_3(),
    {
        field_u16(self.0, 2, 1) == 1
    }

    pub fn set_algorithm_3(&mut self, value: bool)
        ensures
            final(self).spec_raw() == spec_with_field_u16(old(self).spec_raw(), 2, 1, (if value { 1u16 } else { 0u16 })),
            final(self).spec_algorithm_3() == value,
            final(self).spec_algorithm_1() == old(self).spec_algorithm_1(),
            final(self).spec_algorithm_2() == old(self).spec_algorithm_2(),
            final(self).spec_algorithm_4() == old(self).spec_algorithm_4(),
            final(self).spec_algorithm_5() == old(self).spec_algorithm_5(),
            final(self).spec_algorithm_6() == old(self).spec_algorithm_6(),
            final(self).spec_algorithm_7() == old(self).spec_algorithm_7(),
            final(self).spec_algorithm_8() == old(self).spec_algorithm_8(),
            final(self).spec_algorithm_9() == old(self).spec_algorithm_9(),
    {
        let x: u16 = if value { 1 } else { 0 };
        let ghost old_raw = self.0;
        proof {
            lemma_shift_table_u16();
            lemma_with_field_same_u16(old_raw, 2, 1, x);
            lemma_with_field_other_u16(old_raw, 2, 1, x, 0, 1);
            lemma_with_field_other_u16(old_raw, 2, 1, x, 1, 1);
            lemma_with_field_other_u16(old_raw, 2, 1, x, 3, 1);
            lemma_with_field_other_u16(old_raw, 2, 1, x, 4, 1);
            lemma_with_field_other_u16(old_raw, 2, 1, x, 5, 1);
            lemma_with_field_other_u16(old_raw, 2, 1, x, 6, 1);
            lemma_with_field_other_u16(old_raw, 2, 1, x, 7, 1);
            lemma_with_field_other_u16(old_raw, 2, 1, x, 8, 1);
        }
        self.0 = with_field_u16(self.0, 2, 1, x);
    }

    pub fn with_algorithm_3(self, value: bool) -> (r: Self)
        ensures
            r.spec_raw() == spec_with_field_u16(self.spec_raw(), 2, 1, (if value { 1u16 } else { 0u16 })),
            r.spec_algorithm_3() == value,
            r.spec_algorithm_1() == self.spec_algorithm_1(),
            r.spec_algorithm_2() == self.spec_algorithm_2(),
            r.spec_algorithm_4() == self.spec_algorithm_4(),
            r.spec_algorithm_5() == self.spec_algorithm_5(),
            r.spec_algorithm_6() == self.spec_algorithm_6(),
            r.spec_algorithm_7() == self.spec_algorithm_7(),
            r.spec_algorithm_8() == self.spec_algorithm_8(),
            r.spec_algorithm_9() == self.spec_algorithm_9(),
    {
        let mut r = self;
        r.set_algorithm_3(value);
        r
    }

    pub fn algorithm_4(&self) -> (r: bool)
        ensures
            r == self.spec_algorithm_4(),
    {
        field_u16(self.0, 3, 1) == 1
    }

    pub fn set_algorithm_4(&mut self, value: bool)
        ensures
            final(self).spec_raw() == spec_with_field_u16(old(self).spec_raw(), 3, 1, (if value { 1u16 } else { 0u16 })),
            final(self).spec_algorithm_4() == value,
            final(self).spec_algorithm_1() == old(self).spec_algorithm_1(),
            final(self).spec_algorithm_2() == old(self).spec_algorithm_2(),
            final(self).spec_algorithm_3() == old(self).spec_algorithm_3(),
            final(self).spec_algorithm_5() == old(self).spec_algorithm_5(),
            final(self).spec_algorithm_6() == old(self).spec_algorithm_6(),
            final(self).spec_algorithm_7() == old(self).spec_algorithm_7(),
            final(self).spec_algorithm_8() == old(self).spec_algorithm_8(),
            final(self).spec_algorithm_9() == old(self).spec_algorithm_9(),
    {
        let x: u16 = if value { 1 } else { 0 };
        let ghost old_raw = self.0;
        proof {
            lemma_shift_table_u16();
            lemma_with_field_same_u16(old_raw, 3, 1, x);
            lemma_with_field_other_u16(old_raw, 3, 1, x, 0, 1);
            lemma_with_field_other_u16(old_raw, 3, 1, x, 1, 1);
            lemma_with_field_other_u16(old_raw, 3, 1, x, 2, 1);
            lemma_with_field_other_u16(old_raw, 3, 1, x, 4, 1);
            lemma_with_field_other_u16(old_raw, 3, 1, x, 5, 1);
            lemma_with_field_other_u16(old_raw, 3, 1, x, 6, 1);
            lemma_with_field_other_u16(old_raw, 3, 1, x, 7, 1);
            lemma_with_field_other_u16(old_raw, 3, 1, x, 8, 1);
        }
        self.0 = with_field_u16(self.0, 3, 1, x);
    }

    pub fn with_algorithm_4(self, value: bool) -> (r: Self)
        ensures
            r.spec_raw() == spec_with_field_u16(self.spec_raw(), 3, 1, (if value { 1u16 } else { 0u16 })),
            r.spec_algorithm_4() == value,
            r.spec_algorithm_1() == self.spec_algorithm_1(),
            r.spec_algorithm_2() == self.spec_algorithm_2(),
            r.spec_algorithm_3() == self.spec_algorithm_3(),
            r.spec_algorithm_5() == self.spec_algorithm_5(),
            r.spec_algorithm_6() == self.spec_algorithm_6(),
            r.spec_algorithm_7() == self.spec_algorithm_7(),
            r.spec_algorithm_8() == self.spec_algorithm_8(),
            r.spec_algorithm_9() == self.spec_algorithm_9(),
    {
        let mut r = self;
        r.set_algorithm_4(value);
        r
    }

    pub fn algorithm_5(&self) -> (r: bool)
        ensures
            r == self.spec_algorithm_5(),
    {
        field_u16(self.0, 4, 1) == 1
    }

    pub fn set_algorithm_5(&mut self, value: bool)
        ensures
            final(self).spec_raw() == spec_with_field_u16(old(self).spec_raw(), 4, 1, (if value { 1u16 } else { 0u16 })),
            final(self).spec_algorithm_5() == value,
            final(self).spec_algorithm_1() == old(self).spec_algorithm_1(),
            final(self).spec_algorithm_2() == old(self).spec_algorithm_2(),
            final(self).spec_algorithm_3() == old(self).spec_algorithm_3(),
            final(self).spec_algorithm_4() == old(self).spec_algorithm_4(),
            final(self).spec_algorithm_6() == old(self).spec_algorithm_6(),
            final(self).spec_algorithm_7() == old(self).spec_algorithm_7(),
            final(self).spec_algorithm_8() == old(self).spec_algorithm_8(),
            final(self).spec_algorithm_9() == old(self).spec_algorithm_9(),
    {
        let x: u16 = if value { 1 } else { 0 };
        let ghost old_raw = self.0;
        proof {
            lemma_shift_table_u16();
            lemma_with_field_same_u16(old_raw, 4, 1, x);
            lemma_with_field_other_u16(old_raw, 4, 1, x, 0, 1);
            lemma_with_field_other_u16(old_raw, 4, 1, x, 1, 1);
            lemma_with_field_other_u16(old_raw, 4, 1, x, 2, 1);
            lemma_with_field_other_u16(old_raw, 4, 1, x, 3, 1);
            lemma_with_field_other_u16(old_raw, 4, 1, x, 5, 1);
            lemma_with_field_other_u16(old_raw, 4, 1, x, 6, 1);
            lemma_with_field_other_u16(old_raw, 4, 1, x, 7, 1);
            lemma_with_field_other_u16(old_raw, 4, 1, x, 8, 1);
        }
        self.0 = with_field_u16(self.0, 4, 1, x);
    }

    pub fn with_algorithm_5(self, value: bool) -> (r: Self)
        ensures
            r.spec_raw() == spec_with_field_u16(self.spec_raw(), 4, 1, (if value { 1u16 } else { 0u16 })),
            r.spec_algorithm_5() == value,
            r.spec_algorithm_1() == self.spec_algorithm_1(),
            r.spec_algorithm_2() == self.spec_algorithm_2(),
            r.spec_algorithm_3() == self.spec_algorithm_3(),
            r.spec_algorithm_4() == self.spec_algorithm_4(),
            r.spec_algorithm_6() == self.spec_algorithm_6(),
            r.spec_algorithm_7() == self.spec_algorithm_7(),
            r.spec_algorithm_8() == self.spec_algorithm_8(),
            r.spec_algorithm_9() == self.spec_algorithm_9(),
    {
        let mut r = self;
        r.set_algorithm_5(value);
        r
    }

    pub fn algorithm_6(&self) -> (r: bool)
        ensures
            r == self.spec_algorithm_6(),
    {
        field_u16(self.0, 5, 1) == 1
    }

    pub fn set_algorithm_6(&mut self, value: bool)
        ensures
            final(self).spec_raw() == spec_with_field_u16(old(self).spec_raw(), 5, 1, (if value { 1u16 } else { 0u16 })),
            final(self).spec_algorithm_6() == value,
            final(self).spec_algorithm_1() == old(self).spec_algorithm_1(),
            final(self).spec_algorithm_2() == old(self).spec_algorithm_2(),
            final(self).spec_algorithm_3() == old(self).spec_algorithm_3(),
            final(self).spec_algorithm_4() == old(self).spec_algorithm_4(),
            final(self).spec_algorithm_5() == old(self).spec_algorithm_5(),
            final(self).spec_algorithm_7() == old(self).spec_algorithm_7(),
            final(self).spec_algorithm_8() == old(self).spec_algorithm_8(),
            final(self).spec_algorithm_9() == old(self).spec_algorithm_9(),
    {
        let x: u16 = if value { 1 } else { 0 };
        let ghost old_raw = self.0;
        proof {
            lemma_shift_table_u16();
            lemma_with_field_same_u16(old_raw, 5, 1, x);
            lemma_with_field_other_u16(old_raw, 5, 1, x, 0, 1);
            lemma_with_field_other_u16(old_raw, 5, 1, x, 1, 1);
            lemma_with_field_other_u16(old_raw, 5, 1, x, 2, 1);
            lemma_with_field_other_u16(old_raw, 5, 1, x, 3, 1);
            lemma_with_field_other_u16(old_raw, 5, 1, x, 4, 1);
            lemma_with_field_other_u16(old_raw, 5, 1, x, 6, 1);
            lemma_with_field_other_u16(old_raw, 5, 1, x, 7, 1);
            lemma_with_field_other_u16(old_raw, 5, 1, x, 8, 1);
        }
        self.0 = with_field_u16(self.0, 5, 1, x);
    }

    pub fn with_algorithm_6(self, value: bool) -> (r: Self)
        ensures
            r.spec_raw() == spec_with_field_u16(self.spec_raw(), 5, 1, (if value { 1u16 } else { 0u16 })),
            r.spec_algorithm_6() == value,
            r.spec_algorithm_1() == self.spec_algorithm_1(),
            r.spec_algorithm_2() == self.spec_algorithm_2(),
            r.spec_algorithm_3() == self.spec_algorithm_3(),
            r.spec_algorithm_4() == self.spec_algorithm_4(),
            r.spec_algorithm_5() == self.spec_algorithm_5(),
            r.spec_algorithm_7() == self.spec_algorithm_7(),
            r.spec_algorithm_8() == self.spec_algorithm_8(),
            r.spec_algorithm_9() == self.spec_algorithm_9(),
    {
        let mut r = self;
        r.set_algorithm_6(value);
        r
    }

    pub fn algorithm_7(&self) -> (r: bool)
        ensures
            r == self.spec_algorithm_7(),
    {
        field_u16(self.0, 6, 1) == 1
    }

    pub fn set_algorithm_7(&mut self, value: bool)
        ensures
            final(self).spec_raw() == spec_with_field_u16(old(self).spec_raw(), 6, 1, (if value { 1u16 } else { 0u16 })),
            final(self).spec_algorithm_7() == value,
            final(self).spec_algorithm_1() == old(self).spec_algorithm_1(),
            final(self).spec_algorithm_2() == old(self).spec_algorithm_2(),
            final(self).spec_algorithm_3() == old(self).spec_algorithm_3(),
            final(self).spec_algorithm_4() == old(self).spec_algorithm_4(),
            final(self).spec_algorithm_5() == old(self).spec_algorithm_5(),
            final(self).spec_algorithm_6() == old(self).spec_algorithm_6(),
            final(self).spec_algorithm_8() == old(self).spec_algorithm_8(),
            final(self).spec_algorithm_9() == old(self).spec_algorithm_9(),
    {
        let x: u16 = if value { 1 } else { 0 };
        let ghost old_raw = self.0;
        proof {
            lemma_shift_table_u16();
            lemma_with_field_same_u16(old_raw, 6, 1, x);
            lemma_with_field_other_u16(old_raw, 6, 1, x, 0, 1);
            lemma_with_field_other_u16(old_raw, 6, 1, x, 1, 1);
            lemma_with_field_other_u16(old_raw, 6, 1, x, 2, 1);
            lemma_with_field_other_u16(old_raw, 6, 1, x, 3, 1);
            lemma_with_field_other_u16(old_raw, 6, 1, x, 4, 1);
            lemma_with_field_other_u16(old_raw, 6, 1, x, 5, 1);
            lemma_with_field_other_u16(old_raw, 6, 1, x, 7, 1);
            lemma_with_field_other_u16(old_raw, 6, 1, x, 8, 1);
        }
        self.0 = with_field_u16(self.0, 6, 1, x);
    }

    pub fn with_algorithm_7(self, value: bool) -> (r: Self)
        ensures
            r.spec_raw() == spec_with_field_u16(self.spec_raw(), 6, 1, (if value { 1u16 } else { 0u16 })),
            r.spec_algorithm_7() == value,
            r.spec_algorithm_1() == self.spec_algorithm_1(),
            r.spec_algorithm_2() == self.spec_algorithm_2(),
            r.spec_algorithm_3() == self.spec_algorithm_3(),
            r.spec_algorithm_4() == self.spec_algorithm_4(),
            r.spec_algorithm_5() == self.spec_algorithm_5(),
            r.spec_algorithm_6() == self.spec_algorithm_6(),
            r.spec_algorithm_8() == self.spec_algorithm_8(),
            r.spec_algorithm_9() == self.spec_algorithm_9(),
    {
        let mut r = self;
        r.set_algorithm_7(value);
        r
    }

    pub fn algorithm_8(&self) -> (r: bool)
        ensures
            r == self.spec_algorithm_8(),
    {
        field_u16(self.0, 7, 1) == 1
    }

    pub fn set_algorithm_8(&mut self, value: bool)
        ensures
            final(self).spec_raw() == spec_with_field_u16(old(self).spec_raw(), 7, 1, (if value { 1u16 } else { 0u16 })),
            final(self).spec_algorithm_8() == value,
            final(self).spec_algorithm_1() == old(self).spec_algorithm_1(),
            final(self).spec_algorithm_2() == old(self).spec_algorithm_2(),
            final(self).spec_algorithm_3() == old(self).spec_algorithm_3(),
            final(self).spec_algorithm_4() == old(self).spec_algorithm_4(),
            final(self).spec_algorithm_5() == old(self).spec_algorithm_5(),
            final(self).spec_algorithm_6() == old(self).spec_algorithm_6(),
            final(self).spec_algorithm_7() == old(self).spec_algorithm_7(),
            final(self).spec_algorithm_9() == old(self).spec_algorithm_9(),
    {
        let x: u16 = if value { 1 } else { 0 };
        let ghost old_raw = self.0;
        proof {
            lemma_shift_table_u16();
            lemma_with_field_same_u16(old_raw, 7, 1, x);
            lemma_with_field_other_u16(old_raw, 7, 1, x, 0, 1);
            lemma_with_field_other_u16(old_raw, 7, 1, x, 1, 1);
            lemma_with_field_other_u16(old_raw, 7, 1, x, 2, 1);
            lemma_with_field_other_u16(old_raw, 7, 1, x, 3, 1);
            lemma_with_field_other_u16(old_raw, 7, 1, x, 4, 1);
            lemma_with_field_other_u16(old_raw, 7, 1, x, 5, 1);
            lemma_with_field_other_u16(old_raw, 7, 1, x, 6, 1);
            lemma_with_field_other_u16(old_raw, 7, 1, x, 8, 1);
        }
        self.0 = with_field_u16(self.0, 7, 1, x);
    }

    pub fn with_algorithm_8(self, value: bool) -> (r: Self)
        ensures
            r.spec_raw() == spec_with_field_u16(self.spec_raw(), 7, 1, (if value { 1u16 } else { 0u16 })),
            r.spec_algorithm_8() == value,
            r.spec_algorithm_1() == self.spec_algorithm_1(),
            r.spec_algorithm_2() == self.spec_algorithm_2(),
            r.spec_algorithm_3() == self.spec_algorithm_3(),
            r.spec_algorithm_4() == self.spec_algorithm_4(),
            r.spec_algorithm_5() == self.spec_algorithm_5(),
            r.spec_algorithm_6() == self.spec_algorithm_6(),
            r.spec_algorithm_7() == self.spec_algorithm_7(),
            r.spec_algorithm_9() == self.spec_algorithm_9(),
    {
        let mut r = self;
        r.set_algorithm_8(value);
        r
    }

    pub fn algorithm_9(&self) -> (r: bool)
        ensures
            r == self.spec_algorithm_9(),
    {
        field_u16(self.0, 8, 1) == 1
    }

    pub fn set_algorithm_9(&mut self, value: bool)
        ensures
            final(self).spec_raw() == spec_with_field_u16(old(self).spec_raw(), 8, 1, (if value { 1u16 } else { 0u16 })),
            final(self).spec_algorithm_9() == value,
            final(self).spec_algorithm_1() == old(self).spec_algorithm_1(),
            final(self).spec_algorithm_2() == old(self).spec_algorithm_2(),
            final(self).spec_algorithm_3() == old(self).spec_algorithm_3(),
            final(self).spec_algorithm_4() == old(self).spec_algorithm_4(),
            final(self).spec_algorithm_5() == old(self).spec_algorithm_5(),
            final(self).spec_algorithm_6() == old(self).spec_algorithm_6(),
            final(self).spec_algorithm_7() == old(self).spec_algorithm_7(),
            final(self).spec_algorithm_8() == old(self).spec_algorithm_8(),
    {
        let x: u16 = if value { 1 } else { 0 };
        let ghost old_raw = self.0;
        proof {
            lemma_shift_table_u16();
            lemma_with_field_same_u16(old_raw, 8, 1, x);
            lemma_with_field_other_u16(old_raw, 8, 1, x, 0, 1);
            lemma_with_field_other_u16(old_raw, 8, 1, x, 1, 1);
            lemma_with_field_other_u16(old_raw, 8, 1, x, 2, 1);
            lemma_with_field_other_u16(old_raw, 8, 1, x, 3, 1);
            lemma_with_field_other_u16(old_raw, 8, 1, x, 4, 1);
            lemma_with_field_other_u16(old_raw, 8, 1, x, 5, 1);
            lemma_with_field_other_u16(old_raw, 8, 1, x, 6, 1);
            lemma_with_field_other_u16(old_raw, 8, 1, x, 7, 1);
        }
        self.0 = with_field_u16(self.0, 8, 1, x);
    }

    pub fn with_algorithm_9(self, value: bool) -> (r: Self)
        ensures
            r.spec_raw() == spec_with_field_u16(self.spec_raw(), 8, 1, (if value { 1u16 } else { 0u16 })),
            r.spec_algorithm_9() == value,
            r.spec_algorithm_1() == self.spec_algorithm_1(),
            r.spec_algorithm_2() == self.spec_algorithm_2(),
            r.spec_algorithm_3() == self.spec_algorithm_3(),
            r.spec_algorithm_4() == self.spec_algorithm_4(),
            r.spec_algorithm_5() == self.spec_algorithm_5(),
            r.spec_algorithm_6() == self.spec_algorithm_6(),
            r.spec_algorithm_7() == self.spec_algorithm_7(),
            r.spec_algorithm_8() == self.spec_algorithm_8(),
    {
        let mut r = self;
        r.set_algorithm_9(value);
        r
    }

    /// The bits that have a meaning; the others are reserved.
    pub const VALID_BITS: u64 = 0x1ff;

    /// Whether VALUE leaves all reserved bits clear.
    pub fn all_reserved_bits_are_unused(value: u64) -> (r: bool)
        ensures
            r == (value & !0x1ffu64 == 0),
    {
        value & !Self::VALID_BITS == 0
    }

    pub fn from_u64(value: u64) -> (r: Option<Self>)
        ensures
            r is Some <==> (value & !0x1ffu64 == 0 && value <= 0xffff),
            r matches Some(x) ==> x.spec_raw() == value,
    {
        if Self::all_reserved_bits_are_unused(value) {
            if value <= 0xffff {
                Some(MemPmuBistAlgorithmSelect(value as u16))
            } else {
                None
            }
        } else {
            None
        }
    }

    pub fn from_i64(value: i64) -> (r: Option<Self>)
        ensures
            r is Some <==> (value >= 0 && (value as u64) & !0x1ffu64 == 0 && value <= 0xffff),
            r matches Some(x) ==> x.spec_raw() == value,
    {
        if value >= 0 {
            Self::from_u64(value as u64)
        } else {
            None
        }
    }

    pub fn to_u64(&self) -> (r: Option<u64>)
        ensures
            r == Some(self.spec_raw() as u64),
    {
        Some(self.0 as u64)
    }

    pub fn to_i64(&self) -> (r: Option<i64>)
        ensures
            r == Some(self.spec_raw() as i64),
    {
        Some(self.0 as i64)
    }

}

/// Whether each xGMI link (socket and link) is AC or DC coupled, one bit each.
#[derive(Debug, Clone, Copy, PartialEq, Eq, Structural)]
pub struct DfXgmiAcDcCoupledLink(u8);

impl DfXgmiAcDcCoupledLink {
    /// The packed bits.
    pub closed spec fn spec_raw(self) -> u8 {
        self.0
    }

    /// The value with the given packed bits.
    pub closed spec fn spec_from_raw(raw: u8) -> Self {
        DfXgmiAcDcCoupledLink(raw)
    }

    /// The packed bits determine the value, and any packed bits make a value.
    pub proof fn lemma_raw(x: Self, raw: u8)
        ensures
            Self::spec_from_raw(raw).spec_raw() == raw,
            Self::spec_from_raw(x.spec_raw()) == x,
    {
    }

    pub open spec fn spec_socket_0_link_0(self) -> u8 {
        spec_field_u8(self.spec_raw(), 0, 1)
    }

    pub open spec fn spec_socket_0_link_1(self) -> u8 {
        spec_field_u8(self.spec_raw(), 1, 1)
    }

    pub open spec fn spec_socket_0_link_2(self) -> u8 {
        spec_field_u8(self.spec_raw(), 2, 1)
    }

    pub open spec fn spec_socket_0_link_3(self) -> u8 {
        spec_field_u8(self.spec_raw(), 3, 1)
    }

    pub open spec fn spec_socket_1_link_0(self) -> u8 {
        spec_field_u8(self.spec_raw(), 4, 1)
    }

    pub open spec fn spec_socket_1_link_1(self) -> u8 {
        spec_field_u8(self.spec_raw(), 5, 1)
    }

    pub open spec fn spec_socket_1_link_2(self) -> u8 {
        spec_field_u8(self.spec_raw(), 6, 1)
    }

    pub open spec fn spec_socket_1_link_3(self) -> u8 {
        spec_field_u8(self.spec_raw(), 7, 1)
    }

    /// All bits clear.
    pub fn new() -> (r: Self)
        ensures
            r.spec_raw() == 0,
    {
        DfXgmiAcDcCoupledLink(0)
    }

    /// The value with the given packed bits.
    pub fn from_raw(raw: u8) -> (r: Self)
        ensures
            r.spec_raw() == raw,
            r == Self::spec_from_raw(raw),
    {
        DfXgmiAcDcCoupledLink(raw)
    }

    /// The packed bits.
    pub fn into_raw(self) -> (r: u8)
        ensures
            r == self.spec_raw(),
    {
        self.0
    }

    pub fn socket_0_link_0(&self) -> (r: DfXgmiAcDcMode)
        ensures
            Some(r) == DfXgmiAcDcMode::spec_from_u64(self.spec_socket_0_link_0() as u64),
    {
        proof {
            lemma_shift_table_u8();
        }
        DfXgmiAcDcMode::from_u64(field_u8(self.0, 0, 1) as u64).unwrap()
    }

    pub fn set_socket_0_link_0(&mut self, value: DfXgmiAcDcMode)
        ensures
            final(self).spec_raw() == spec_with_field_u8(old(self).spec_raw(), 0, 1, value.spec_to_u64() as u8),
            final(self).spec_socket_0_link_0() == value.spec_to_u64() as u8,
            final(self).spec_socket_0_link_1() == old(self).spec_socket_0_link_1(),
            final(self).spec_socket_0_link_2() == old(self).spec_socket_0_link_2(),
            final(self).spec_socket_0_link_3() == old(self).spec_socket_0_link_3(),
            final(self).spec_socket_1_link_0() == old(self).spec_socket_1_link_0(),
            final(self).spec_socket_1_link_1() == old(self).spec_socket_1_link_1(),
            final(self).spec_socket_1_link_2() == old(self).spec_socket_1_link_2(),
            final(self).spec_socket_1_link_3() == old(self).spec_socket_1_link_3(),
    {
        let x: u8 = value.to_u64().unwrap() as u8;
        let ghost old_raw = self.0;
        proof {
            lemma_shift_table_u8();
            lemma_with_field_same_u8(old_raw, 0, 1, x);
            lemma_with_field_other_u8(old_raw, 0, 1, x, 1, 1);
            lemma_with_field_other_u8(old_raw, 0, 1, x, 2, 1);
            lemma_with_field_other_u8(old_raw, 0, 1, x, 3, 1);
            lemma_with_field_other_u8(old_raw, 0, 1, x, 4, 1);
            lemma_with_field_other_u8(old_raw, 0, 1, x, 5, 1);
            lemma_with_field_other_u8(old_raw, 0, 1, x, 6, 1);
            lemma_with_field_other_u8(old_raw, 0, 1, x, 7, 1);
        }
        self.0 = with_field_u8(self.0, 0, 1, x);
    }

    pub fn with_socket_0_link_0(self, value: DfXgmiAcDcMode) -> (r: Self)
        ensures
            r.spec_raw() == spec_with_field_u8(self.spec_raw(), 0, 1, value.spec_to_u64() as u8),
            r.spec_socket_0_link_0() == value.spec_to_u64() as u8,
            r.spec_socket_0_link_1() == self.spec_socket_0_link_1(),
            r.spec_socket_0_link_2() == self.spec_socket_0_link_2(),
            r.spec_socket_0_link_3() == self.spec_socket_0_link_3(),
            r.spec_socket_1_link_0() == self.spec_socket_1_link_0(),
            r.spec_socket_1_link_1() == self.spec_socket_1_link_1(),
            r.spec_socket_1_link_2() == self.spec_socket_1_link_2(),
            r.spec_socket_1_link_3() == self.spec_socket_1_link_3(),
    {
        let mut r = self;
        r.set_socket_0_link_0(value);
        r
    }

    pub fn socket_0_link_1(&self) -> (r: DfXgmiAcDcMode)
        ensures
            Some(r) == DfXgmiAcDcMode::spec_from_u64(self.spec_socket_0_link_1() as u64),
    {
        proof {
            lemma_shift_table_u8();
        }
        DfXgmiAcDcMode::from_u64(field_u8(self.0, 1, 1) as u64).unwrap()
    }

    pub fn set_socket_0_link_1(&mut self, value: DfXgmiAcDcMode)
        ensures
            final(self).spec_raw() == spec_with_field_u8(old(self).spec_raw(), 1, 1, value.spec_to_u64() as u8),
            final(self).spec_socket_0_link_1() == value.spec_to_u64() as u8,
            final(self).spec_socket_0_link_0() == old(self).spec_socket_0_link_0(),
            final(self).spec_socket_0_link_2() == old(self).spec_socket_0_link_2(),
            final(self).spec_socket_0_link_3() == old(self).spec_socket_0_link_3(),
            final(self).spec_socket_1_link_0() == old(self).spec_socket_1_link_0(),
            final(self).spec_socket_1_link_1() == old(self).spec_socket_1_link_1(),
            final(self).spec_socket_1_link_2() == old(self).spec_socket_1_link_2(),
            final(self).spec_socket_1_link_3() == old(self).spec_socket_1_link_3(),
    {
        let x: u8 = value.to_u64().unwrap() as u8;
        let ghost old_raw = self.0;
        proof {
            lemma_shift_table_u8();
            lemma_with_field_same_u8(old_raw, 1, 1, x);
            lemma_with_field_other_u8(old_raw, 1, 1, x, 0, 1);
            lemma_with_field_other_u8(old_raw, 1, 1, x, 2, 1);
            lemma_with_field_other_u8(old_raw, 1, 1, x, 3, 1);
            lemma_with_field_other_u8(old_raw, 1, 1, x, 4, 1);
            lemma_with_field_other_u8(old_raw, 1, 1, x, 5, 1);
            lemma_with_field_other_u8(old_raw, 1, 1, x, 6, 1);
            lemma_with_field_other_u8(old_raw, 1, 1, x, 7, 1);
        }
        self.0 = with_field_u8(self.0, 1, 1, x);
    }

    pub fn with_socket_0_link_1(self, value: DfXgmiAcDcMode) -> (r: Self)
        ensures
            r.spec_raw() == spec_with_field_u8(self.spec_raw(), 1, 1, value.spec_to_u64() as u8),
            r.spec_socket_0_link_1() == value.spec_to_u64() as u8,
            r.spec_socket_0_link_0() == self.spec_socket_0_link_0(),
            r.spec_socket_0_link_2() == self.spec_socket_0_link_2(),
            r.spec_socket_0_link_3() == self.spec_socket_0_link_3(),
            r.spec_socket_1_link_0() == self.spec_socket_1_link_0(),
            r.spec_socket_1_link_1() == self.spec_socket_1_link_1(),
            r.spec_socket_1_link_2() == self.spec_socket_1_link_2(),
            r.spec_socket_1_link_3() == self.spec_socket_1_link_3(),
    {
        let mut r = self;
        r.set_socket_0_link_1(value);
        r
    }

    pub fn socket_0_link_2(&self) -> (r: DfXgmiAcDcMode)
        ensures
            Some(r) == DfXgmiAcDcMode::spec_from_u64(self.spec_socket_0_link_2() as u64),
    {
        proof {
            lemma_shift_table_u8();
        }
        DfXgmiAcDcMode::from_u64(field_u8(self.0, 2, 1) as u64).unwrap()
    }

    pub fn set_socket_0_link_2(&mut self, value: DfXgmiAcDcMode)
        ensures
            final(self).spec_raw() == spec_with_field_u8(old(self).spec_raw(), 2, 1, value.spec_to_u64() as u8),
            final(self).spec_socket_0_link_2() == value.spec_to_u64() as u8,
            final(self).spec_socket_0_link_0() == old(self).spec_socket_0_link_0(),
            final(self).spec_socket_0_link_1() == old(self).spec_socket_0_link_1(),
            final(self).spec_socket_0_link_3() == old(self).spec_socket_0_link_3(),
            final(self).spec_socket_1_link_0() == old(self).spec_socket_1_link_0(),
            final(self).spec_socket_1_link_1() == old(self).spec_socket_1_link_1(),
            final(self).spec_socket_1_link_2() == old(self).spec_socket_1_link_2(),
            final(self).spec_socket_1_link_3() == old(self).spec_socket_1_link_3(),
    {
        let x: u8 = value.to_u64().unwrap() as u8;
        let ghost old_raw = self.0;
        proof {
            lemma_shift_table_u8();
            lemma_with_field_same_u8(old_raw, 2, 1, x);
            lemma_with_field_other_u8(old_raw, 2, 1, x, 0, 1);
            lemma_with_field_other_u8(old_raw, 2, 1, x, 1, 1);
            lemma_with_field_other_u8(old_raw, 2, 1, x, 3, 1);
            lemma_with_field_other_u8(old_raw, 2, 1, x, 4, 1);
            lemma_with_field_other_u8(old_raw, 2, 1, x, 5, 1);
            lemma_with_field_other_u8(old_raw, 2, 1, x, 6, 1);
            lemma_with_field_other_u8(old_raw, 2, 1, x, 7, 1);
        }
        self.0 = with_field_u8(self.0, 2, 1, x);
    }

    pub fn with_socket_0_link_2(self, value: DfXgmiAcDcMode) -> (r: Self)
        ensures
            r.spec_raw() == spec_with_field_u8(self.spec_raw(), 2, 1, value.spec_to_u64() as u8),
            r.spec_socket_0_link_2() == value.spec_to_u64() as u8,
            r.spec_socket_0_link_0() == self.spec_socket_0_link_0(),
            r.spec_socket_0_link_1() == self.spec_socket_0_link_1(),
            r.spec_socket_0_link_3() == self.spec_socket_0_link_3(),
            r.spec_socket_1_link_0() == self.spec_socket_1_link_0(),
            r.spec_socket_1_link_1() == self.spec_socket_1_link_1(),
            r.spec_socket_1_link_2() == self.spec_socket_1_link_2(),
            r.spec_socket_1_link_3() == self.spec_socket_1_link_3(),
    {
        let mut r = self;
        r.set_socket_0_link_2(value);
        r
    }

    pub fn socket_0_link_3(&self) -> (r: DfXgmiAcDcMode)
        ensures
            Some(r) == DfXgmiAcDcMode::spec_from_u64(self.spec_socket_0_link_3() as u64),
    {
        proof {
            lemma_shift_table_u8();
        }
        DfXgmiAcDcMode::from_u64(field_u8(self.0, 3, 1) as u64).unwrap()
    }

    pub fn set_socket_0_link_3(&mut self, value: DfXgmiAcDcMode)
        ensures
            final(self).spec_raw() == spec_with_field_u8(old(self).spec_raw(), 3, 1, value.spec_to_u64() as u8),
            final(self).spec_socket_0_link_3() == value.spec_to_u64() as u8,
            final(self).spec_socket_0_link_0() == old(self).spec_socket_0_link_0(),
            final(self).spec_socket_0_link_1() == old(self).spec_socket_0_link_1(),
            final(self).spec_socket_0_link_2() == old(self).spec_socket_0_link_2(),
            final(self).spec_socket_1_link_0() == old(self).spec_socket_1_link_0(),
            final(self).spec_socket_1_link_1() == old(self).spec_socket_1_link_1(),
            final(self).spec_socket_1_link_2() == old(self).spec_socket_1_link_2(),
            final(self).spec_socket_1_link_3() == old(self).spec_socket_1_link_3(),
    {
        let x: u8 = value.to_u64().unwrap() as u8;
        let ghost old_raw = self.0;
        proof {
            lemma_shift_table_u8();
            lemma_with_field_same_u8(old_raw, 3, 1, x);
            lemma_with_field_other_u8(old_raw, 3, 1, x, 0, 1);
            lemma_with_field_other_u8(old_raw, 3, 1, x, 1, 1);
            lemma_with_field_other_u8(old_raw, 3, 1, x, 2, 1);
            lemma_with_field_other_u8(old_raw, 3, 1, x, 4, 1);
            lemma_with_field_other_u8(old_raw, 3, 1, x, 5, 1);
            lemma_with_field_other_u8(old_raw, 3, 1, x, 6, 1);
            lemma_with_field_other_u8(old_raw, 3, 1, x, 7, 1);
        }
        self.0 = with_field_u8(self.0, 3, 1, x);
    }

    pub fn with_socket_0_link_3(self, value: DfXgmiAcDcMode) -> (r: Self)
        ensures
            r.spec_raw() == spec_with_field_u8(self.spec_raw(), 3, 1, value.spec_to_u64() as u8),
            r.spec_socket_0_link_3() == value.spec_to_u64() as u8,
            r.spec_socket_0_link_0() == self.spec_socket_0_link_0(),
            r.spec_socket_0_link_1() == self.spec_socket_0_link_1(),
            r.spec_socket_0_link_2() == self.spec_socket_0_link_2(),
            r.spec_socket_1_link_0() == self.spec_socket_1_link_0(),
            r.spec_socket_1_link_1() == self.spec_socket_1_link_1(),
            r.spec_socket_1_link_2() == self.spec_socket_1_link_2(),
            r.spec_socket_1_link_3() == self.spec_socket_1_link_3(),
    {
        let mut r = self;
        r.set_socket_0_link_3(value);
        r
    }

    pub fn socket_1_link_0(&self) -> (r: DfXgmiAcDcMode)
        ensures
            Some(r) == DfXgmiAcDcMode::spec_from_u64(self.spec_socket_1_link_0() as u64),
    {
        proof {
            lemma_shift_table_u8();
        }
        DfXgmiAcDcMode::from_u64(field_u8(self.0, 4, 1) as u64).unwrap()
    }

    pub fn set_socket_1_link_0(&mut self, value: DfXgmiAcDcMode)
        ensures
            final(self).spec_raw() == spec_with_field_u8(old(self).spec_raw(), 4, 1, value.spec_to_u64() as u8),
            final(self).spec_socket_1_link_0() == value.spec_to_u64() as u8,
            final(self).spec_socket_0_link_0() == old(self).spec_socket_0_link_0(),
            final(self).spec_socket_0_link_1() == old(self).spec_socket_0_link_1(),
            final(self).spec_socket_0_link_2() == old(self).spec_socket_0_link_2(),
            final(self).spec_socket_0_link_3() == old(self).spec_socket_0_link_3(),
            final(self).spec_socket_1_link_1() == old(self).spec_socket_1_link_1(),
            final(self).spec_socket_1_link_2() == old(self).spec_socket_1_link_2(),
            final(self).spec_socket_1_link_3() == old(self).spec_socket_1_link_3(),
    {
        let x: u8 = value.to_u64().unwrap() as u8;
        let ghost old_raw = self.0;
        proof {
            lemma_shift_table_u8();
            lemma_with_field_same_u8(old_raw, 4, 1, x);
            lemma_with_field_other_u8(old_raw, 4, 1, x, 0, 1);
            lemma_with_field_other_u8(old_raw, 4, 1, x, 1, 1);
            lemma_with_field_other_u8(old_raw, 4, 1, x, 2, 1);
            lemma_with_field_other_u8(old_raw, 4, 1, x, 3, 1);
            lemma_with_field_other_u8(old_raw, 4, 1, x, 5, 1);
            lemma_with_field_other_u8(old_raw, 4, 1, x, 6, 1);
            lemma_with_field_other_u8(old_raw, 4, 1, x, 7, 1);
        }
        self.0 = with_field_u8(self.0, 4, 1, x);
    }

    pub fn with_socket_1_link_0(self, value: DfXgmiAcDcMode) -> (r: Self)
        ensures
            r.spec_raw() == spec_with_field_u8(self.spec_raw(), 4, 1, value.spec_to_u64() as u8),
            r.spec_socket_1_link_0() == value.spec_to_u64() as u8,
            r.spec_socket_0_link_0() == self.spec_socket_0_link_0(),
            r.spec_socket_0_link_1() == self.spec_socket_0_link_1(),
            r.spec_socket_0_link_2() == self.spec_socket_0_link_2(),
            r.spec_socket_0_link_3() == self.spec_socket_0_link_3(),
            r.spec_socket_1_link_1() == self.spec_socket_1_link_1(),
            r.spec_socket_1_link_2() == self.spec_socket_1_link_2(),
            r.spec_socket_1_link_3() == self.spec_socket_1_link_3(),
    {
        let mut r = self;
        r.set_socket_1_link_0(value);
        r
    }

    pub fn socket_1_link_1(&self) -> (r: DfXgmiAcDcMode)
        ensures
            Some(r) == DfXgmiAcDcMode::spec_from_u64(self.spec_socket_1_link_1() as u64),
    {
        proof {
            lemma_shift_table_u8();
        }
        DfXgmiAcDcMode::from_u64(field_u8(self.0, 5, 1) as u64).unwrap()
    }

    pub fn set_socket_1_link_1(&mut self, value: DfXgmiAcDcMode)
        ensures
            final(self).spec_raw() == spec_with_field_u8(old(self).spec_raw(), 5, 1, value.spec_to_u64() as u8),
            final(self).spec_socket_1_link_1() == value.spec_to_u64() as u8,
            final(self).spec_socket_0_link_0() == old(self).spec_socket_0_link_0(),
            final(self).spec_socket_0_link_1() == old(self).spec_socket_0_link_1(),
            final(self).spec_socket_0_link_2() == old(self).spec_socket_0_link_2(),
            final(self).spec_socket_0_link_3() == old(self).spec_socket_0_link_3(),
            final(self).spec_socket_1_link_0() == old(self).spec_socket_1_link_0(),
            final(self).spec_socket_1_link_2() == old(self).spec_socket_1_link_2(),
            final(self).spec_socket_1_link_3() == old(self).spec_socket_1_link_3(),
    {
        let x: u8 = value.to_u64().unwrap() as u8;
        let ghost old_raw = self.0;
        proof {
            lemma_shift_table_u8();
            lemma_with_field_same_u8(old_raw, 5, 1, x);
            lemma_with_field_other_u8(old_raw, 5, 1, x, 0, 1);
            lemma_with_field_other_u8(old_raw, 5, 1, x, 1, 1);
            lemma_with_field_other_u8(old_raw, 5, 1, x, 2, 1);
            lemma_with_field_other_u8(old_raw, 5, 1, x, 3, 1);
            lemma_with_field_other_u8(old_raw, 5, 1, x, 4, 1);
            lemma_with_field_other_u8(old_raw, 5, 1, x, 6, 1);
            lemma_with_field_other_u8(old_raw, 5, 1, x, 7, 1);
        }
        self.0 = with_field_u8(self.0, 5, 1, x);
    }

    pub fn with_socket_1_link_1(self, value: DfXgmiAcDcMode) -> (r: Self)
        ensures
            r.spec_raw() == spec_with_field_u8(self.spec_raw(), 5, 1, value.spec_to_u64() as u8),
            r.spec_socket_1_link_1() == value.spec_to_u64() as u8,
            r.spec_socket_0_link_0() == self.spec_socket_0_link_0(),
            r.spec_socket_0_link_1() == self.spec_socket_0_link_1(),
            r.spec_socket_0_link_2() == self.spec_socket_0_link_2(),
            r.spec_socket_0_link_3() == self.spec_socket_0_link_3(),
            r.spec_socket_1_link_0() == self.spec_socket_1_link_0(),
            r.spec_socket_1_link_2() == self.spec_socket_1_link_2(),
            r.spec_socket_1_link_3() == self.spec_socket_1_link_3(),
    {
        let mut r = self;
        r.set_socket_1_link_1(value);
        r
    }

    pub fn socket_1_link_2(&self) -> (r: DfXgmiAcDcMode)
        ensures
            Some(r) == DfXgmiAcDcMode::spec_from_u64(self.spec_socket_1_link_2() as u64),
    {
        proof {
            lemma_shift_table_u8();
        }
        DfXgmiAcDcMode::from_u64(field_u8(self.0, 6, 1) as u64).unwrap()
    }

    pub fn set_socket_1_link_2(&mut self, value: DfXgmiAcDcMode)
        ensures
            final(self).spec_raw() == spec_with_field_u8(old(self).spec_raw(), 6, 1, value.spec_to_u64() as u8),
            final(self).spec_socket_1_link_2() == value.spec_to_u64() as u8,
            final(self).spec_socket_0_link_0() == old(self).spec_socket_0_link_0(),
            final(self).spec_socket_0_link_1() == old(self).spec_socket_0_link_1(),
            final(self).spec_socket_0_link_2() == old(self).spec_socket_0_link_2(),
            final(self).spec_socket_0_link_3() == old(self).spec_socket_0_link_3(),
            final(self).spec_socket_1_link_0() == old(self).spec_socket_1_link_0(),
            final(self).spec_socket_1_link_1() == old(self).spec_socket_1_link_1(),
            final(self).spec_socket_1_link_3() == old(self).spec_socket_1_link_3(),
    {
        let x: u8 = value.to_u64().unwrap() as u8;
        let ghost old_raw = self.0;
        proof {
            lemma_shift_table_u8();
            lemma_with_field_same_u8(old_raw, 6, 1, x);
            lemma_with_field_other_u8(old_raw, 6, 1, x, 0, 1);
            lemma_with_field_other_u8(old_raw, 6, 1, x, 1, 1);
            lemma_with_field_other_u8(old_raw, 6, 1, x, 2, 1);
            lemma_with_field_other_u8(old_raw, 6, 1, x, 3, 1);
            lemma_with_field_other_u8(old_raw, 6, 1, x, 4, 1);
            lemma_with_field_other_u8(old_raw, 6, 1, x, 5, 1);
            lemma_with_field_other_u8(old_raw, 6, 1, x, 7, 1);
        }
        self.0 = with_field_u8(self.0, 6, 1, x);
    }

    pub fn with_socket_1_link_2(self, value: DfXgmiAcDcMode) -> (r: Self)
        ensures
            r.spec_raw() == spec_with_field_u8(self.spec_raw(), 6, 1, value.spec_to_u64() as u8),
            r.spec_socket_1_link_2() == value.spec_to_u64() as u8,
            r.spec_socket_0_link_0() == self.spec_socket_0_link_0(),
            r.spec_socket_0_link_1() == self.spec_socket_0_link_1(),
            r.spec_socket_0_link_2() == self.spec_socket_0_link_2(),
            r.spec_socket_0_link_3() == self.spec_socket_0_link_3(),
            r.spec_socket_1_link_0() == self.spec_socket_1_link_0(),
            r.spec_socket_1_link_1() == self.spec_socket_1_link_1(),
            r.spec_socket_1_link_3() == self.spec_socket_1_link_3(),
    {
        let mut r = self;
        r.set_socket_1_link_2(value);
        r
    }

    pub fn socket_1_link_3(&self) -> (r: DfXgmiAcDcMode)
        ensures
            Some(r) == DfXgmiAcDcMode::spec_from_u64(self.spec_socket_1_link_3() as u64),
    {
        proof {
            lemma_shift_table_u8();
        }
        DfXgmiAcDcMode::from_u64(field_u8(self.0, 7, 1) as u64).unwrap()
    }

    pub fn set_socket_1_link_3(&mut self, value: DfXgmiAcDcMode)
        ensures
            final(self).spec_raw() == spec_with_field_u8(old(self).spec_raw(), 7, 1, value.spec_to_u64() as u8),
            final(self).spec_socket_1_link_3() == value.spec_to_u64() as u8,
            final(self).spec_socket_0_link_0() == old(self).spec_socket_0_link_0(),
            final(self).spec_socket_0_link_1() == old(self).spec_socket_0_link_1(),
            final(self).spec_socket_0_link_2() == old(self).spec_socket_0_link_2(),
            final(self).spec_socket_0_link_3() == old(self).spec_socket_0_link_3(),
            final(self).spec_socket_1_link_0() == old(self).spec_socket_1_link_0(),
            final(self).spec_socket_1_link_1() == old(self).spec_socket_1_link_1(),
            final(self).spec_socket_1_link_2() == old(self).spec_socket_1_link_2(),
    {
        let x: u8 = value.to_u64().unwrap() as u8;
        let ghost old_raw = self.0;
        proof {
            lemma_shift_table_u8();
            lemma_with_field_same_u8(old_raw, 7, 1, x);
            lemma_with_field_other_u8(old_raw, 7, 1, x, 0, 1);
            lemma_with_field_other_u8(old_raw, 7, 1, x, 1, 1);
            lemma_with_field_other_u8(old_raw, 7, 1, x, 2, 1);
            lemma_with_field_other_u8(old_raw, 7, 1, x, 3, 1);
            lemma_with_field_other_u8(old_raw, 7, 1, x, 4, 1);
            lemma_with_field_other_u8(old_raw, 7, 1, x, 5, 1);
            lemma_with_field_other_u8(old_raw, 7, 1, x, 6, 1);
        }
        self.0 = with_field_u8(self.0, 7, 1, x);
    }

    pub fn with_socket_1_link_3(self, value: DfXgmiAcDcMode) -> (r: Self)
        ensures
            r.spec_raw() == spec_with_field_u8(self.spec_raw(), 7, 1, value.spec_to_u64() as u8),
            r.spec_socket_1_link_3() == value.spec_to_u64() as u8,
            r.spec_socket_0_link_0() == self.spec_socket_0_link_0(),
            r.spec_socket_0_link_1() == self.spec_socket_0_link_1(),
            r.spec_socket_0_link_2() == self.spec_socket_0_link_2(),
            r.spec_socket_0_link_3() == self.spec_socket_0_link_3(),
            r.spec_socket_1_link_0() == self.spec_socket_1_link_0(),
            r.spec_socket_1_link_1() == self.spec_socket_1_link_1(),
            r.spec_socket_1_link_2() == self.spec_socket_1_link_2(),
    {
        let mut r = self;
        r.set_socket_1_link_3(value);
        r
    }

    /// The bits that have a meaning; the others are reserved.
    pub const VALID_BITS: u64 = 0xff;

    /// Whether VALUE leaves all reserved bits clear.
    pub fn all_reserved_bits_are_unused(value: u64) -> (r: bool)
        ensures
            r == (value & !0xffu64 == 0),
    {
        value & !Self::VALID_BITS == 0
    }

    pub fn from_u64(value: u64) -> (r: Option<Self>)
        ensures
            r is Some <==> (value & !0xffu64 == 0 && value <= 0xff),
            r matches Some(x) ==> x.spec_raw() == value,
    {
        if Self::all_reserved_bits_are_unused(value) {
            if value <= 0xff {
                Some(DfXgmiAcDcCoupledLink(value as u8))
            } else {
                None
            }
        } else {
            None
        }
    }

    pub fn from_i64(value: i64) -> (r: Option<Self>)
        ensures
            r is Some <==> (value >= 0 && (value as u64) & !0xffu64 == 0 && value <= 0xff),
            r matches Some(x) ==> x.spec_raw() == value,
    {
        if value >= 0 {
            Self::from_u64(value as u64)
        } else {
            None
        }
    }

    pub fn to_u64(&self) -> (r: Option<u64>)
        ensures
            r == Some(self.spec_raw() as u64),
    {
        Some(self.0 as u64)
    }

    pub fn to_i64(&self) -> (r: Option<i64>)
        ensures
            r == Some(self.spec_raw() as i64),
    {
        Some(self.0 as i64)
    }

}

/// A DXIO PHY VGA parameter, or "skip" (stored as 0xFFFF_FFFF).
#[derive(Debug, Clone, Copy, PartialEq, Eq, Structural)]
pub enum DxioPhyParamVga {
    Value(u32),
    Skip,
}

impl DxioPhyParamVga {
    /// The number that stands for this value.
    pub open spec fn spec_to_u64(self) -> u64 {
        match self {
            DxioPhyParamVga::Value(x) => x as u64,
            DxioPhyParamVga::Skip => 0xffff_ffff,
        }
    }

    /// Whether this value has a number: a value of 0xffff_ffff would be read as Skip.
    pub open spec fn spec_has_number(self) -> bool {
        match self {
            DxioPhyParamVga::Value(x) => x != 0xffff_ffff,
            DxioPhyParamVga::Skip => true,
        }
    }

    /// The value that VALUE stands for, if any.
    pub open spec fn spec_from_u64(value: u64) -> Option<DxioPhyParamVga> {
        if value < 0x1_0000_0000 {
            if value == 0xffff_ffff {
                Some(DxioPhyParamVga::Skip)
            } else {
                Some(DxioPhyParamVga::Value(value as u32))
            }
        } else {
            None
        }
    }

    pub fn from_u64(value: u64) -> (r: Option<DxioPhyParamVga>)
        ensures
            r == DxioPhyParamVga::spec_from_u64(value),
    {
        if value < 0x1_0000_0000 {
            match value {
                0xffff_ffff => Some(Self::Skip),
                x => Some(Self::Value(x as u32)),
            }
        } else {
            None
        }
    }

    pub fn from_i64(value: i64) -> (r: Option<DxioPhyParamVga>)
        ensures
            r == (if value >= 0 { DxioPhyParamVga::spec_from_u64(value as u64) } else { None }),
    {
        if value >= 0 {
            Self::from_u64(value as u64)
        } else {
            None
        }
    }

    /// The number that stands for this value; `None` for a value of 0xffff_ffff.
    pub fn to_i64(&self) -> (r: Option<i64>)
        ensures
            r == (if self.spec_has_number() { Some(self.spec_to_u64() as i64) } else { None }),
    {
        match self {
            Self::Value(x) => {
                if *x == 0xffff_ffff {
                    None
                } else {
                    Some(*x as i64)
                }
            },
            Self::Skip => Some(0xffff_ffff),
        }
    }

    /// The number that stands for this value; `None` for a value of 0xffff_ffff.
    pub fn to_u64(&self) -> (r: Option<u64>)
        ensures
            r == (if self.spec_has_number() { Some(self.spec_to_u64()) } else { None }),
    {
        match self.to_i64() {
            Some(x) => Some(x as u64),
            None => None,
        }
    }
}

/// A value with a number is read back from it, and a number that is read as a value is
/// that value's number.
pub proof fn lemma_dxio_phy_param_vga_roundtrip(x: DxioPhyParamVga, value: u64)
    ensures
        x.spec_has_number() ==> DxioPhyParamVga::spec_from_u64(x.spec_to_u64()) == Some(x),
        DxioPhyParamVga::spec_from_u64(value) matches Some(y) ==> y.spec_has_number() && y.spec_to_u64() == value,
{
}

/// A DXIO PHY pole parameter, or "skip" (stored as 0xFFFF_FFFF).
#[derive(Debug, Clone, Copy, PartialEq, Eq, Structural)]
pub enum DxioPhyParamPole {
    Value(u32),
    Skip,
}

impl DxioPhyParamPole {
    /// The number that stands for this value.
    pub open spec fn spec_to_u64(self) -> u64 {
        match self {
            DxioPhyParamPole::Value(x) => x as u64,
            DxioPhyParamPole::Skip => 0xffff_ffff,
        }
    }

    /// Whether this value has a number: a value of 0xffff_ffff would be read as Skip.
    pub open spec fn spec_has_number(self) -> bool {
        match self {
            DxioPhyParamPole::Value(x) => x != 0xffff_ffff,
            DxioPhyParamPole::Skip => true,
        }
    }

    /// The value that VALUE stands for, if any.
    pub open spec fn spec_from_u64(value: u64) -> Option<DxioPhyParamPole> {
        if value < 0x1_0000_0000 {
            if value == 0xffff_ffff {
                Some(DxioPhyParamPole::Skip)
            } else {
                Some(DxioPhyParamPole::Value(value as u32))
            }
        } else {
            None
        }
    }

    pub fn from_u64(value: u64) -> (r: Option<DxioPhyParamPole>)
        ensures
            r == DxioPhyParamPole::spec_from_u64(value),
    {
        if value < 0x1_0000_0000 {
            match value {
                0xffff_ffff => Some(Self::Skip),
                x => Some(Self::Value(x as u32)),
            }
        } else {
            None
        }
    }

    pub fn from_i64(value: i64) -> (r: Option<DxioPhyParamPole>)
        ensures
            r == (if value >= 0 { DxioPhyParamPole::spec_from_u64(value as u64) } else { None }),
    {
        if value >= 0 {
            Self::from_u64(value as u64)
        } else {
            None
        }
    }

    /// The number that stands for this value; `None` for a value of 0xffff_ffff.
    pub fn to_i64(&self) -> (r: Option<i64>)
        ensures
            r == (if self.spec_has_number() { Some(self.spec_to_u64() as i64) } else { None }),
    {
        match self {
            Self::Value(x) => {
                if *x == 0xffff_ffff {
                    None
                } else {
                    Some(*x as i64)
                }
            },
            Self::Skip => Some(0xffff_ffff),
        }
    }

    /// The number that stands for this value; `None` for a value of 0xffff_ffff.
    pub fn to_u64(&self) -> (r: Option<u64>)
        ensures
            r == (if self.spec_has_number() { Some(self.spec_to_u64()) } else { None }),
    {
        match self.to_i64() {
            Some(x) => Some(x as u64),
            None => None,
        }
    }
}

/// A value with a number is read back from it, and a number that is read as a value is
/// that value's number.
pub proof fn lemma_dxio_phy_param_pole_roundtrip(x: DxioPhyParamPole, value: u64)
    ensures
        x.spec_has_number() ==> DxioPhyParamPole::spec_from_u64(x.spec_to_u64()) == Some(x),
        DxioPhyParamPole::spec_from_u64(value) matches Some(y) ==> y.spec_has_number() && y.spec_to_u64() == value,
{
}

/// A DXIO PHY DC parameter, or "skip" (stored as 0xFFFF_FFFF).
#[derive(Debug, Clone, Copy, PartialEq, Eq, Structural)]
pub enum DxioPhyParamDc {
    Value(u32),
    Skip,
}

impl DxioPhyParamDc {
    /// The number that stands for this value.
    pub open spec fn spec_to_u64(self) -> u64 {
        match self {
            DxioPhyParamDc::Value(x) => x as u64,
            DxioPhyParamDc::Skip => 0xffff_ffff,
        }
    }

    /// Whether this value has a number: a value of 0xffff_ffff would be read as Skip.
    pub open spec fn spec_has_number(self) -> bool {
        match self {
            DxioPhyParamDc::Value(x) => x != 0xffff_ffff,
            DxioPhyParamDc::Skip => true,
        }
    }

    /// The value that VALUE stands for, if any.
    pub open spec fn spec_from_u64(value: u64) -> Option<DxioPhyParamDc> {
        if value < 0x1_0000_0000 {
            if value == 0xffff_ffff {
                Some(DxioPhyParamDc::Skip)
            } else {
                Some(DxioPhyParamDc::Value(value as u32))
            }
        } else {
            None
        }
    }

    pub fn from_u64(value: u64) -> (r: Option<DxioPhyParamDc>)
        ensures
            r == DxioPhyParamDc::spec_from_u64(value),
    {
        if value < 0x1_0000_0000 {
            match value {
                0xffff_ffff => Some(Self::Skip),
                x => Some(Self::Value(x as u32)),
            }
        } else {
            None
        }
    }

    pub fn from_i64(value: i64) -> (r: Option<DxioPhyParamDc>)
        ensures
            r == (if value >= 0 { DxioPhyParamDc::spec_from_u64(value as u64) } else { None }),
    {
        if value >= 0 {
            Self::from_u64(value as u64)
        } else {
            None
        }
    }

    /// The number that stands for this value; `None` for a value of 0xffff_ffff.
    pub fn to_i64(&self) -> (r: Option<i64>)
        ensures
            r == (if self.spec_has_number() { Some(self.spec_to_u64() as i64) } else { None }),
    {
        match self {
            Self::Value(x) => {
                if *x == 0xffff_ffff {
                    None
                } else {
                    Some(*x as i64)
                }
            },
            Self::Skip => Some(0xffff_ffff),
        }
    }

    /// The number that stands for this value; `None` for a value of 0xffff_ffff.
    pub fn to_u64(&self) -> (r: Option<u64>)
        ensures
            r == (if self.spec_has_number() { Some(self.spec_to_u64()) } else { None }),
    {
        match self.to_i64() {
            Some(x) => Some(x as u64),
            None => None,
        }
    }
}

/// A value with a number is read back from it, and a number that is read as a value is
/// that value's number.
pub proof fn lemma_dxio_phy_param_dc_roundtrip(x: DxioPhyParamDc, value: u64)
    ensures
        x.spec_has_number() ==> DxioPhyParamDc::spec_from_u64(x.spec_to_u64()) == Some(x),
        DxioPhyParamDc::spec_from_u64(value) matches Some(y) ==> y.spec_has_number() && y.spec_to_u64() == value,
{
}

/// A memory power-down delay, or "auto" (stored as 0xFFFF).
#[derive(Debug, Clone, Copy, PartialEq, Eq, Structural)]
pub enum CbsMemPowerDownDelay {
    Value(u16),
    Auto,
}

impl CbsMemPowerDownDelay {
    /// The number that stands for this value.
    pub open spec fn spec_to_u64(self) -> u64 {
        match self {
            CbsMemPowerDownDelay::Value(x) => x as u64,
            CbsMemPowerDownDelay::Auto => 0xffff,
        }
    }

    /// Whether this value has a number: a value of 0xffff would be read as Auto.
    pub open spec fn spec_has_number(self) -> bool {
        match self {
            CbsMemPowerDownDelay::Value(x) => x != 0xffff,
            CbsMemPowerDownDelay::Auto => true,
        }
    }

    /// The value that VALUE stands for, if any.
    pub open spec fn spec_from_u64(value: u64) -> Option<CbsMemPowerDownDelay> {
        if value < 0x1_0000 {
            if value == 0xffff {
                Some(CbsMemPowerDownDelay::Auto)
            } else {
                Some(CbsMemPowerDownDelay::Value(value as u16))
            }
        } else {
            None
        }
    }

    pub fn from_u64(value: u64) -> (r: Option<CbsMemPowerDownDelay>)
        ensures
            r == CbsMemPowerDownDelay::spec_from_u64(value),
    {
        if value < 0x1_0000 {
            match value {
                0xffff => Some(Self::Auto),
                x => Some(Self::Value(x as u16)),
            }
        } else {
            None
        }
    }

    pub fn from_i64(value: i64) -> (r: Option<CbsMemPowerDownDelay>)
        ensures
            r == (if value >= 0 { CbsMemPowerDownDelay::spec_from_u64(value as u64) } else { None }),
    {
        if value >= 0 {
            Self::from_u64(value as u64)
        } else {
            None
        }
    }

    /// The number that stands for this value; `None` for a value of 0xffff.
    pub fn to_i64(&self) -> (r: Option<i64>)
        ensures
            r == (if self.spec_has_number() { Some(self.spec_to_u64() as i64) } else { None }),
    {
        match self {
            Self::Value(x) => {
                if *x == 0xffff {
                    None
                } else {
                    Some(*x as i64)
                }
            },
            Self::Auto => Some(0xffff),
        }
    }

    /// The number that stands for this value; `None` for a value of 0xffff.
    pub fn to_u64(&self) -> (r: Option<u64>)
        ensures
            r == (if self.spec_has_number() { Some(self.spec_to_u64()) } else { None }),
    {
        match self.to_i64() {
            Some(x) => Some(x as u64),
            None => None,
        }
    }
}

/// A value with a number is read back from it, and a number that is read as a value is
/// that value's number.
pub proof fn lemma_cbs_mem_power_down_delay_roundtrip(x: CbsMemPowerDownDelay, value: u64)
    ensures
        x.spec_has_number() ==> CbsMemPowerDownDelay::spec_from_u64(x.spec_to_u64()) == Some(x),
        CbsMemPowerDownDelay::spec_from_u64(value) matches Some(y) ==> y.spec_has_number() && y.spec_to_u64() == value,
{
}

/// A DXIO PHY IQOFC parameter (from -4 to 4), or "skip" (stored as 0x7FFF_FFFF).
#[derive(Debug, Clone, Copy, PartialEq, Eq, Structural)]
pub enum DxioPhyParamIqofc {
    Value(i32),
    Skip,
}

impl DxioPhyParamIqofc {
    /// The number that stands for this value.
    pub open spec fn spec_to_i64(self) -> i64 {
        match self {
            DxioPhyParamIqofc::Value(x) => x as i64,
            DxioPhyParamIqofc::Skip => 0x7fff_ffff,
        }
    }

    /// The value that VALUE stands for, if any.
    pub open spec fn spec_from_i64(value: i64) -> Option<DxioPhyParamIqofc> {
        if value == 0x7fff_ffff {
            Some(DxioPhyParamIqofc::Skip)
        } else if -4 <= value <= 4 {
            Some(DxioPhyParamIqofc::Value(value as i32))
        } else {
            None
        }
    }

    pub fn from_i64(value: i64) -> (r: Option<DxioPhyParamIqofc>)
        ensures
            r == DxioPhyParamIqofc::spec_from_i64(value),
    {
        if value == 0x7FFFFFFF {
            Some(Self::Skip)
        } else if -4 <= value && value <= 4 {
            Some(Self::Value(value as i32))
        } else {
            None
        }
    }

    /// Reads VALUE as a signed 64-bit number first.
    pub fn from_u64(value: u64) -> (r: Option<DxioPhyParamIqofc>)
        ensures
            r == DxioPhyParamIqofc::spec_from_i64(value as i64),
    {
        Self::from_i64(value as i64)
    }

    pub fn to_i64(&self) -> (r: Option<i64>)
        ensures
            r == Some(self.spec_to_i64()),
    {
        match self {
            Self::Value(x) => Some(*x as i64),
            Self::Skip => Some(0x7FFFFFFF),
        }
    }

    /// The number as an unsigned 64-bit value (a negative number wraps around).
    pub fn to_u64(&self) -> (r: Option<u64>)
        ensures
            r == Some(self.spec_to_i64() as u64),
    {
        Some(self.to_i64().unwrap() as u64)
    }
}

/// The SMBus speed: x for a clock of 66 MHz / (4 x).
#[derive(Debug, Clone, Copy, PartialEq, Eq, Structural)]
pub enum FchSmbusSpeed {
    Value(u8),
}

impl FchSmbusSpeed {
    /// The value that VALUE stands for, if any.
    pub open spec fn spec_from_u64(value: u64) -> Option<FchSmbusSpeed> {
        if value < 0x100 {
            Some(FchSmbusSpeed::Value(value as u8))
        } else {
            None
        }
    }

    /// The number that stands for this value.
    pub open spec fn spec_to_u64(self) -> u64 {
        match self {
            FchSmbusSpeed::Value(x) => x as u64,
        }
    }

    pub fn from_u64(value: u64) -> (r: Option<FchSmbusSpeed>)
        ensures
            r == FchSmbusSpeed::spec_from_u64(value),
    {
        if value < 0x100 {
            Some(Self::Value(value as u8))
        } else {
            None
        }
    }

    pub fn from_i64(value: i64) -> (r: Option<FchSmbusSpeed>)
        ensures
            r == (if value >= 0 { FchSmbusSpeed::spec_from_u64(value as u64) } else { None }),
    {
        if value >= 0 {
            Self::from_u64(value as u64)
        } else {
            None
        }
    }

    pub fn to_u64(&self) -> (r: Option<u64>)
        ensures
            r == Some(self.spec_to_u64()),
    {
        match self {
            Self::Value(x) => Some(*x as u64),
        }
    }

    pub fn to_i64(&self) -> (r: Option<i64>)
        ensures
            r == Some(self.spec_to_u64() as i64),
    {
        Some(self.to_u64().unwrap() as i64)
    }
}

/// The CRC threshold of the DF cake: x from 0 to 1 000 000, for 0.00001% times x.
#[derive(Debug, Clone, Copy, PartialEq, Eq, Structural)]
pub enum DfCakeCrcThresholdBounds {
    Value(u32),
}

impl DfCakeCrcThresholdBounds {
    /// The value that VALUE stands for, if any.
    pub open spec fn spec_from_u64(value: u64) -> Option<DfCakeCrcThresholdBounds> {
        if value <= 1_000_000 {
            Some(DfCakeCrcThresholdBounds::Value(value as u32))
        } else {
            None
        }
    }

    /// The number that stands for this value.
    pub open spec fn spec_to_u64(self) -> u64 {
        match self {
            DfCakeCrcThresholdBounds::Value(x) => x as u64,
        }
    }

    pub fn from_u64(value: u64) -> (r: Option<DfCakeCrcThresholdBounds>)
        ensures
            r == DfCakeCrcThresholdBounds::spec_from_u64(value),
    {
        if value <= 1_000_000 {
            Some(Self::Value(value as u32))
        } else {
            None
        }
    }

    pub fn from_i64(value: i64) -> (r: Option<DfCakeCrcThresholdBounds>)
        ensures
            r == (if value >= 0 { DfCakeCrcThresholdBounds::spec_from_u64(value as u64) } else { None }),
    {
        if value >= 0 {
            Self::from_u64(value as u64)
        } else {
            None
        }
    }

    pub fn to_u64(&self) -> (r: Option<u64>)
        ensures
            r == Some(self.spec_to_u64()),
    {
        match self {
            Self::Value(x) => Some(*x as u64),
        }
    }

    pub fn to_i64(&self) -> (r: Option<i64>)
        ensures
            r == Some(self.spec_to_u64() as i64),
    {
        Some(self.to_u64().unwrap() as i64)
    }
}

impl From<DfXgmiChannelType> for u8 {
    fn from(value: DfXgmiChannelType) -> (r: u8) {
        match value {
            DfXgmiChannelType::Disabled => 0,
            DfXgmiChannelType::LongReach => 1,
        }
    }
}

impl vstd::std_specs::convert::FromSpecImpl<DfXgmiChannelType> for u8 {
    open spec fn obeys_from_spec() -> bool {
        true
    }

    open spec fn from_spec(value: DfXgmiChannelType) -> u8 {
        value.spec_to_u64() as u8
    }
}

impl From<EspiController> for u8 {
    fn from(value: EspiController) -> (r: u8) {
        match value {
            EspiController::Controller0 => 0,
            EspiController::Controller1 => 1,
        }
    }
}

impl vstd::std_specs::convert::FromSpecImpl<EspiController> for u8 {
    open spec fn obeys_from_spec() -> bool {
        true
    }

    open spec fn from_spec(value: EspiController) -> u8 {
        value.spec_to_u64() as u8
    }
}

/// Which GPP clocks are on: all (stored as 0), a selection of ones that are off, or
/// "auto" (stored as 0xFFFF).
#[derive(Debug, Clone, Copy, PartialEq, Eq, Structural)]
pub enum FchGppClkMap {
    On,
    Value(FchGppClkMapSelection),
    Auto,
}

impl FchGppClkMap {
    /// The number that stands for this value.
    pub open spec fn spec_to_u64(self) -> u64 {
        match self {
            FchGppClkMap::On => 0,
            FchGppClkMap::Value(x) => x.spec_raw() as u64,
            FchGppClkMap::Auto => 0xffff,
        }
    }

    /// Whether this value has a number: a selection of none or of all would be read as
    /// "on" or "auto".
    pub open spec fn spec_has_number(self) -> bool {
        match self {
            FchGppClkMap::Value(x) => x.spec_raw() != 0 && x.spec_raw() != 0xffff,
            _ => true,
        }
    }

    /// The value that VALUE stands for, if any.
    pub open spec fn spec_from_u64(value: u64) -> Option<FchGppClkMap> {
        if value == 0xffff {
            Some(FchGppClkMap::Auto)
        } else if value == 0 {
            Some(FchGppClkMap::On)
        } else if value < 0x10000 {
            Some(FchGppClkMap::Value(FchGppClkMapSelection::spec_from_raw(value as u16)))
        } else {
            None
        }
    }

    pub fn from_u64(value: u64) -> (r: Option<FchGppClkMap>)
        ensures
            r == FchGppClkMap::spec_from_u64(value),
    {
        if value == 0xffff {
            Some(Self::Auto)
        } else if value == 0 {
            Some(Self::On)
        } else if value < 0x10000 {
            Some(Self::Value(FchGppClkMapSelection::from_raw(value as u16)))
        } else {
            None
        }
    }

    pub fn from_i64(value: i64) -> (r: Option<FchGppClkMap>)
        ensures
            r == (if value >= 0 { FchGppClkMap::spec_from_u64(value as u64) } else { None }),
    {
        if value >= 0 {
            Self::from_u64(value as u64)
        } else {
            None
        }
    }

    /// The number that stands for this value; `None` for a selection of none or of all.
    pub fn to_i64(&self) -> (r: Option<i64>)
        ensures
            r == (if self.spec_has_number() { Some(self.spec_to_u64() as i64) } else { None }),
    {
        match self {
            Self::On => Some(0),
            Self::Value(x) => {
                let result: u16 = x.into_raw();
                if result == 0xffff || result == 0x0000 {
                    None
                } else {
                    Some(result as i64)
                }
            },
            Self::Auto => Some(0xffff),
        }
    }

    /// The number that stands for this value; `None` for a selection of none or of all.
    pub fn to_u64(&self) -> (r: Option<u64>)
        ensures
            r == (if self.spec_has_number() { Some(self.spec_to_u64()) } else { None }),
    {
        match self.to_i64() {
            Some(x) => Some(x as u64),
            None => None,
        }
    }
}

/// A value with a number is read back from it, and a number that is read as a value is
/// that value's number.
pub proof fn lemma_fch_gpp_clk_map_roundtrip(x: FchGppClkMap, value: u64)
    ensures
        x.spec_has_number() ==> FchGppClkMap::spec_from_u64(x.spec_to_u64()) == Some(x),
        FchGppClkMap::spec_from_u64(value) matches Some(y) ==> y.spec_has_number() && y.spec_to_u64() == value,
{
    if let FchGppClkMap::Value(s) = x {
        FchGppClkMapSelection::lemma_raw(s, s.spec_raw());
    }
    if 0 < value < 0xffff {
        FchGppClkMapSelection::lemma_raw(FchGppClkMapSelection::spec_from_raw(value as u16), value as u16);
    }
}

/// The depth of the memory throttle rolling window, in memory clocks (not 0).
#[derive(Debug, Clone, Copy, PartialEq, Eq, Structural)]
pub enum MemThrottleCtrlRollWindowDepth<T> {
    Memclks(T),
}

impl MemThrottleCtrlRollWindowDepth<u8> {
    /// The value that VALUE stands for, if any: a depth from 1 to 0xFF.
    pub open spec fn spec_from_u64(value: u64) -> Option<MemThrottleCtrlRollWindowDepth<u8>> {
        if value > 0 && value <= 0xff {
            Some(MemThrottleCtrlRollWindowDepth::Memclks(value as u8))
        } else {
            None
        }
    }

    pub fn from_u64(value: u64) -> (r: Option<MemThrottleCtrlRollWindowDepth<u8>>)
        ensures
            r == MemThrottleCtrlRollWindowDepth::<u8>::spec_from_u64(value),
    {
        if value > 0 && value <= 0xff {
            Some(MemThrottleCtrlRollWindowDepth::Memclks(value as u8))
        } else {
            None
        }
    }

    pub fn from_i64(value: i64) -> (r: Option<MemThrottleCtrlRollWindowDepth<u8>>)
        ensures
            r == (if value >= 0 { MemThrottleCtrlRollWindowDepth::<u8>::spec_from_u64(value as u64) } else { None }),
    {
        if value >= 0 {
            Self::from_u64(value as u64)
        } else {
            None
        }
    }

    pub fn to_u64(&self) -> (r: Option<u64>)
        ensures
            r == Some(match *self {
                MemThrottleCtrlRollWindowDepth::Memclks(x) => x as u64,
            }),
    {
        match self {
            MemThrottleCtrlRollWindowDepth::Memclks(x) => Some(*x as u64),
        }
    }
}

impl MemThrottleCtrlRollWindowDepth<u16> {
    /// The value that VALUE stands for, if any: a depth from 1 to 0xFFFF.
    pub open spec fn spec_from_u64_wide(value: u64) -> Option<MemThrottleCtrlRollWindowDepth<u16>> {
        if value > 0 && value <= 0xffff {
            Some(MemThrottleCtrlRollWindowDepth::Memclks(value as u16))
        } else {
            None
        }
    }

    pub fn from_u64_wide(value: u64) -> (r: Option<MemThrottleCtrlRollWindowDepth<u16>>)
        ensures
            r == MemThrottleCtrlRollWindowDepth::<u16>::spec_from_u64_wide(value),
    {
        if value > 0 && value <= 0xffff {
            Some(MemThrottleCtrlRollWindowDepth::Memclks(value as u16))
        } else {
            None
        }
    }

    pub fn to_u64_wide(&self) -> (r: Option<u64>)
        ensures
            r == Some(match *self {
                MemThrottleCtrlRollWindowDepth::Memclks(x) => x as u64,
            }),
    {
        match self {
            MemThrottleCtrlRollWindowDepth::Memclks(x) => Some(*x as u64),
        }
    }
}

/// The name of the disabled console output mode, as bytes: "Disabled".
pub open spec fn spec_fch_console_out_mode_disabled_name() -> Seq<u8> {
    seq![68u8, 105u8, 115u8, 97u8, 98u8, 108u8, 101u8, 100u8]
}

/// The name of the enabled console output mode, as bytes: "Enabled".
pub open spec fn spec_fch_console_out_mode_enabled_name() -> Seq<u8> {
    seq![69u8, 110u8, 97u8, 98u8, 108u8, 101u8, 100u8]
}

/// Whether A and B hold the same bytes.
fn bytes_equal(a: &[u8], b: &[u8]) -> (r: bool)
    ensures
        r == (a@ == b@),
{
    if a.len() != b.len() {
        return false;
    }
    let mut i: usize = 0;
    while i < a.len()
        invariant
            i <= a@.len(),
            a@.len() == b@.len(),
            forall|j: int| 0 <= j < i ==> a@[j] == b@[j],
        decreases a@.len() - i,
    {
        if a[i] != b[i] {
            return false;
        }
        i = i + 1;
    }
    proof {
        assert(a@ =~= b@);
    }
    true
}

impl FchConsoleOutMode {
    /// The mode with the given name ("Disabled" or "Enabled"), as a client such as a
    /// configuration reader spells it.
    pub fn from_name(name: &[u8]) -> (r: Option<FchConsoleOutMode>)
        ensures
            r == (if name@ == spec_fch_console_out_mode_disabled_name() {
                Some(FchConsoleOutMode::Disabled)
            } else if name@ == spec_fch_console_out_mode_enabled_name() {
                Some(FchConsoleOutMode::Enabled)
            } else {
                None
            }),
    {
        let disabled: [u8; 8] = [68, 105, 115, 97, 98, 108, 101, 100];
        let enabled: [u8; 7] = [69, 110, 97, 98, 108, 101, 100];
        proof {
            assert(disabled@ =~= spec_fch_console_out_mode_disabled_name());
            assert(enabled@ =~= spec_fch_console_out_mode_enabled_name());
        }
        if bytes_equal(name, &disabled) {
            Some(FchConsoleOutMode::Disabled)
        } else if bytes_equal(name, &enabled) {
            Some(FchConsoleOutMode::Enabled)
        } else {
            None
        }
    }
}

impl MemMbistDataEyeType {
    /// The former (misspelt) name of _1dVoltage.
    pub const _1dVolate: MemMbistDataEyeType = MemMbistDataEyeType::_1dVoltage;
}

impl MemMaxActivityCount {
    /// The former name of _700000.
    pub const _700K: MemMaxActivityCount = MemMaxActivityCount::_700000;
    /// The former name of _600000.
    pub const _600K: MemMaxActivityCount = MemMaxActivityCount::_600000;
    /// The former name of _500000.
    pub const _500K: MemMaxActivityCount = MemMaxActivityCount::_500000;
    /// The former name of _400000.
    pub const _400K: MemMaxActivityCount = MemMaxActivityCount::_400000;
    /// The former name of _300000.
    pub const _300K: MemMaxActivityCount = MemMaxActivityCount::_300000;
    /// The former name of _200000.
    pub const _200K: MemMaxActivityCount = MemMaxActivityCount::_200000;
}

impl MemRdimmTimingCmdParLatency {
    /// The former name of _1nCK.
    pub const _1_nCK: MemRdimmTimingCmdParLatency = MemRdimmTimingCmdParLatency::_1nCK;
    /// The former name of _2nCK.
    pub const _2_nCK: MemRdimmTimingCmdParLatency = MemRdimmTimingCmdParLatency::_2nCK;
    /// The former name of _3nCK.
    pub const _3_nCK: MemRdimmTimingCmdParLatency = MemRdimmTimingCmdParLatency::_3nCK;
    /// The former name of _4nCK.
    pub const _4_nCK: MemRdimmTimingCmdParLatency = MemRdimmTimingCmdParLatency::_4nCK;
    /// The former name of _0nCK.
    pub const _0_nCK: MemRdimmTimingCmdParLatency = MemRdimmTimingCmdParLatency::_0nCK;
}

impl DfXgmiLinkConfig {
    /// The former name of _2links_connected.
    pub const _2_links_connected: DfXgmiLinkConfig = DfXgmiLinkConfig::_2links_connected;
    /// The former name of _3links_connected.
    pub const _3_links_connected: DfXgmiLinkConfig = DfXgmiLinkConfig::_3links_connected;
    /// The former name of _4links_connected.
    pub const _4_links_connected: DfXgmiLinkConfig = DfXgmiLinkConfig::_4links_connected;
}

impl MemMbistAggressorsChannels {
    /// The former name of _1AggressorsPer2Channels.
    pub const _1_AggressorsPer2Channels: MemMbistAggressorsChannels = MemMbistAggressorsChannels::_1AggressorsPer2Channels;
    /// The former name of _3AggressorsPer4Channels.
    pub const _3_AggressorsPer4Channels: MemMbistAggressorsChannels = MemMbistAggressorsChannels::_3AggressorsPer4Channels;
    /// The former name of _7AggressorsPer8Channels.
    pub const _7_AggressorsPer8Channels: MemMbistAggressorsChannels = MemMbistAggressorsChannels::_7AggressorsPer8Channels;
}

impl MemTrainingHdtControl {
    /// The former name of AssertionMessages.
    pub const StageCompletionMessages1: MemTrainingHdtControl = MemTrainingHdtControl::AssertionMessages;
}

/// The speed of the second additional PCIe link.
pub type SecondPcieLinkSpeed = AdditionalPcieLinkSpeed;

/// The speed of the third additional PCIe link.
pub type ThirdPcieLinkSpeed = AdditionalPcieLinkSpeed;

/// The speed of the fourth additional PCIe link.
pub type FourthPcieLinkSpeed = AdditionalPcieLinkSpeed;

/// The maximum xGMI speed with two links.
pub type DfXgmi2LinkMaxSpeed = DfXgmiLinkMaxSpeed;

/// The maximum xGMI speed with three links.
pub type DfXgmi3LinkMaxSpeed = DfXgmiLinkMaxSpeed;

/// The maximum xGMI speed with four links.
pub type DfXgmi4LinkMaxSpeed = DfXgmiLinkMaxSpeed;

/// How the memory timing is chosen.
pub type MemUserTimingMode = crate::ondisk::memory::platform_specific_override::TimingMode;

} // verus!
