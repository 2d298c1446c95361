use crate::bits::{field_u8, field_u16, field_u32, field_u64, lemma_masked_bound_u64, lemma_shift_table_u8, lemma_shift_table_u16, lemma_shift_table_u32, lemma_shift_table_u64, lemma_with_field_other_u8, lemma_with_field_other_u16, lemma_with_field_other_u32, lemma_with_field_other_u64, lemma_with_field_same_u8, lemma_with_field_same_u16, lemma_with_field_same_u32, lemma_with_field_same_u64, spec_field_u8, spec_field_u16, spec_field_u32, spec_field_u64, spec_with_field_u8, spec_with_field_u16, spec_with_field_u32, spec_with_field_u64, with_field_u8, with_field_u16, with_field_u32, with_field_u64};
use crate::le::{append_bytes, le_bytes_u16, le_bytes_u32, le_bytes_u64, lemma_auto_spec_u16_to_from_le_bytes, lemma_auto_spec_u32_to_from_le_bytes, lemma_auto_spec_u64_to_from_le_bytes, spec_u16_from_le_bytes, spec_u16_to_le_bytes, spec_u32_from_le_bytes, spec_u32_to_le_bytes, u16_from_le_bytes, u32_from_le_bytes};
use crate::ondisk::collection::{ByteLayout, HeaderWithTail};
use crate::ondisk::compat::EntryCompatible;
use crate::ondisk::ids::{EntryId, FchEntryId};
use crate::struct_accessors::{spec_bool_result_of_raw, spec_raw_of_bool};
use crate::types::{Error, Result};
use vstd::prelude::*;
use vstd::slice::slice_subrange;

verus! {

/// The eSPI data bus setting.
#[derive(Debug, PartialEq, Eq, Clone, Copy, Structural)]
pub enum EspiInitDataBusSelect {
    OutputLow,
    OutputHigh,
}

impl EspiInitDataBusSelect {
    /// The number that stands for this value.
    pub open spec fn spec_to_u64(self) -> u64 {
        match self {
            EspiInitDataBusSelect::OutputLow => 0x0,
            EspiInitDataBusSelect::OutputHigh => 0x1,
        }
    }

    /// The value that VALUE stands for, if any.
    pub open spec fn spec_from_u64(value: u64) -> Option<EspiInitDataBusSelect> {
        match value {
            0x0 => Some(EspiInitDataBusSelect::OutputLow),
            0x1 => Some(EspiInitDataBusSelect::OutputHigh),
            _ => None,
        }
    }

    pub fn from_u64(value: u64) -> (r: Option<EspiInitDataBusSelect>)
        ensures
            r == EspiInitDataBusSelect::spec_from_u64(value),
    {
        match value {
            0x0 => Some(EspiInitDataBusSelect::OutputLow),
            0x1 => Some(EspiInitDataBusSelect::OutputHigh),
            _ => None,
        }
    }

    pub fn to_u64(&self) -> (r: Option<u64>)
        ensures
            r == Some(self.spec_to_u64()),
    {
        Some(
            match self {
                EspiInitDataBusSelect::OutputLow => 0x0,
                EspiInitDataBusSelect::OutputHigh => 0x1,
            },
        )
    }
}

/// Every value of EspiInitDataBusSelect is read back from its own number, and every number that is
/// read as a value is that value's number.
pub proof fn lemma_espi_init_data_bus_select_roundtrip(x: EspiInitDataBusSelect, value: u64)
    ensures
        EspiInitDataBusSelect::spec_from_u64(x.spec_to_u64()) == Some(x),
        EspiInitDataBusSelect::spec_from_u64(value) matches Some(y) ==> y.spec_to_u64() == value,
{
}

/// The eSPI clock pin.
#[derive(Debug, PartialEq, Eq, Clone, Copy, Structural)]
pub enum EspiInitClockPinSelect {
    Spi,
    Gpio86,
}

impl EspiInitClockPinSelect {
    /// The number that stands for this value.
    pub open spec fn spec_to_u64(self) -> u64 {
        match self {
            EspiInitClockPinSelect::Spi => 0x0,
            EspiInitClockPinSelect::Gpio86 => 0x1,
        }
    }

    /// The value that VALUE stands for, if any.
    pub open spec fn spec_from_u64(value: u64) -> Option<EspiInitClockPinSelect> {
        match value {
            0x0 => Some(EspiInitClockPinSelect::Spi),
            0x1 => Some(EspiInitClockPinSelect::Gpio86),
            _ => None,
        }
    }

    pub fn from_u64(value: u64) -> (r: Option<EspiInitClockPinSelect>)
        ensures
            r == EspiInitClockPinSelect::spec_from_u64(value),
    {
        match value {
            0x0 => Some(EspiInitClockPinSelect::Spi),
            0x1 => Some(EspiInitClockPinSelect::Gpio86),
            _ => None,
        }
    }

    pub fn to_u64(&self) -> (r: Option<u64>)
        ensures
            r == Some(self.spec_to_u64()),
    {
        Some(
            match self {
                EspiInitClockPinSelect::Spi => 0x0,
                EspiInitClockPinSelect::Gpio86 => 0x1,
            },
        )
    }
}

/// Every value of EspiInitClockPinSelect is read back from its own number, and every number that is
/// read as a value is that value's number.
pub proof fn lemma_espi_init_clock_pin_select_roundtrip(x: EspiInitClockPinSelect, value: u64)
    ensures
        EspiInitClockPinSelect::spec_from_u64(x.spec_to_u64()) == Some(x),
        EspiInitClockPinSelect::spec_from_u64(value) matches Some(y) ==> y.spec_to_u64() == value,
{
}

/// The eSPI chip select pin.
#[derive(Debug, PartialEq, Eq, Clone, Copy, Structural)]
pub enum EspiInitCsPinSelect {
    Gpio30,
    Gpio31,
}

impl EspiInitCsPinSelect {
    /// The number that stands for this value.
    pub open spec fn spec_to_u64(self) -> u64 {
        match self {
            EspiInitCsPinSelect::Gpio30 => 0x0,
            EspiInitCsPinSelect::Gpio31 => 0x1,
        }
    }

    /// The value that VALUE stands for, if any.
    pub open spec fn spec_from_u64(value: u64) -> Option<EspiInitCsPinSelect> {
        match value {
            0x0 => Some(EspiInitCsPinSelect::Gpio30),
            0x1 => Some(EspiInitCsPinSelect::Gpio31),
            _ => None,
        }
    }

    pub fn from_u64(value: u64) -> (r: Option<EspiInitCsPinSelect>)
        ensures
            r == EspiInitCsPinSelect::spec_from_u64(value),
    {
        match value {
            0x0 => Some(EspiInitCsPinSelect::Gpio30),
            0x1 => Some(EspiInitCsPinSelect::Gpio31),
            _ => None,
        }
    }

    pub fn to_u64(&self) -> (r: Option<u64>)
        ensures
            r == Some(self.spec_to_u64()),
    {
        Some(
            match self {
                EspiInitCsPinSelect::Gpio30 => 0x0,
                EspiInitCsPinSelect::Gpio31 => 0x1,
            },
        )
    }
}

/// Every value of EspiInitCsPinSelect is read back from its own number, and every number that is
/// read as a value is that value's number.
pub proof fn lemma_espi_init_cs_pin_select_roundtrip(x: EspiInitCsPinSelect, value: u64)
    ensures
        EspiInitCsPinSelect::spec_from_u64(x.spec_to_u64()) == Some(x),
        EspiInitCsPinSelect::spec_from_u64(value) matches Some(y) ==> y.spec_to_u64() == value,
{
}

/// The eSPI clock frequency.
#[derive(Debug, PartialEq, Eq, Clone, Copy, Structural)]
pub enum EspiInitClockFrequency {
    _16_66MHz,
    _33_33MHz,
    _66_66MHz,
}

impl EspiInitClockFrequency {
    /// The number that stands for this value.
    pub open spec fn spec_to_u64(self) -> u64 {
        match self {
            EspiInitClockFrequency::_16_66MHz => 0x0,
            EspiInitClockFrequency::_33_33MHz => 0x1,
            EspiInitClockFrequency::_66_66MHz => 0x2,
        }
    }

    /// The value that VALUE stands for, if any.
    pub open spec fn spec_from_u64(value: u64) -> Option<EspiInitClockFrequency> {
        match value {
            0x0 => Some(EspiInitClockFrequency::_16_66MHz),
            0x1 => Some(EspiInitClockFrequency::_33_33MHz),
            0x2 => Some(EspiInitClockFrequency::_66_66MHz),
            _ => None,
        }
    }

    pub fn from_u64(value: u64) -> (r: Option<EspiInitClockFrequency>)
        ensures
            r == EspiInitClockFrequency::spec_from_u64(value),
    {
        match value {
            0x0 => Some(EspiInitClockFrequency::_16_66MHz),
            0x1 => Some(EspiInitClockFrequency::_33_33MHz),
            0x2 => Some(EspiInitClockFrequency::_66_66MHz),
            _ => None,
        }
    }

    pub fn to_u64(&self) -> (r: Option<u64>)
        ensures
            r == Some(self.spec_to_u64()),
    {
        Some(
            match self {
                EspiInitClockFrequency::_16_66MHz => 0x0,
                EspiInitClockFrequency::_33_33MHz => 0x1,
                EspiInitClockFrequency::_66_66MHz => 0x2,
            },
        )
    }
}

/// Every value of EspiInitClockFrequency is read back from its own number, and every number that is
/// read as a value is that value's number.
pub proof fn lemma_espi_init_clock_frequency_roundtrip(x: EspiInitClockFrequency, value: u64)
    ensures
        EspiInitClockFrequency::spec_from_u64(x.spec_to_u64()) == Some(x),
        EspiInitClockFrequency::spec_from_u64(value) matches Some(y) ==> y.spec_to_u64() == value,
{
}

impl EspiInitClockFrequency {
    /// The eSPI clock frequency, in kHz (rounded down).
    pub open spec fn spec_khz(self) -> nat {
        match self {
            EspiInitClockFrequency::_16_66MHz => 16666,
            EspiInitClockFrequency::_33_33MHz => 33333,
            EspiInitClockFrequency::_66_66MHz => 66666,
        }
    }
}

/// The numbers of the eSPI clock frequencies are 0 to 2, in the order of the frequencies:
/// a faster clock has a larger number, and of two numbers that decode, the larger one
/// decodes to the faster clock.
pub proof fn lemma_espi_init_clock_frequency_numbers_follow_speed(
    x: EspiInitClockFrequency,
    y: EspiInitClockFrequency,
    v: u64,
    w: u64,
)
    ensures
        x.spec_to_u64() < 3,
        x.spec_khz() < y.spec_khz() <==> x.spec_to_u64() < y.spec_to_u64(),
        EspiInitClockFrequency::spec_from_u64(v) is Some <==> v < 3,
        EspiInitClockFrequency::spec_from_u64(v) is Some && EspiInitClockFrequency::spec_from_u64(w) is Some ==> (v < w
            <==> EspiInitClockFrequency::spec_from_u64(v)->0.spec_khz() < EspiInitClockFrequency::spec_from_u64(w)->0.spec_khz()),
{
    lemma_order_of_espi_init_clock_frequency_numbers_follow_speed(x, y);
    lemma_espi_init_clock_frequency_roundtrip(x, v);
    lemma_espi_init_clock_frequency_roundtrip(x, w);
    if let Some(a) = EspiInitClockFrequency::spec_from_u64(v) {
        if let Some(b) = EspiInitClockFrequency::spec_from_u64(w) {
            lemma_order_of_espi_init_clock_frequency_numbers_follow_speed(a, b);
        }
    }
}

/// A faster value has a larger number.
proof fn lemma_order_of_espi_init_clock_frequency_numbers_follow_speed(x: EspiInitClockFrequency, y: EspiInitClockFrequency)
    ensures
        x.spec_khz() < y.spec_khz() <==> x.spec_to_u64() < y.spec_to_u64(),
{
}

/// The eSPI I/O mode.
#[derive(Debug, PartialEq, Eq, Clone, Copy, Structural)]
pub enum EspiInitIoMode {
    Single,
    Dual,
    Quad,
}

impl EspiInitIoMode {
    /// The number that stands for this value.
    pub open spec fn spec_to_u64(self) -> u64 {
        match self {
            EspiInitIoMode::Single => 0x0,
            EspiInitIoMode::Dual => 0x1,
            EspiInitIoMode::Quad => 0x2,
        }
    }

    /// The value that VALUE stands for, if any.
    pub open spec fn spec_from_u64(value: u64) -> Option<EspiInitIoMode> {
        match value {
            0x0 => Some(EspiInitIoMode::Single),
            0x1 => Some(EspiInitIoMode::Dual),
            0x2 => Some(EspiInitIoMode::Quad),
            _ => None,
        }
    }

    pub fn from_u64(value: u64) -> (r: Option<EspiInitIoMode>)
        ensures
            r == EspiInitIoMode::spec_from_u64(value),
    {
        match value {
            0x0 => Some(EspiInitIoMode::Single),
            0x1 => Some(EspiInitIoMode::Dual),
            0x2 => Some(EspiInitIoMode::Quad),
            _ => None,
        }
    }

    pub fn to_u64(&self) -> (r: Option<u64>)
        ensures
            r == Some(self.spec_to_u64()),
    {
        Some(
            match self {
                EspiInitIoMode::Single => 0x0,
                EspiInitIoMode::Dual => 0x1,
                EspiInitIoMode::Quad => 0x2,
            },
        )
    }
}

/// Every value of EspiInitIoMode is read back from its own number, and every number that is
/// read as a value is that value's number.
pub proof fn lemma_espi_init_io_mode_roundtrip(x: EspiInitIoMode, value: u64)
    ensures
        EspiInitIoMode::spec_from_u64(x.spec_to_u64()) == Some(x),
        EspiInitIoMode::spec_from_u64(value) matches Some(y) ==> y.spec_to_u64() == value,
{
}

/// How eSPI alerts are signalled.
#[derive(Debug, PartialEq, Eq, Clone, Copy, Structural)]
pub enum EspiInitAlertMode {
    NoDedicatedAlertPin,
    DedicatedAlertPin,
}

impl EspiInitAlertMode {
    /// The number that stands for this value.
    pub open spec fn spec_to_u64(self) -> u64 {
        match self {
            EspiInitAlertMode::NoDedicatedAlertPin => 0x0,
            EspiInitAlertMode::DedicatedAlertPin => 0x1,
        }
    }

    /// The value that VALUE stands for, if any.
    pub open spec fn spec_from_u64(value: u64) -> Option<EspiInitAlertMode> {
        match value {
            0x0 => Some(EspiInitAlertMode::NoDedicatedAlertPin),
            0x1 => Some(EspiInitAlertMode::DedicatedAlertPin),
            _ => None,
        }
    }

    pub fn from_u64(value: u64) -> (r: Option<EspiInitAlertMode>)
        ensures
            r == EspiInitAlertMode::spec_from_u64(value),
    {
        match value {
            0x0 => Some(EspiInitAlertMode::NoDedicatedAlertPin),
            0x1 => Some(EspiInitAlertMode::DedicatedAlertPin),
            _ => None,
        }
    }

    pub fn to_u64(&self) -> (r: Option<u64>)
        ensures
            r == Some(self.spec_to_u64()),
    {
        Some(
            match self {
                EspiInitAlertMode::NoDedicatedAlertPin => 0x0,
                EspiInitAlertMode::DedicatedAlertPin => 0x1,
            },
        )
    }
}

/// Every value of EspiInitAlertMode is read back from its own number, and every number that is
/// read as a value is that value's number.
pub proof fn lemma_espi_init_alert_mode_roundtrip(x: EspiInitAlertMode, value: u64)
    ensures
        EspiInitAlertMode::spec_from_u64(x.spec_to_u64()) == Some(x),
        EspiInitAlertMode::spec_from_u64(value) matches Some(y) ==> y.spec_to_u64() == value,
{
}

/// The eSPI initialization settings.
#[allow(non_camel_case_types)]
#[derive(Debug, Clone, Copy)]
pub struct EspiInit {
    pub(crate) espi_enabled: u8,
    pub(crate) data_bus_select: u8,
    pub(crate) clock_pin_select: u8,
    pub(crate) cs_pin_select: u8,
    pub(crate) clock_frequency: u8,
    pub(crate) io_mode: u8,
    pub(crate) alert_mode: u8,
    pub(crate) pltrst_deassert: u8,
    pub(crate) io80_decoding_enabled: u8,
    pub(crate) io6064_decoding_enabled: u8,
    pub(crate) io_range_sizes_minus_one: [u8; 16],
    pub(crate) io_range_bases: [u16; 16],
    pub(crate) mmio_range_sizes_minus_one: [u16; 5],
    pub(crate) mmio_range_bases: [u32; 5],
    pub(crate) irq_mask: u32,
    pub(crate) irq_polarity: u32,
    pub(crate) cputemp_rtctime_vw_enabled: u8,
    pub(crate) cputemp_rtctime_vw_index_select: u8,
    pub(crate) _reserved_1: u8,
    pub(crate) _reserved_2: u8,
    pub(crate) cpu_temp_mmio_base: u32,
    pub(crate) rtc_time_mmio_base: u32,
    pub(crate) bus_master_enabled: u8,
    pub(crate) _reserved_3: u8,
    pub(crate) _reserved_4: u8,
    pub(crate) _reserved_5: u8,
}

impl EspiInit {
    pub closed spec fn spec_espi_enabled(self) -> u8 {
        self.espi_enabled
    }

    pub closed spec fn spec_data_bus_select(self) -> u8 {
        self.data_bus_select
    }

    pub closed spec fn spec_clock_pin_select(self) -> u8 {
        self.clock_pin_select
    }

    pub closed spec fn spec_cs_pin_select(self) -> u8 {
        self.cs_pin_select
    }

    pub closed spec fn spec_clock_frequency(self) -> u8 {
        self.clock_frequency
    }

    pub closed spec fn spec_io_mode(self) -> u8 {
        self.io_mode
    }

    pub closed spec fn spec_alert_mode(self) -> u8 {
        self.alert_mode
    }

    pub closed spec fn spec_pltrst_deassert(self) -> u8 {
        self.pltrst_deassert
    }

    pub closed spec fn spec_io80_decoding_enabled(self) -> u8 {
        self.io80_decoding_enabled
    }

    pub closed spec fn spec_io6064_decoding_enabled(self) -> u8 {
        self.io6064_decoding_enabled
    }

    pub closed spec fn spec_io_range_sizes_minus_one(self) -> [u8; 16] {
        self.io_range_sizes_minus_one
    }

    pub closed spec fn spec_io_range_bases(self) -> [u16; 16] {
        self.io_range_bases
    }

    pub closed spec fn spec_mmio_range_sizes_minus_one(self) -> [u16; 5] {
        self.mmio_range_sizes_minus_one
    }

    pub closed spec fn spec_mmio_range_bases(self) -> [u32; 5] {
        self.mmio_range_bases
    }

    pub closed spec fn spec_irq_mask(self) -> u32 {
        self.irq_mask
    }

    pub closed spec fn spec_irq_polarity(self) -> u32 {
        self.irq_polarity
    }

    pub closed spec fn spec_cputemp_rtctime_vw_enabled(self) -> u8 {
        self.cputemp_rtctime_vw_enabled
    }

    pub closed spec fn spec_cputemp_rtctime_vw_index_select(self) -> u8 {
        self.cputemp_rtctime_vw_index_select
    }

    pub closed spec fn spec__reserved_1(self) -> u8 {
        self._reserved_1
    }

    pub closed spec fn spec__reserved_2(self) -> u8 {
        self._reserved_2
    }

    pub closed spec fn spec_cpu_temp_mmio_base(self) -> u32 {
        self.cpu_temp_mmio_base
    }

    pub closed spec fn spec_rtc_time_mmio_base(self) -> u32 {
        self.rtc_time_mmio_base
    }

    pub closed spec fn spec_bus_master_enabled(self) -> u8 {
        self.bus_master_enabled
    }

    pub closed spec fn spec__reserved_3(self) -> u8 {
        self._reserved_3
    }

    pub closed spec fn spec__reserved_4(self) -> u8 {
        self._reserved_4
    }

    pub closed spec fn spec__reserved_5(self) -> u8 {
        self._reserved_5
    }

    pub fn espi_enabled(&self) -> (r: Result<bool>)
        ensures
            r == spec_bool_result_of_raw(self.spec_espi_enabled() as int),
    {
        match self.espi_enabled {
            0 => Ok(false),
            1 => Ok(true),
            _ => Err(Error::EntryTypeMismatch),
        }
    }

    pub fn set_espi_enabled(&mut self, value: bool)
        ensures
            final(self).spec_espi_enabled() == spec_raw_of_bool(value) as u8,
            final(self).spec_data_bus_select() == old(self).spec_data_bus_select(),
            final(self).spec_clock_pin_select() == old(self).spec_clock_pin_select(),
            final(self).spec_cs_pin_select() == old(self).spec_cs_pin_select(),
            final(self).spec_clock_frequency() == old(self).spec_clock_frequency(),
            final(self).spec_io_mode() == old(self).spec_io_mode(),
            final(self).spec_alert_mode() == old(self).spec_alert_mode(),
            final(self).spec_pltrst_deassert() == old(self).spec_pltrst_deassert(),
            final(self).spec_io80_decoding_enabled() == old(self).spec_io80_decoding_enabled(),
            final(self).spec_io6064_decoding_enabled() == old(self).spec_io6064_decoding_enabled(),
            final(self).spec_io_range_sizes_minus_one() == old(self).spec_io_range_sizes_minus_one(),
            final(self).spec_io_range_bases() == old(self).spec_io_range_bases(),
            final(self).spec_mmio_range_sizes_minus_one() == old(self).spec_mmio_range_sizes_minus_one(),
            final(self).spec_mmio_range_bases() == old(self).spec_mmio_range_bases(),
            final(self).spec_irq_mask() == old(self).spec_irq_mask(),
            final(self).spec_irq_polarity() == old(self).spec_irq_polarity(),
            final(self).spec_cputemp_rtctime_vw_enabled() == old(self).spec_cputemp_rtctime_vw_enabled(),
            final(self).spec_cputemp_rtctime_vw_index_select() == old(self).spec_cputemp_rtctime_vw_index_select(),
            final(self).spec__reserved_1() == old(self).spec__reserved_1(),
            final(self).spec__reserved_2() == old(self).spec__reserved_2(),
            final(self).spec_cpu_temp_mmio_base() == old(self).spec_cpu_temp_mmio_base(),
            final(self).spec_rtc_time_mmio_base() == old(self).spec_rtc_time_mmio_base(),
            final(self).spec_bus_master_enabled() == old(self).spec_bus_master_enabled(),
            final(self).spec__reserved_3() == old(self).spec__reserved_3(),
            final(self).spec__reserved_4() == old(self).spec__reserved_4(),
            final(self).spec__reserved_5() == old(self).spec__reserved_5(),
    {
        self.espi_enabled = if value { 1 } else { 0 };
    }

    pub fn data_bus_select(&self) -> (r: Result<EspiInitDataBusSelect>)
        ensures
            r == match EspiInitDataBusSelect::spec_from_u64(self.spec_data_bus_select() as u64) {
                Some(e) => Ok::<EspiInitDataBusSelect, Error>(e),
                None => Err(Error::EntryTypeMismatch),
            },
    {
        match EspiInitDataBusSelect::from_u64(self.data_bus_select as u64) {
            Some(e) => Ok(e),
            None => Err(Error::EntryTypeMismatch),
        }
    }

    pub fn set_data_bus_select(&mut self, value: EspiInitDataBusSelect)
        ensures
            final(self).spec_data_bus_select() == value.spec_to_u64() as u8,
            final(self).spec_espi_enabled() == old(self).spec_espi_enabled(),
            final(self).spec_clock_pin_select() == old(self).spec_clock_pin_select(),
            final(self).spec_cs_pin_select() == old(self).spec_cs_pin_select(),
            final(self).spec_clock_frequency() == old(self).spec_clock_frequency(),
            final(self).spec_io_mode() == old(self).spec_io_mode(),
            final(self).spec_alert_mode() == old(self).spec_alert_mode(),
            final(self).spec_pltrst_deassert() == old(self).spec_pltrst_deassert(),
            final(self).spec_io80_decoding_enabled() == old(self).spec_io80_decoding_enabled(),
            final(self).spec_io6064_decoding_enabled() == old(self).spec_io6064_decoding_enabled(),
            final(self).spec_io_range_sizes_minus_one() == old(self).spec_io_range_sizes_minus_one(),
            final(self).spec_io_range_bases() == old(self).spec_io_range_bases(),
            final(self).spec_mmio_range_sizes_minus_one() == old(self).spec_mmio_range_sizes_minus_one(),
            final(self).spec_mmio_range_bases() == old(self).spec_mmio_range_bases(),
            final(self).spec_irq_mask() == old(self).spec_irq_mask(),
            final(self).spec_irq_polarity() == old(self).spec_irq_polarity(),
            final(self).spec_cputemp_rtctime_vw_enabled() == old(self).spec_cputemp_rtctime_vw_enabled(),
            final(self).spec_cputemp_rtctime_vw_index_select() == old(self).spec_cputemp_rtctime_vw_index_select(),
            final(self).spec__reserved_1() == old(self).spec__reserved_1(),
            final(self).spec__reserved_2() == old(self).spec__reserved_2(),
            final(self).spec_cpu_temp_mmio_base() == old(self).spec_cpu_temp_mmio_base(),
            final(self).spec_rtc_time_mmio_base() == old(self).spec_rtc_time_mmio_base(),
            final(self).spec_bus_master_enabled() == old(self).spec_bus_master_enabled(),
            final(self).spec__reserved_3() == old(self).spec__reserved_3(),
            final(self).spec__reserved_4() == old(self).spec__reserved_4(),
            final(self).spec__reserved_5() == old(self).spec__reserved_5(),
    {
        self.data_bus_select = value.to_u64().unwrap() as u8;
    }

    pub fn clock_pin_select(&self) -> (r: Result<EspiInitClockPinSelect>)
        ensures
            r == match EspiInitClockPinSelect::spec_from_u64(self.spec_clock_pin_select() as u64) {
                Some(e) => Ok::<EspiInitClockPinSelect, Error>(e),
                None => Err(Error::EntryTypeMismatch),
            },
    {
        match EspiInitClockPinSelect::from_u64(self.clock_pin_select as u64) {
            Some(e) => Ok(e),
            None => Err(Error::EntryTypeMismatch),
        }
    }

    pub fn set_clock_pin_select(&mut self, value: EspiInitClockPinSelect)
        ensures
            final(self).spec_clock_pin_select() == value.spec_to_u64() as u8,
            final(self).spec_espi_enabled() == old(self).spec_espi_enabled(),
            final(self).spec_data_bus_select() == old(self).spec_data_bus_select(),
            final(self).spec_cs_pin_select() == old(self).spec_cs_pin_select(),
            final(self).spec_clock_frequency() == old(self).spec_clock_frequency(),
            final(self).spec_io_mode() == old(self).spec_io_mode(),
            final(self).spec_alert_mode() == old(self).spec_alert_mode(),
            final(self).spec_pltrst_deassert() == old(self).spec_pltrst_deassert(),
            final(self).spec_io80_decoding_enabled() == old(self).spec_io80_decoding_enabled(),
            final(self).spec_io6064_decoding_enabled() == old(self).spec_io6064_decoding_enabled(),
            final(self).spec_io_range_sizes_minus_one() == old(self).spec_io_range_sizes_minus_one(),
            final(self).spec_io_range_bases() == old(self).spec_io_range_bases(),
            final(self).spec_mmio_range_sizes_minus_one() == old(self).spec_mmio_range_sizes_minus_one(),
            final(self).spec_mmio_range_bases() == old(self).spec_mmio_range_bases(),
            final(self).spec_irq_mask() == old(self).spec_irq_mask(),
            final(self).spec_irq_polarity() == old(self).spec_irq_polarity(),
            final(self).spec_cputemp_rtctime_vw_enabled() == old(self).spec_cputemp_rtctime_vw_enabled(),
            final(self).spec_cputemp_rtctime_vw_index_select() == old(self).spec_cputemp_rtctime_vw_index_select(),
            final(self).spec__reserved_1() == old(self).spec__reserved_1(),
            final(self).spec__reserved_2() == old(self).spec__reserved_2(),
            final(self).spec_cpu_temp_mmio_base() == old(self).spec_cpu_temp_mmio_base(),
            final(self).spec_rtc_time_mmio_base() == old(self).spec_rtc_time_mmio_base(),
            final(self).spec_bus_master_enabled() == old(self).spec_bus_master_enabled(),
            final(self).spec__reserved_3() == old(self).spec__reserved_3(),
            final(self).spec__reserved_4() == old(self).spec__reserved_4(),
            final(self).spec__reserved_5() == old(self).spec__reserved_5(),
    {
        self.clock_pin_select = value.to_u64().unwrap() as u8;
    }

    pub fn cs_pin_select(&self) -> (r: Result<EspiInitCsPinSelect>)
        ensures
            r == match EspiInitCsPinSelect::spec_from_u64(self.spec_cs_pin_select() as u64) {
                Some(e) => Ok::<EspiInitCsPinSelect, Error>(e),
                None => Err(Error::EntryTypeMismatch),
            },
    {
        match EspiInitCsPinSelect::from_u64(self.cs_pin_select as u64) {
            Some(e) => Ok(e),
            None => Err(Error::EntryTypeMismatch),
        }
    }

    pub fn set_cs_pin_select(&mut self, value: EspiInitCsPinSelect)
        ensures
            final(self).spec_cs_pin_select() == value.spec_to_u64() as u8,
            final(self).spec_espi_enabled() == old(self).spec_espi_enabled(),
            final(self).spec_data_bus_select() == old(self).spec_data_bus_select(),
            final(self).spec_clock_pin_select() == old(self).spec_clock_pin_select(),
            final(self).spec_clock_frequency() == old(self).spec_clock_frequency(),
            final(self).spec_io_mode() == old(self).spec_io_mode(),
            final(self).spec_alert_mode() == old(self).spec_alert_mode(),
            final(self).spec_pltrst_deassert() == old(self).spec_pltrst_deassert(),
            final(self).spec_io80_decoding_enabled() == old(self).spec_io80_decoding_enabled(),
            final(self).spec_io6064_decoding_enabled() == old(self).spec_io6064_decoding_enabled(),
            final(self).spec_io_range_sizes_minus_one() == old(self).spec_io_range_sizes_minus_one(),
            final(self).spec_io_range_bases() == old(self).spec_io_range_bases(),
            final(self).spec_mmio_range_sizes_minus_one() == old(self).spec_mmio_range_sizes_minus_one(),
            final(self).spec_mmio_range_bases() == old(self).spec_mmio_range_bases(),
            final(self).spec_irq_mask() == old(self).spec_irq_mask(),
            final(self).spec_irq_polarity() == old(self).spec_irq_polarity(),
            final(self).spec_cputemp_rtctime_vw_enabled() == old(self).spec_cputemp_rtctime_vw_enabled(),
            final(self).spec_cputemp_rtctime_vw_index_select() == old(self).spec_cputemp_rtctime_vw_index_select(),
            final(self).spec__reserved_1() == old(self).spec__reserved_1(),
            final(self).spec__reserved_2() == old(self).spec__reserved_2(),
            final(self).spec_cpu_temp_mmio_base() == old(self).spec_cpu_temp_mmio_base(),
            final(self).spec_rtc_time_mmio_base() == old(self).spec_rtc_time_mmio_base(),
            final(self).spec_bus_master_enabled() == old(self).spec_bus_master_enabled(),
            final(self).spec__reserved_3() == old(self).spec__reserved_3(),
            final(self).spec__reserved_4() == old(self).spec__reserved_4(),
            final(self).spec__reserved_5() == old(self).spec__reserved_5(),
    {
        self.cs_pin_select = value.to_u64().unwrap() as u8;
    }

    pub fn clock_frequency(&self) -> (r: Result<EspiInitClockFrequency>)
        ensures
            r == match EspiInitClockFrequency::spec_from_u64(self.spec_clock_frequency() as u64) {
                Some(e) => Ok::<EspiInitClockFrequency, Error>(e),
                None => Err(Error::EntryTypeMismatch),
            },
    {
        match EspiInitClockFrequency::from_u64(self.clock_frequency as u64) {
            Some(e) => Ok(e),
            None => Err(Error::EntryTypeMismatch),
        }
    }

    pub fn set_clock_frequency(&mut self, value: EspiInitClockFrequency)
        ensures
            final(self).spec_clock_frequency() == value.spec_to_u64() as u8,
            final(self).spec_espi_enabled() == old(self).spec_espi_enabled(),
            final(self).spec_data_bus_select() == old(self).spec_data_bus_select(),
            final(self).spec_clock_pin_select() == old(self).spec_clock_pin_select(),
            final(self).spec_cs_pin_select() == old(self).spec_cs_pin_select(),
            final(self).spec_io_mode() == old(self).spec_io_mode(),
            final(self).spec_alert_mode() == old(self).spec_alert_mode(),
            final(self).spec_pltrst_deassert() == old(self).spec_pltrst_deassert(),
            final(self).spec_io80_decoding_enabled() == old(self).spec_io80_decoding_enabled(),
            final(self).spec_io6064_decoding_enabled() == old(self).spec_io6064_decoding_enabled(),
            final(self).spec_io_range_sizes_minus_one() == old(self).spec_io_range_sizes_minus_one(),
            final(self).spec_io_range_bases() == old(self).spec_io_range_bases(),
            final(self).spec_mmio_range_sizes_minus_one() == old(self).spec_mmio_range_sizes_minus_one(),
            final(self).spec_mmio_range_bases() == old(self).spec_mmio_range_bases(),
            final(self).spec_irq_mask() == old(self).spec_irq_mask(),
            final(self).spec_irq_polarity() == old(self).spec_irq_polarity(),
            final(self).spec_cputemp_rtctime_vw_enabled() == old(self).spec_cputemp_rtctime_vw_enabled(),
            final(self).spec_cputemp_rtctime_vw_index_select() == old(self).spec_cputemp_rtctime_vw_index_select(),
            final(self).spec__reserved_1() == old(self).spec__reserved_1(),
            final(self).spec__reserved_2() == old(self).spec__reserved_2(),
            final(self).spec_cpu_temp_mmio_base() == old(self).spec_cpu_temp_mmio_base(),
            final(self).spec_rtc_time_mmio_base() == old(self).spec_rtc_time_mmio_base(),
            final(self).spec_bus_master_enabled() == old(self).spec_bus_master_enabled(),
            final(self).spec__reserved_3() == old(self).spec__reserved_3(),
            final(self).spec__reserved_4() == old(self).spec__reserved_4(),
            final(self).spec__reserved_5() == old(self).spec__reserved_5(),
    {
        self.clock_frequency = value.to_u64().unwrap() as u8;
    }

    pub fn io_mode(&self) -> (r: Result<EspiInitIoMode>)
        ensures
            r == match EspiInitIoMode::spec_from_u64(self.spec_io_mode() as u64) {
                Some(e) => Ok::<EspiInitIoMode, Error>(e),
                None => Err(Error::EntryTypeMismatch),
            },
    {
        match EspiInitIoMode::from_u64(self.io_mode as u64) {
            Some(e) => Ok(e),
            None => Err(Error::EntryTypeMismatch),
        }
    }

    pub fn set_io_mode(&mut self, value: EspiInitIoMode)
        ensures
            final(self).spec_io_mode() == value.spec_to_u64() as u8,
            final(self).spec_espi_enabled() == old(self).spec_espi_enabled(),
            final(self).spec_data_bus_select() == old(self).spec_data_bus_select(),
            final(self).spec_clock_pin_select() == old(self).spec_clock_pin_select(),
            final(self).spec_cs_pin_select() == old(self).spec_cs_pin_select(),
            final(self).spec_clock_frequency() == old(self).spec_clock_frequency(),
            final(self).spec_alert_mode() == old(self).spec_alert_mode(),
            final(self).spec_pltrst_deassert() == old(self).spec_pltrst_deassert(),
            final(self).spec_io80_decoding_enabled() == old(self).spec_io80_decoding_enabled(),
            final(self).spec_io6064_decoding_enabled() == old(self).spec_io6064_decoding_enabled(),
            final(self).spec_io_range_sizes_minus_one() == old(self).spec_io_range_sizes_minus_one(),
            final(self).spec_io_range_bases() == old(self).spec_io_range_bases(),
            final(self).spec_mmio_range_sizes_minus_one() == old(self).spec_mmio_range_sizes_minus_one(),
            final(self).spec_mmio_range_bases() == old(self).spec_mmio_range_bases(),
            final(self).spec_irq_mask() == old(self).spec_irq_mask(),
            final(self).spec_irq_polarity() == old(self).spec_irq_polarity(),
            final(self).spec_cputemp_rtctime_vw_enabled() == old(self).spec_cputemp_rtctime_vw_enabled(),
            final(self).spec_cputemp_rtctime_vw_index_select() == old(self).spec_cputemp_rtctime_vw_index_select(),
            final(self).spec__reserved_1() == old(self).spec__reserved_1(),
            final(self).spec__reserved_2() == old(self).spec__reserved_2(),
            final(self).spec_cpu_temp_mmio_base() == old(self).spec_cpu_temp_mmio_base(),
            final(self).spec_rtc_time_mmio_base() == old(self).spec_rtc_time_mmio_base(),
            final(self).spec_bus_master_enabled() == old(self).spec_bus_master_enabled(),
            final(self).spec__reserved_3() == old(self).spec__reserved_3(),
            final(self).spec__reserved_4() == old(self).spec__reserved_4(),
            final(self).spec__reserved_5() == old(self).spec__reserved_5(),
    {
        self.io_mode = value.to_u64().unwrap() as u8;
    }

    pub fn alert_mode(&self) -> (r: Result<EspiInitAlertMode>)
        ensures
            r == match EspiInitAlertMode::spec_from_u64(self.spec_alert_mode() as u64) {
                Some(e) => Ok::<EspiInitAlertMode, Error>(e),
                None => Err(Error::EntryTypeMismatch),
            },
    {
        match EspiInitAlertMode::from_u64(self.alert_mode as u64) {
            Some(e) => Ok(e),
            None => Err(Error::EntryTypeMismatch),
        }
    }

    pub fn set_alert_mode(&mut self, value: EspiInitAlertMode)
        ensures
            final(self).spec_alert_mode() == value.spec_to_u64() as u8,
            final(self).spec_espi_enabled() == old(self).spec_espi_enabled(),
            final(self).spec_data_bus_select() == old(self).spec_data_bus_select(),
            final(self).spec_clock_pin_select() == old(self).spec_clock_pin_select(),
            final(self).spec_cs_pin_select() == old(self).spec_cs_pin_select(),
            final(self).spec_clock_frequency() == old(self).spec_clock_frequency(),
            final(self).spec_io_mode() == old(self).spec_io_mode(),
            final(self).spec_pltrst_deassert() == old(self).spec_pltrst_deassert(),
            final(self).spec_io80_decoding_enabled() == old(self).spec_io80_decoding_enabled(),
            final(self).spec_io6064_decoding_enabled() == old(self).spec_io6064_decoding_enabled(),
            final(self).spec_io_range_sizes_minus_one() == old(self).spec_io_range_sizes_minus_one(),
            final(self).spec_io_range_bases() == old(self).spec_io_range_bases(),
            final(self).spec_mmio_range_sizes_minus_one() == old(self).spec_mmio_range_sizes_minus_one(),
            final(self).spec_mmio_range_bases() == old(self).spec_mmio_range_bases(),
            final(self).spec_irq_mask() == old(self).spec_irq_mask(),
            final(self).spec_irq_polarity() == old(self).spec_irq_polarity(),
            final(self).spec_cputemp_rtctime_vw_enabled() == old(self).spec_cputemp_rtctime_vw_enabled(),
            final(self).spec_cputemp_rtctime_vw_index_select() == old(self).spec_cputemp_rtctime_vw_index_select(),
            final(self).spec__reserved_1() == old(self).spec__reserved_1(),
            final(self).spec__reserved_2() == old(self).spec__reserved_2(),
            final(self).spec_cpu_temp_mmio_base() == old(self).spec_cpu_temp_mmio_base(),
            final(self).spec_rtc_time_mmio_base() == old(self).spec_rtc_time_mmio_base(),
            final(self).spec_bus_master_enabled() == old(self).spec_bus_master_enabled(),
            final(self).spec__reserved_3() == old(self).spec__reserved_3(),
            final(self).spec__reserved_4() == old(self).spec__reserved_4(),
            final(self).spec__reserved_5() == old(self).spec__reserved_5(),
    {
        self.alert_mode = value.to_u64().unwrap() as u8;
    }

    pub fn pltrst_deassert(&self) -> (r: Result<bool>)
        ensures
            r == spec_bool_result_of_raw(self.spec_pltrst_deassert() as int),
    {
        match self.pltrst_deassert {
            0 => Ok(false),
            1 => Ok(true),
            _ => Err(Error::EntryTypeMismatch),
        }
    }

    pub fn set_pltrst_deassert(&mut self, value: bool)
        ensures
            final(self).spec_pltrst_deassert() == spec_raw_of_bool(value) as u8,
            final(self).spec_espi_enabled() == old(self).spec_espi_enabled(),
            final(self).spec_data_bus_select() == old(self).spec_data_bus_select(),
            final(self).spec_clock_pin_select() == old(self).spec_clock_pin_select(),
            final(self).spec_cs_pin_select() == old(self).spec_cs_pin_select(),
            final(self).spec_clock_frequency() == old(self).spec_clock_frequency(),
            final(self).spec_io_mode() == old(self).spec_io_mode(),
            final(self).spec_alert_mode() == old(self).spec_alert_mode(),
            final(self).spec_io80_decoding_enabled() == old(self).spec_io80_decoding_enabled(),
            final(self).spec_io6064_decoding_enabled() == old(self).spec_io6064_decoding_enabled(),
            final(self).spec_io_range_sizes_minus_one() == old(self).spec_io_range_sizes_minus_one(),
            final(self).spec_io_range_bases() == old(self).spec_io_range_bases(),
            final(self).spec_mmio_range_sizes_minus_one() == old(self).spec_mmio_range_sizes_minus_one(),
            final(self).spec_mmio_range_bases() == old(self).spec_mmio_range_bases(),
            final(self).spec_irq_mask() == old(self).spec_irq_mask(),
            final(self).spec_irq_polarity() == old(self).spec_irq_polarity(),
            final(self).spec_cputemp_rtctime_vw_enabled() == old(self).spec_cputemp_rtctime_vw_enabled(),
            final(self).spec_cputemp_rtctime_vw_index_select() == old(self).spec_cputemp_rtctime_vw_index_select(),
            final(self).spec__reserved_1() == old(self).spec__reserved_1(),
            final(self).spec__reserved_2() == old(self).spec__reserved_2(),
            final(self).spec_cpu_temp_mmio_base() == old(self).spec_cpu_temp_mmio_base(),
            final(self).spec_rtc_time_mmio_base() == old(self).spec_rtc_time_mmio_base(),
            final(self).spec_bus_master_enabled() == old(self).spec_bus_master_enabled(),
            final(self).spec__reserved_3() == old(self).spec__reserved_3(),
            final(self).spec__reserved_4() == old(self).spec__reserved_4(),
            final(self).spec__reserved_5() == old(self).spec__reserved_5(),
    {
        self.pltrst_deassert = if value { 1 } else { 0 };
    }

    pub fn io80_decoding_enabled(&self) -> (r: Result<bool>)
        ensures
            r == spec_bool_result_of_raw(self.spec_io80_decoding_enabled() as int),
    {
        match self.io80_decoding_enabled {
            0 => Ok(false),
            1 => Ok(true),
            _ => Err(Error::EntryTypeMismatch),
        }
    }

    pub fn set_io80_decoding_enabled(&mut self, value: bool)
        ensures
            final(self).spec_io80_decoding_enabled() == spec_raw_of_bool(value) as u8,
            final(self).spec_espi_enabled() == old(self).spec_espi_enabled(),
            final(self).spec_data_bus_select() == old(self).spec_data_bus_select(),
            final(self).spec_clock_pin_select() == old(self).spec_clock_pin_select(),
            final(self).spec_cs_pin_select() == old(self).spec_cs_pin_select(),
            final(self).spec_clock_frequency() == old(self).spec_clock_frequency(),
            final(self).spec_io_mode() == old(self).spec_io_mode(),
            final(self).spec_alert_mode() == old(self).spec_alert_mode(),
            final(self).spec_pltrst_deassert() == old(self).spec_pltrst_deassert(),
            final(self).spec_io6064_decoding_enabled() == old(self).spec_io6064_decoding_enabled(),
            final(self).spec_io_range_sizes_minus_one() == old(self).spec_io_range_sizes_minus_one(),
            final(self).spec_io_range_bases() == old(self).spec_io_range_bases(),
            final(self).spec_mmio_range_sizes_minus_one() == old(self).spec_mmio_range_sizes_minus_one(),
            final(self).spec_mmio_range_bases() == old(self).spec_mmio_range_bases(),
            final(self).spec_irq_mask() == old(self).spec_irq_mask(),
            final(self).spec_irq_polarity() == old(self).spec_irq_polarity(),
            final(self).spec_cputemp_rtctime_vw_enabled() == old(self).spec_cputemp_rtctime_vw_enabled(),
            final(self).spec_cputemp_rtctime_vw_index_select() == old(self).spec_cputemp_rtctime_vw_index_select(),
            final(self).spec__reserved_1() == old(self).spec__reserved_1(),
            final(self).spec__reserved_2() == old(self).spec__reserved_2(),
            final(self).spec_cpu_temp_mmio_base() == old(self).spec_cpu_temp_mmio_base(),
            final(self).spec_rtc_time_mmio_base() == old(self).spec_rtc_time_mmio_base(),
            final(self).spec_bus_master_enabled() == old(self).spec_bus_master_enabled(),
            final(self).spec__reserved_3() == old(self).spec__reserved_3(),
            final(self).spec__reserved_4() == old(self).spec__reserved_4(),
            final(self).spec__reserved_5() == old(self).spec__reserved_5(),
    {
        self.io80_decoding_enabled = if value { 1 } else { 0 };
    }

    pub fn io6064_decoding_enabled(&self) -> (r: Result<bool>)
        ensures
            r == spec_bool_result_of_raw(self.spec_io6064_decoding_enabled() as int),
    {
        match self.io6064_decoding_enabled {
            0 => Ok(false),
            1 => Ok(true),
            _ => Err(Error::EntryTypeMismatch),
        }
    }

    pub fn set_io6064_decoding_enabled(&mut self, value: bool)
        ensures
            final(self).spec_io6064_decoding_enabled() == spec_raw_of_bool(value) as u8,
            final(self).spec_espi_enabled() == old(self).spec_espi_enabled(),
            final(self).spec_data_bus_select() == old(self).spec_data_bus_select(),
            final(self).spec_clock_pin_select() == old(self).spec_clock_pin_select(),
            final(self).spec_cs_pin_select() == old(self).spec_cs_pin_select(),
            final(self).spec_clock_frequency() == old(self).spec_clock_frequency(),
            final(self).spec_io_mode() == old(self).spec_io_mode(),
            final(self).spec_alert_mode() == old(self).spec_alert_mode(),
            final(self).spec_pltrst_deassert() == old(self).spec_pltrst_deassert(),
            final(self).spec_io80_decoding_enabled() == old(self).spec_io80_decoding_enabled(),
            final(self).spec_io_range_sizes_minus_one() == old(self).spec_io_range_sizes_minus_one(),
            final(self).spec_io_range_bases() == old(self).spec_io_range_bases(),
            final(self).spec_mmio_range_sizes_minus_one() == old(self).spec_mmio_range_sizes_minus_one(),
            final(self).spec_mmio_range_bases() == old(self).spec_mmio_range_bases(),
            final(self).spec_irq_mask() == old(self).spec_irq_mask(),
            final(self).spec_irq_polarity() == old(self).spec_irq_polarity(),
            final(self).spec_cputemp_rtctime_vw_enabled() == old(self).spec_cputemp_rtctime_vw_enabled(),
            final(self).spec_cputemp_rtctime_vw_index_select() == old(self).spec_cputemp_rtctime_vw_index_select(),
            final(self).spec__reserved_1() == old(self).spec__reserved_1(),
            final(self).spec__reserved_2() == old(self).spec__reserved_2(),
            final(self).spec_cpu_temp_mmio_base() == old(self).spec_cpu_temp_mmio_base(),
            final(self).spec_rtc_time_mmio_base() == old(self).spec_rtc_time_mmio_base(),
            final(self).spec_bus_master_enabled() == old(self).spec_bus_master_enabled(),
            final(self).spec__reserved_3() == old(self).spec__reserved_3(),
            final(self).spec__reserved_4() == old(self).spec__reserved_4(),
            final(self).spec__reserved_5() == old(self).spec__reserved_5(),
    {
        self.io6064_decoding_enabled = if value { 1 } else { 0 };
    }

    pub fn irq_mask(&self) -> (r: Result<u32>)
        ensures
            r == Ok::<u32, Error>(self.spec_irq_mask()),
    {
        Ok(self.irq_mask)
    }

    pub fn set_irq_mask(&mut self, value: u32)
        ensures
            final(self).spec_irq_mask() == value,
            final(self).spec_espi_enabled() == old(self).spec_espi_enabled(),
            final(self).spec_data_bus_select() == old(self).spec_data_bus_select(),
            final(self).spec_clock_pin_select() == old(self).spec_clock_pin_select(),
            final(self).spec_cs_pin_select() == old(self).spec_cs_pin_select(),
            final(self).spec_clock_frequency() == old(self).spec_clock_frequency(),
            final(self).spec_io_mode() == old(self).spec_io_mode(),
            final(self).spec_alert_mode() == old(self).spec_alert_mode(),
            final(self).spec_pltrst_deassert() == old(self).spec_pltrst_deassert(),
            final(self).spec_io80_decoding_enabled() == old(self).spec_io80_decoding_enabled(),
            final(self).spec_io6064_decoding_enabled() == old(self).spec_io6064_decoding_enabled(),
            final(self).spec_io_range_sizes_minus_one() == old(self).spec_io_range_sizes_minus_one(),
            final(self).spec_io_range_bases() == old(self).spec_io_range_bases(),
            final(self).spec_mmio_range_sizes_minus_one() == old(self).spec_mmio_range_sizes_minus_one(),
            final(self).spec_mmio_range_bases() == old(self).spec_mmio_range_bases(),
            final(self).spec_irq_polarity() == old(self).spec_irq_polarity(),
            final(self).spec_cputemp_rtctime_vw_enabled() == old(self).spec_cputemp_rtctime_vw_enabled(),
            final(self).spec_cputemp_rtctime_vw_index_select() == old(self).spec_cputemp_rtctime_vw_index_select(),
            final(self).spec__reserved_1() == old(self).spec__reserved_1(),
            final(self).spec__reserved_2() == old(self).spec__reserved_2(),
            final(self).spec_cpu_temp_mmio_base() == old(self).spec_cpu_temp_mmio_base(),
            final(self).spec_rtc_time_mmio_base() == old(self).spec_rtc_time_mmio_base(),
            final(self).spec_bus_master_enabled() == old(self).spec_bus_master_enabled(),
            final(self).spec__reserved_3() == old(self).spec__reserved_3(),
            final(self).spec__reserved_4() == old(self).spec__reserved_4(),
            final(self).spec__reserved_5() == old(self).spec__reserved_5(),
    {
        self.irq_mask = value;
    }

    pub fn irq_polarity(&self) -> (r: Result<u32>)
        ensures
            r == Ok::<u32, Error>(self.spec_irq_polarity()),
    {
        Ok(self.irq_polarity)
    }

    pub fn set_irq_polarity(&mut self, value: u32)
        ensures
            final(self).spec_irq_polarity() == value,
            final(self).spec_espi_enabled() == old(self).spec_espi_enabled(),
            final(self).spec_data_bus_select() == old(self).spec_data_bus_select(),
            final(self).spec_clock_pin_select() == old(self).spec_clock_pin_select(),
            final(self).spec_cs_pin_select() == old(self).spec_cs_pin_select(),
            final(self).spec_clock_frequency() == old(self).spec_clock_frequency(),
            final(self).spec_io_mode() == old(self).spec_io_mode(),
            final(self).spec_alert_mode() == old(self).spec_alert_mode(),
            final(self).spec_pltrst_deassert() == old(self).spec_pltrst_deassert(),
            final(self).spec_io80_decoding_enabled() == old(self).spec_io80_decoding_enabled(),
            final(self).spec_io6064_decoding_enabled() == old(self).spec_io6064_decoding_enabled(),
            final(self).spec_io_range_sizes_minus_one() == old(self).spec_io_range_sizes_minus_one(),
            final(self).spec_io_range_bases() == old(self).spec_io_range_bases(),
            final(self).spec_mmio_range_sizes_minus_one() == old(self).spec_mmio_range_sizes_minus_one(),
            final(self).spec_mmio_range_bases() == old(self).spec_mmio_range_bases(),
            final(self).spec_irq_mask() == old(self).spec_irq_mask(),
            final(self).spec_cputemp_rtctime_vw_enabled() == old(self).spec_cputemp_rtctime_vw_enabled(),
            final(self).spec_cputemp_rtctime_vw_index_select() == old(self).spec_cputemp_rtctime_vw_index_select(),
            final(self).spec__reserved_1() == old(self).spec__reserved_1(),
            final(self).spec__reserved_2() == old(self).spec__reserved_2(),
            final(self).spec_cpu_temp_mmio_base() == old(self).spec_cpu_temp_mmio_base(),
            final(self).spec_rtc_time_mmio_base() == old(self).spec_rtc_time_mmio_base(),
            final(self).spec_bus_master_enabled() == old(self).spec_bus_master_enabled(),
            final(self).spec__reserved_3() == old(self).spec__reserved_3(),
            final(self).spec__reserved_4() == old(self).spec__reserved_4(),
            final(self).spec__reserved_5() == old(self).spec__reserved_5(),
    {
        self.irq_polarity = value;
    }

    pub fn cputemp_rtctime_vw_enabled(&self) -> (r: Result<bool>)
        ensures
            r == spec_bool_result_of_raw(self.spec_cputemp_rtctime_vw_enabled() as int),
    {
        match self.cputemp_rtctime_vw_enabled {
            0 => Ok(false),
            1 => Ok(true),
            _ => Err(Error::EntryTypeMismatch),
        }
    }

    pub fn set_cputemp_rtctime_vw_enabled(&mut self, value: bool)
        ensures
            final(self).spec_cputemp_rtctime_vw_enabled() == spec_raw_of_bool(value) as u8,
            final(self).spec_espi_enabled() == old(self).spec_espi_enabled(),
            final(self).spec_data_bus_select() == old(self).spec_data_bus_select(),
            final(self).spec_clock_pin_select() == old(self).spec_clock_pin_select(),
            final(self).spec_cs_pin_select() == old(self).spec_cs_pin_select(),
            final(self).spec_clock_frequency() == old(self).spec_clock_frequency(),
            final(self).spec_io_mode() == old(self).spec_io_mode(),
            final(self).spec_alert_mode() == old(self).spec_alert_mode(),
            final(self).spec_pltrst_deassert() == old(self).spec_pltrst_deassert(),
            final(self).spec_io80_decoding_enabled() == old(self).spec_io80_decoding_enabled(),
            final(self).spec_io6064_decoding_enabled() == old(self).spec_io6064_decoding_enabled(),
            final(self).spec_io_range_sizes_minus_one() == old(self).spec_io_range_sizes_minus_one(),
            final(self).spec_io_range_bases() == old(self).spec_io_range_bases(),
            final(self).spec_mmio_range_sizes_minus_one() == old(self).spec_mmio_range_sizes_minus_one(),
            final(self).spec_mmio_range_bases() == old(self).spec_mmio_range_bases(),
            final(self).spec_irq_mask() == old(self).spec_irq_mask(),
            final(self).spec_irq_polarity() == old(self).spec_irq_polarity(),
            final(self).spec_cputemp_rtctime_vw_index_select() == old(self).spec_cputemp_rtctime_vw_index_select(),
            final(self).spec__reserved_1() == old(self).spec__reserved_1(),
            final(self).spec__reserved_2() == old(self).spec__reserved_2(),
            final(self).spec_cpu_temp_mmio_base() == old(self).spec_cpu_temp_mmio_base(),
            final(self).spec_rtc_time_mmio_base() == old(self).spec_rtc_time_mmio_base(),
            final(self).spec_bus_master_enabled() == old(self).spec_bus_master_enabled(),
            final(self).spec__reserved_3() == old(self).spec__reserved_3(),
            final(self).spec__reserved_4() == old(self).spec__reserved_4(),
            final(self).spec__reserved_5() == old(self).spec__reserved_5(),
    {
        self.cputemp_rtctime_vw_enabled = if value { 1 } else { 0 };
    }

    pub fn cputemp_rtctime_vw_index_select(&self) -> (r: Result<u8>)
        ensures
            r == Ok::<u8, Error>(self.spec_cputemp_rtctime_vw_index_select()),
    {
        Ok(self.cputemp_rtctime_vw_index_select)
    }

    pub fn set_cputemp_rtctime_vw_index_select(&mut self, value: u8)
        ensures
            final(self).spec_cputemp_rtctime_vw_index_select() == value,
            final(self).spec_espi_enabled() == old(self).spec_espi_enabled(),
            final(self).spec_data_bus_select() == old(self).spec_data_bus_select(),
            final(self).spec_clock_pin_select() == old(self).spec_clock_pin_select(),
            final(self).spec_cs_pin_select() == old(self).spec_cs_pin_select(),
            final(self).spec_clock_frequency() == old(self).spec_clock_frequency(),
            final(self).spec_io_mode() == old(self).spec_io_mode(),
            final(self).spec_alert_mode() == old(self).spec_alert_mode(),
            final(self).spec_pltrst_deassert() == old(self).spec_pltrst_deassert(),
            final(self).spec_io80_decoding_enabled() == old(self).spec_io80_decoding_enabled(),
            final(self).spec_io6064_decoding_enabled() == old(self).spec_io6064_decoding_enabled(),
            final(self).spec_io_range_sizes_minus_one() == old(self).spec_io_range_sizes_minus_one(),
            final(self).spec_io_range_bases() == old(self).spec_io_range_bases(),
            final(self).spec_mmio_range_sizes_minus_one() == old(self).spec_mmio_range_sizes_minus_one(),
            final(self).spec_mmio_range_bases() == old(self).spec_mmio_range_bases(),
            final(self).spec_irq_mask() == old(self).spec_irq_mask(),
            final(self).spec_irq_polarity() == old(self).spec_irq_polarity(),
            final(self).spec_cputemp_rtctime_vw_enabled() == old(self).spec_cputemp_rtctime_vw_enabled(),
            final(self).spec__reserved_1() == old(self).spec__reserved_1(),
            final(self).spec__reserved_2() == old(self).spec__reserved_2(),
            final(self).spec_cpu_temp_mmio_base() == old(self).spec_cpu_temp_mmio_base(),
            final(self).spec_rtc_time_mmio_base() == old(self).spec_rtc_time_mmio_base(),
            final(self).spec_bus_master_enabled() == old(self).spec_bus_master_enabled(),
            final(self).spec__reserved_3() == old(self).spec__reserved_3(),
            final(self).spec__reserved_4() == old(self).spec__reserved_4(),
            final(self).spec__reserved_5() == old(self).spec__reserved_5(),
    {
        self.cputemp_rtctime_vw_index_select = value;
    }

    pub fn bus_master_enabled(&self) -> (r: Result<bool>)
        ensures
            r == spec_bool_result_of_raw(self.spec_bus_master_enabled() as int),
    {
        match self.bus_master_enabled {
            0 => Ok(false),
            1 => Ok(true),
            _ => Err(Error::EntryTypeMismatch),
        }
    }

    pub fn set_bus_master_enabled(&mut self, value: bool)
        ensures
            final(self).spec_bus_master_enabled() == spec_raw_of_bool(value) as u8,
            final(self).spec_espi_enabled() == old(self).spec_espi_enabled(),
            final(self).spec_data_bus_select() == old(self).spec_data_bus_select(),
            final(self).spec_clock_pin_select() == old(self).spec_clock_pin_select(),
            final(self).spec_cs_pin_select() == old(self).spec_cs_pin_select(),
            final(self).spec_clock_frequency() == old(self).spec_clock_frequency(),
            final(self).spec_io_mode() == old(self).spec_io_mode(),
            final(self).spec_alert_mode() == old(self).spec_alert_mode(),
            final(self).spec_pltrst_deassert() == old(self).spec_pltrst_deassert(),
            final(self).spec_io80_decoding_enabled() == old(self).spec_io80_decoding_enabled(),
            final(self).spec_io6064_decoding_enabled() == old(self).spec_io6064_decoding_enabled(),
            final(self).spec_io_range_sizes_minus_one() == old(self).spec_io_range_sizes_minus_one(),
            final(self).spec_io_range_bases() == old(self).spec_io_range_bases(),
            final(self).spec_mmio_range_sizes_minus_one() == old(self).spec_mmio_range_sizes_minus_one(),
            final(self).spec_mmio_range_bases() == old(self).spec_mmio_range_bases(),
            final(self).spec_irq_mask() == old(self).spec_irq_mask(),
            final(self).spec_irq_polarity() == old(self).spec_irq_polarity(),
            final(self).spec_cputemp_rtctime_vw_enabled() == old(self).spec_cputemp_rtctime_vw_enabled(),
            final(self).spec_cputemp_rtctime_vw_index_select() == old(self).spec_cputemp_rtctime_vw_index_select(),
            final(self).spec__reserved_1() == old(self).spec__reserved_1(),
            final(self).spec__reserved_2() == old(self).spec__reserved_2(),
            final(self).spec_cpu_temp_mmio_base() == old(self).spec_cpu_temp_mmio_base(),
            final(self).spec_rtc_time_mmio_base() == old(self).spec_rtc_time_mmio_base(),
            final(self).spec__reserved_3() == old(self).spec__reserved_3(),
            final(self).spec__reserved_4() == old(self).spec__reserved_4(),
            final(self).spec__reserved_5() == old(self).spec__reserved_5(),
    {
        self.bus_master_enabled = if value { 1 } else { 0 };
    }

}

impl EspiInit {
    /// The bytes that store this value on disk.
    pub closed spec fn spec_bytes(self) -> Seq<u8> {
        seq![self.espi_enabled]
            + seq![self.data_bus_select]
            + seq![self.clock_pin_select]
            + seq![self.cs_pin_select]
            + seq![self.clock_frequency]
            + seq![self.io_mode]
            + seq![self.alert_mode]
            + seq![self.pltrst_deassert]
            + seq![self.io80_decoding_enabled]
            + seq![self.io6064_decoding_enabled]
            + self.io_range_sizes_minus_one@
            + spec_u16_to_le_bytes(self.io_range_bases[0]) + spec_u16_to_le_bytes(self.io_range_bases[1]) + spec_u16_to_le_bytes(self.io_range_bases[2]) + spec_u16_to_le_bytes(self.io_range_bases[3]) + spec_u16_to_le_bytes(self.io_range_bases[4]) + spec_u16_to_le_bytes(self.io_range_bases[5]) + spec_u16_to_le_bytes(self.io_range_bases[6]) + spec_u16_to_le_bytes(self.io_range_bases[7]) + spec_u16_to_le_bytes(self.io_range_bases[8]) + spec_u16_to_le_bytes(self.io_range_bases[9]) + spec_u16_to_le_bytes(self.io_range_bases[10]) + spec_u16_to_le_bytes(self.io_range_bases[11]) + spec_u16_to_le_bytes(self.io_range_bases[12]) + spec_u16_to_le_bytes(self.io_range_bases[13]) + spec_u16_to_le_bytes(self.io_range_bases[14]) + spec_u16_to_le_bytes(self.io_range_bases[15])
            + spec_u16_to_le_bytes(self.mmio_range_sizes_minus_one[0]) + spec_u16_to_le_bytes(self.mmio_range_sizes_minus_one[1]) + spec_u16_to_le_bytes(self.mmio_range_sizes_minus_one[2]) + spec_u16_to_le_bytes(self.mmio_range_sizes_minus_one[3]) + spec_u16_to_le_bytes(self.mmio_range_sizes_minus_one[4])
            + spec_u32_to_le_bytes(self.mmio_range_bases[0]) + spec_u32_to_le_bytes(self.mmio_range_bases[1]) + spec_u32_to_le_bytes(self.mmio_range_bases[2]) + spec_u32_to_le_bytes(self.mmio_range_bases[3]) + spec_u32_to_le_bytes(self.mmio_range_bases[4])
            + spec_u32_to_le_bytes(self.irq_mask)
            + spec_u32_to_le_bytes(self.irq_polarity)
            + seq![self.cputemp_rtctime_vw_enabled]
            + seq![self.cputemp_rtctime_vw_index_select]
            + seq![self._reserved_1]
            + seq![self._reserved_2]
            + spec_u32_to_le_bytes(self.cpu_temp_mmio_base)
            + spec_u32_to_le_bytes(self.rtc_time_mmio_base)
            + seq![self.bus_master_enabled]
            + seq![self._reserved_3]
            + seq![self._reserved_4]
            + seq![self._reserved_5]
    }
}

impl ByteLayout for EspiInit {
    open spec fn spec_size() -> nat {
        112
    }

    open spec fn spec_to_bytes(self) -> Seq<u8> {
        self.spec_bytes()
    }

    fn size() -> (r: usize) {
        112
    }

    #[verifier::spinoff_prover]
    #[verifier::rlimit(60)]
    fn from_bytes(bytes: &[u8]) -> (r: Self) {
        let espi_enabled: u8 = bytes[0];
        let data_bus_select: u8 = bytes[1];
        let clock_pin_select: u8 = bytes[2];
        let cs_pin_select: u8 = bytes[3];
        let clock_frequency: u8 = bytes[4];
        let io_mode: u8 = bytes[5];
        let alert_mode: u8 = bytes[6];
        let pltrst_deassert: u8 = bytes[7];
        let io80_decoding_enabled: u8 = bytes[8];
        let io6064_decoding_enabled: u8 = bytes[9];
        let io_range_sizes_minus_one: [u8; 16] = [bytes[10], bytes[11], bytes[12], bytes[13], bytes[14], bytes[15], bytes[16], bytes[17], bytes[18], bytes[19], bytes[20], bytes[21], bytes[22], bytes[23], bytes[24], bytes[25]];
        let io_range_bases: [u16; 16] = [u16_from_le_bytes(slice_subrange(bytes, 26, 28)), u16_from_le_bytes(slice_subrange(bytes, 28, 30)), u16_from_le_bytes(slice_subrange(bytes, 30, 32)), u16_from_le_bytes(slice_subrange(bytes, 32, 34)), u16_from_le_bytes(slice_subrange(bytes, 34, 36)), u16_from_le_bytes(slice_subrange(bytes, 36, 38)), u16_from_le_bytes(slice_subrange(bytes, 38, 40)), u16_from_le_bytes(slice_subrange(bytes, 40, 42)), u16_from_le_bytes(slice_subrange(bytes, 42, 44)), u16_from_le_bytes(slice_subrange(bytes, 44, 46)), u16_from_le_bytes(slice_subrange(bytes, 46, 48)), u16_from_le_bytes(slice_subrange(bytes, 48, 50)), u16_from_le_bytes(slice_subrange(bytes, 50, 52)), u16_from_le_bytes(slice_subrange(bytes, 52, 54)), u16_from_le_bytes(slice_subrange(bytes, 54, 56)), u16_from_le_bytes(slice_subrange(bytes, 56, 58))];
        let mmio_range_sizes_minus_one: [u16; 5] = [u16_from_le_bytes(slice_subrange(bytes, 58, 60)), u16_from_le_bytes(slice_subrange(bytes, 60, 62)), u16_from_le_bytes(slice_subrange(bytes, 62, 64)), u16_from_le_bytes(slice_subrange(bytes, 64, 66)), u16_from_le_bytes(slice_subrange(bytes, 66, 68))];
        let mmio_range_bases: [u32; 5] = [u32_from_le_bytes(slice_subrange(bytes, 68, 72)), u32_from_le_bytes(slice_subrange(bytes, 72, 76)), u32_from_le_bytes(slice_subrange(bytes, 76, 80)), u32_from_le_bytes(slice_subrange(bytes, 80, 84)), u32_from_le_bytes(slice_subrange(bytes, 84, 88))];
        let irq_mask: u32 = u32_from_le_bytes(slice_subrange(bytes, 88, 92));
        let irq_polarity: u32 = u32_from_le_bytes(slice_subrange(bytes, 92, 96));
        let cputemp_rtctime_vw_enabled: u8 = bytes[96];
        let cputemp_rtctime_vw_index_select: u8 = bytes[97];
        let _reserved_1: u8 = bytes[98];
        let _reserved_2: u8 = bytes[99];
        let cpu_temp_mmio_base: u32 = u32_from_le_bytes(slice_subrange(bytes, 100, 104));
        let rtc_time_mmio_base: u32 = u32_from_le_bytes(slice_subrange(bytes, 104, 108));
        let bus_master_enabled: u8 = bytes[108];
        let _reserved_3: u8 = bytes[109];
        let _reserved_4: u8 = bytes[110];
        let _reserved_5: u8 = bytes[111];
        let r = EspiInit { espi_enabled, data_bus_select, clock_pin_select, cs_pin_select, clock_frequency, io_mode, alert_mode, pltrst_deassert, io80_decoding_enabled, io6064_decoding_enabled, io_range_sizes_minus_one, io_range_bases, mmio_range_sizes_minus_one, mmio_range_bases, irq_mask, irq_polarity, cputemp_rtctime_vw_enabled, cputemp_rtctime_vw_index_select, _reserved_1, _reserved_2, cpu_temp_mmio_base, rtc_time_mmio_base, bus_master_enabled, _reserved_3, _reserved_4, _reserved_5 };
        proof {
            lemma_auto_spec_u16_to_from_le_bytes();
            lemma_auto_spec_u32_to_from_le_bytes();
            lemma_auto_spec_u64_to_from_le_bytes();
            lemma_espi_init_bytes_pieces(r);
            assert(bytes@.subrange(10, 26) =~= io_range_sizes_minus_one@);
            assert(bytes@.subrange(26, 28) == spec_u16_to_le_bytes(io_range_bases[0]));
            assert(bytes@.subrange(28, 30) == spec_u16_to_le_bytes(io_range_bases[1]));
            assert(bytes@.subrange(30, 32) == spec_u16_to_le_bytes(io_range_bases[2]));
            assert(bytes@.subrange(32, 34) == spec_u16_to_le_bytes(io_range_bases[3]));
            assert(bytes@.subrange(34, 36) == spec_u16_to_le_bytes(io_range_bases[4]));
            assert(bytes@.subrange(36, 38) == spec_u16_to_le_bytes(io_range_bases[5]));
            assert(bytes@.subrange(38, 40) == spec_u16_to_le_bytes(io_range_bases[6]));
            assert(bytes@.subrange(40, 42) == spec_u16_to_le_bytes(io_range_bases[7]));
            assert(bytes@.subrange(42, 44) == spec_u16_to_le_bytes(io_range_bases[8]));
            assert(bytes@.subrange(44, 46) == spec_u16_to_le_bytes(io_range_bases[9]));
            assert(bytes@.subrange(46, 48) == spec_u16_to_le_bytes(io_range_bases[10]));
            assert(bytes@.subrange(48, 50) == spec_u16_to_le_bytes(io_range_bases[11]));
            assert(bytes@.subrange(50, 52) == spec_u16_to_le_bytes(io_range_bases[12]));
            assert(bytes@.subrange(52, 54) == spec_u16_to_le_bytes(io_range_bases[13]));
            assert(bytes@.subrange(54, 56) == spec_u16_to_le_bytes(io_range_bases[14]));
            assert(bytes@.subrange(56, 58) == spec_u16_to_le_bytes(io_range_bases[15]));
            assert(bytes@.subrange(58, 60) == spec_u16_to_le_bytes(mmio_range_sizes_minus_one[0]));
            assert(bytes@.subrange(60, 62) == spec_u16_to_le_bytes(mmio_range_sizes_minus_one[1]));
            assert(bytes@.subrange(62, 64) == spec_u16_to_le_bytes(mmio_range_sizes_minus_one[2]));
            assert(bytes@.subrange(64, 66) == spec_u16_to_le_bytes(mmio_range_sizes_minus_one[3]));
            assert(bytes@.subrange(66, 68) == spec_u16_to_le_bytes(mmio_range_sizes_minus_one[4]));
            assert(bytes@.subrange(68, 72) == spec_u32_to_le_bytes(mmio_range_bases[0]));
            assert(bytes@.subrange(72, 76) == spec_u32_to_le_bytes(mmio_range_bases[1]));
            assert(bytes@.subrange(76, 80) == spec_u32_to_le_bytes(mmio_range_bases[2]));
            assert(bytes@.subrange(80, 84) == spec_u32_to_le_bytes(mmio_range_bases[3]));
            assert(bytes@.subrange(84, 88) == spec_u32_to_le_bytes(mmio_range_bases[4]));
            assert(bytes@.subrange(88, 92) == spec_u32_to_le_bytes(irq_mask));
            assert(bytes@.subrange(92, 96) == spec_u32_to_le_bytes(irq_polarity));
            assert(bytes@.subrange(100, 104) == spec_u32_to_le_bytes(cpu_temp_mmio_base));
            assert(bytes@.subrange(104, 108) == spec_u32_to_le_bytes(rtc_time_mmio_base));
            assert(bytes@.subrange(0, 2) =~= bytes@.subrange(0, 1) + bytes@.subrange(1, 2));
            assert(bytes@.subrange(0, 3) =~= bytes@.subrange(0, 2) + bytes@.subrange(2, 3));
            assert(bytes@.subrange(0, 4) =~= bytes@.subrange(0, 3) + bytes@.subrange(3, 4));
            assert(bytes@.subrange(0, 5) =~= bytes@.subrange(0, 4) + bytes@.subrange(4, 5));
            assert(bytes@.subrange(0, 6) =~= bytes@.subrange(0, 5) + bytes@.subrange(5, 6));
            assert(bytes@.subrange(0, 7) =~= bytes@.subrange(0, 6) + bytes@.subrange(6, 7));
            assert(bytes@.subrange(0, 8) =~= bytes@.subrange(0, 7) + bytes@.subrange(7, 8));
            assert(bytes@.subrange(0, 9) =~= bytes@.subrange(0, 8) + bytes@.subrange(8, 9));
            assert(bytes@.subrange(0, 10) =~= bytes@.subrange(0, 9) + bytes@.subrange(9, 10));
            assert(bytes@.subrange(0, 26) =~= bytes@.subrange(0, 10) + bytes@.subrange(10, 26));
            assert(bytes@.subrange(0, 58) =~= bytes@.subrange(0, 26) + bytes@.subrange(26, 58));
            assert(bytes@.subrange(0, 68) =~= bytes@.subrange(0, 58) + bytes@.subrange(58, 68));
            assert(bytes@.subrange(0, 88) =~= bytes@.subrange(0, 68) + bytes@.subrange(68, 88));
            assert(bytes@.subrange(0, 92) =~= bytes@.subrange(0, 88) + bytes@.subrange(88, 92));
            assert(bytes@.subrange(0, 96) =~= bytes@.subrange(0, 92) + bytes@.subrange(92, 96));
            assert(bytes@.subrange(0, 97) =~= bytes@.subrange(0, 96) + bytes@.subrange(96, 97));
            assert(bytes@.subrange(0, 98) =~= bytes@.subrange(0, 97) + bytes@.subrange(97, 98));
            assert(bytes@.subrange(0, 99) =~= bytes@.subrange(0, 98) + bytes@.subrange(98, 99));
            assert(bytes@.subrange(0, 100) =~= bytes@.subrange(0, 99) + bytes@.subrange(99, 100));
            assert(bytes@.subrange(0, 104) =~= bytes@.subrange(0, 100) + bytes@.subrange(100, 104));
            assert(bytes@.subrange(0, 108) =~= bytes@.subrange(0, 104) + bytes@.subrange(104, 108));
            assert(bytes@.subrange(0, 109) =~= bytes@.subrange(0, 108) + bytes@.subrange(108, 109));
            assert(bytes@.subrange(0, 110) =~= bytes@.subrange(0, 109) + bytes@.subrange(109, 110));
            assert(bytes@.subrange(0, 111) =~= bytes@.subrange(0, 110) + bytes@.subrange(110, 111));
            assert(bytes@.subrange(0, 112) =~= bytes@.subrange(0, 111) + bytes@.subrange(111, 112));
            assert(bytes@.subrange(0, 112) =~= bytes@);
            assert(bytes@ == r.spec_bytes());
        }
        r
    }

    #[verifier::spinoff_prover]
    #[verifier::rlimit(60)]
    fn to_bytes(&self) -> (r: Vec<u8>) {
        let mut out: Vec<u8> = Vec::new();
        out.push(self.espi_enabled);
        out.push(self.data_bus_select);
        out.push(self.clock_pin_select);
        out.push(self.cs_pin_select);
        out.push(self.clock_frequency);
        out.push(self.io_mode);
        out.push(self.alert_mode);
        out.push(self.pltrst_deassert);
        out.push(self.io80_decoding_enabled);
        out.push(self.io6064_decoding_enabled);
        append_bytes(&mut out, &self.io_range_sizes_minus_one);
        append_bytes(&mut out, &le_bytes_u16(self.io_range_bases[0]));
        append_bytes(&mut out, &le_bytes_u16(self.io_range_bases[1]));
        append_bytes(&mut out, &le_bytes_u16(self.io_range_bases[2]));
        append_bytes(&mut out, &le_bytes_u16(self.io_range_bases[3]));
        append_bytes(&mut out, &le_bytes_u16(self.io_range_bases[4]));
        append_bytes(&mut out, &le_bytes_u16(self.io_range_bases[5]));
        append_bytes(&mut out, &le_bytes_u16(self.io_range_bases[6]));
        append_bytes(&mut out, &le_bytes_u16(self.io_range_bases[7]));
        append_bytes(&mut out, &le_bytes_u16(self.io_range_bases[8]));
        append_bytes(&mut out, &le_bytes_u16(self.io_range_bases[9]));
        append_bytes(&mut out, &le_bytes_u16(self.io_range_bases[10]));
        append_bytes(&mut out, &le_bytes_u16(self.io_range_bases[11]));
        append_bytes(&mut out, &le_bytes_u16(self.io_range_bases[12]));
        append_bytes(&mut out, &le_bytes_u16(self.io_range_bases[13]));
        append_bytes(&mut out, &le_bytes_u16(self.io_range_bases[14]));
        append_bytes(&mut out, &le_bytes_u16(self.io_range_bases[15]));
        append_bytes(&mut out, &le_bytes_u16(self.mmio_range_sizes_minus_one[0]));
        append_bytes(&mut out, &le_bytes_u16(self.mmio_range_sizes_minus_one[1]));
        append_bytes(&mut out, &le_bytes_u16(self.mmio_range_sizes_minus_one[2]));
        append_bytes(&mut out, &le_bytes_u16(self.mmio_range_sizes_minus_one[3]));
        append_bytes(&mut out, &le_bytes_u16(self.mmio_range_sizes_minus_one[4]));
        append_bytes(&mut out, &le_bytes_u32(self.mmio_range_bases[0]));
        append_bytes(&mut out, &le_bytes_u32(self.mmio_range_bases[1]));
        append_bytes(&mut out, &le_bytes_u32(self.mmio_range_bases[2]));
        append_bytes(&mut out, &le_bytes_u32(self.mmio_range_bases[3]));
        append_bytes(&mut out, &le_bytes_u32(self.mmio_range_bases[4]));
        append_bytes(&mut out, &le_bytes_u32(self.irq_mask));
        append_bytes(&mut out, &le_bytes_u32(self.irq_polarity));
        out.push(self.cputemp_rtctime_vw_enabled);
        out.push(self.cputemp_rtctime_vw_index_select);
        out.push(self._reserved_1);
        out.push(self._reserved_2);
        append_bytes(&mut out, &le_bytes_u32(self.cpu_temp_mmio_base));
        append_bytes(&mut out, &le_bytes_u32(self.rtc_time_mmio_base));
        out.push(self.bus_master_enabled);
        out.push(self._reserved_3);
        out.push(self._reserved_4);
        out.push(self._reserved_5);
        proof {
            lemma_espi_init_bytes_pieces(*self);
        }
        out
    }
}

/// How the bytes of a EspiInit split up into its fields.
pub proof fn lemma_espi_init_bytes_pieces(x: EspiInit)
    ensures
        x.spec_bytes().len() == 112,
        x.spec_bytes()[0] == x.spec_espi_enabled(),
        x.spec_bytes()[1] == x.spec_data_bus_select(),
        x.spec_bytes()[2] == x.spec_clock_pin_select(),
        x.spec_bytes()[3] == x.spec_cs_pin_select(),
        x.spec_bytes()[4] == x.spec_clock_frequency(),
        x.spec_bytes()[5] == x.spec_io_mode(),
        x.spec_bytes()[6] == x.spec_alert_mode(),
        x.spec_bytes()[7] == x.spec_pltrst_deassert(),
        x.spec_bytes()[8] == x.spec_io80_decoding_enabled(),
        x.spec_bytes()[9] == x.spec_io6064_decoding_enabled(),
        x.spec_bytes().subrange(10, 26) == x.spec_io_range_sizes_minus_one()@,
        x.spec_bytes().subrange(26, 58) == spec_u16_to_le_bytes(x.spec_io_range_bases()[0]) + spec_u16_to_le_bytes(x.spec_io_range_bases()[1]) + spec_u16_to_le_bytes(x.spec_io_range_bases()[2]) + spec_u16_to_le_bytes(x.spec_io_range_bases()[3]) + spec_u16_to_le_bytes(x.spec_io_range_bases()[4]) + spec_u16_to_le_bytes(x.spec_io_range_bases()[5]) + spec_u16_to_le_bytes(x.spec_io_range_bases()[6]) + spec_u16_to_le_bytes(x.spec_io_range_bases()[7]) + spec_u16_to_le_bytes(x.spec_io_range_bases()[8]) + spec_u16_to_le_bytes(x.spec_io_range_bases()[9]) + spec_u16_to_le_bytes(x.spec_io_range_bases()[10]) + spec_u16_to_le_bytes(x.spec_io_range_bases()[11]) + spec_u16_to_le_bytes(x.spec_io_range_bases()[12]) + spec_u16_to_le_bytes(x.spec_io_range_bases()[13]) + spec_u16_to_le_bytes(x.spec_io_range_bases()[14]) + spec_u16_to_le_bytes(x.spec_io_range_bases()[15]),
        x.spec_bytes().subrange(58, 68) == spec_u16_to_le_bytes(x.spec_mmio_range_sizes_minus_one()[0]) + spec_u16_to_le_bytes(x.spec_mmio_range_sizes_minus_one()[1]) + spec_u16_to_le_bytes(x.spec_mmio_range_sizes_minus_one()[2]) + spec_u16_to_le_bytes(x.spec_mmio_range_sizes_minus_one()[3]) + spec_u16_to_le_bytes(x.spec_mmio_range_sizes_minus_one()[4]),
        x.spec_bytes().subrange(68, 88) == spec_u32_to_le_bytes(x.spec_mmio_range_bases()[0]) + spec_u32_to_le_bytes(x.spec_mmio_range_bases()[1]) + spec_u32_to_le_bytes(x.spec_mmio_range_bases()[2]) + spec_u32_to_le_bytes(x.spec_mmio_range_bases()[3]) + spec_u32_to_le_bytes(x.spec_mmio_range_bases()[4]),
        x.spec_bytes().subrange(88, 92) == spec_u32_to_le_bytes(x.spec_irq_mask()),
        x.spec_bytes().subrange(92, 96) == spec_u32_to_le_bytes(x.spec_irq_polarity()),
        x.spec_bytes()[96] == x.spec_cputemp_rtctime_vw_enabled(),
        x.spec_bytes()[97] == x.spec_cputemp_rtctime_vw_index_select(),
        x.spec_bytes()[98] == x.spec__reserved_1(),
        x.spec_bytes()[99] == x.spec__reserved_2(),
        x.spec_bytes().subrange(100, 104) == spec_u32_to_le_bytes(x.spec_cpu_temp_mmio_base()),
        x.spec_bytes().subrange(104, 108) == spec_u32_to_le_bytes(x.spec_rtc_time_mmio_base()),
        x.spec_bytes()[108] == x.spec_bus_master_enabled(),
        x.spec_bytes()[109] == x.spec__reserved_3(),
        x.spec_bytes()[110] == x.spec__reserved_4(),
        x.spec_bytes()[111] == x.spec__reserved_5(),
{
    lemma_auto_spec_u16_to_from_le_bytes();
    lemma_auto_spec_u32_to_from_le_bytes();
    lemma_auto_spec_u64_to_from_le_bytes();
    assert(x.spec_bytes().subrange(10, 26) == x.io_range_sizes_minus_one@);
    assert(x.spec_bytes().subrange(26, 58) == spec_u16_to_le_bytes(x.io_range_bases[0]) + spec_u16_to_le_bytes(x.io_range_bases[1]) + spec_u16_to_le_bytes(x.io_range_bases[2]) + spec_u16_to_le_bytes(x.io_range_bases[3]) + spec_u16_to_le_bytes(x.io_range_bases[4]) + spec_u16_to_le_bytes(x.io_range_bases[5]) + spec_u16_to_le_bytes(x.io_range_bases[6]) + spec_u16_to_le_bytes(x.io_range_bases[7]) + spec_u16_to_le_bytes(x.io_range_bases[8]) + spec_u16_to_le_bytes(x.io_range_bases[9]) + spec_u16_to_le_bytes(x.io_range_bases[10]) + spec_u16_to_le_bytes(x.io_range_bases[11]) + spec_u16_to_le_bytes(x.io_range_bases[12]) + spec_u16_to_le_bytes(x.io_range_bases[13]) + spec_u16_to_le_bytes(x.io_range_bases[14]) + spec_u16_to_le_bytes(x.io_range_bases[15]));
    assert(x.spec_bytes().subrange(58, 68) == spec_u16_to_le_bytes(x.mmio_range_sizes_minus_one[0]) + spec_u16_to_le_bytes(x.mmio_range_sizes_minus_one[1]) + spec_u16_to_le_bytes(x.mmio_range_sizes_minus_one[2]) + spec_u16_to_le_bytes(x.mmio_range_sizes_minus_one[3]) + spec_u16_to_le_bytes(x.mmio_range_sizes_minus_one[4]));
    assert(x.spec_bytes().subrange(68, 88) == spec_u32_to_le_bytes(x.mmio_range_bases[0]) + spec_u32_to_le_bytes(x.mmio_range_bases[1]) + spec_u32_to_le_bytes(x.mmio_range_bases[2]) + spec_u32_to_le_bytes(x.mmio_range_bases[3]) + spec_u32_to_le_bytes(x.mmio_range_bases[4]));
    assert(x.spec_bytes().subrange(88, 92) == spec_u32_to_le_bytes(x.irq_mask));
    assert(x.spec_bytes().subrange(92, 96) == spec_u32_to_le_bytes(x.irq_polarity));
    assert(x.spec_bytes().subrange(100, 104) == spec_u32_to_le_bytes(x.cpu_temp_mmio_base));
    assert(x.spec_bytes().subrange(104, 108) == spec_u32_to_le_bytes(x.rtc_time_mmio_base));
}


/// Where the I/O range base at index K (of 16) stands in the bytes of X.
proof fn lemma_espi_init_io_base_bytes(x: EspiInit, k: int)
    requires
        0 <= k < 16,
    ensures
        x.spec_to_bytes()[26 + 2 * k] == spec_u16_to_le_bytes(x.spec_io_range_bases()[k])[0],
        x.spec_to_bytes()[27 + 2 * k] == spec_u16_to_le_bytes(x.spec_io_range_bases()[k])[1],
{
    lemma_espi_init_bytes_pieces(x);
    lemma_auto_spec_u16_to_from_le_bytes();
    let b = x.spec_io_range_bases();
    let c = x.spec_to_bytes().subrange(26, 58);
    assert(x.spec_to_bytes()[26 + 2 * k] == c[2 * k]);
    assert(x.spec_to_bytes()[27 + 2 * k] == c[2 * k + 1]);
    if k == 0 {
        assert(c[0] == spec_u16_to_le_bytes(b[0])[0]);
        assert(c[1] == spec_u16_to_le_bytes(b[0])[1]);
    } else if k == 1 {
        assert(c[2] == spec_u16_to_le_bytes(b[1])[0]);
        assert(c[3] == spec_u16_to_le_bytes(b[1])[1]);
    } else if k == 2 {
        assert(c[4] == spec_u16_to_le_bytes(b[2])[0]);
        assert(c[5] == spec_u16_to_le_bytes(b[2])[1]);
    } else if k == 3 {
        assert(c[6] == spec_u16_to_le_bytes(b[3])[0]);
        assert(c[7] == spec_u16_to_le_bytes(b[3])[1]);
    } else if k == 4 {
        assert(c[8] == spec_u16_to_le_bytes(b[4])[0]);
        assert(c[9] == spec_u16_to_le_bytes(b[4])[1]);
    } else if k == 5 {
        assert(c[10] == spec_u16_to_le_bytes(b[5])[0]);
        assert(c[11] == spec_u16_to_le_bytes(b[5])[1]);
    } else if k == 6 {
        assert(c[12] == spec_u16_to_le_bytes(b[6])[0]);
        assert(c[13] == spec_u16_to_le_bytes(b[6])[1]);
    } else if k == 7 {
        assert(c[14] == spec_u16_to_le_bytes(b[7])[0]);
        assert(c[15] == spec_u16_to_le_bytes(b[7])[1]);
    } else if k == 8 {
        assert(c[16] == spec_u16_to_le_bytes(b[8])[0]);
        assert(c[17] == spec_u16_to_le_bytes(b[8])[1]);
    } else if k == 9 {
        assert(c[18] == spec_u16_to_le_bytes(b[9])[0]);
        assert(c[19] == spec_u16_to_le_bytes(b[9])[1]);
    } else if k == 10 {
        assert(c[20] == spec_u16_to_le_bytes(b[10])[0]);
        assert(c[21] == spec_u16_to_le_bytes(b[10])[1]);
    } else if k == 11 {
        assert(c[22] == spec_u16_to_le_bytes(b[11])[0]);
        assert(c[23] == spec_u16_to_le_bytes(b[11])[1]);
    } else if k == 12 {
        assert(c[24] == spec_u16_to_le_bytes(b[12])[0]);
        assert(c[25] == spec_u16_to_le_bytes(b[12])[1]);
    } else if k == 13 {
        assert(c[26] == spec_u16_to_le_bytes(b[13])[0]);
        assert(c[27] == spec_u16_to_le_bytes(b[13])[1]);
    } else if k == 14 {
        assert(c[28] == spec_u16_to_le_bytes(b[14])[0]);
        assert(c[29] == spec_u16_to_le_bytes(b[14])[1]);
    } else if k == 15 {
        assert(c[30] == spec_u16_to_le_bytes(b[15])[0]);
        assert(c[31] == spec_u16_to_le_bytes(b[15])[1]);
    }
}

/// Setting the I/O range at INDEX changes the bytes of the initialization at most at
/// offsets 10 + INDEX (its size) and 26 + 2 * INDEX, 27 + 2 * INDEX (its base). BEFORE and
/// AFTER are the value before and after `set_io_range`, related as its contract states.
pub proof fn lemma_espi_init_set_io_range_bytes(before: EspiInit, after: EspiInit, index: int, base: u16, size_minus_one: u8)
    requires
        0 <= index < 16,
        after.spec_io_range_bases()@ == before.spec_io_range_bases()@.update(index, base),
        after.spec_io_range_sizes_minus_one()@ == before.spec_io_range_sizes_minus_one()@.update(index, size_minus_one),
        after.spec_mmio_range_bases() == before.spec_mmio_range_bases(),
        after.spec_mmio_range_sizes_minus_one() == before.spec_mmio_range_sizes_minus_one(),
        after.spec_same_settings(before),
    ensures
        after.spec_to_bytes().len() == before.spec_to_bytes().len(),
        forall|j: int|
            0 <= j < before.spec_to_bytes().len() && j != 10 + index && j != 26 + 2 * index && j != 27 + 2 * index
                ==> #[trigger] after.spec_to_bytes()[j] == before.spec_to_bytes()[j],
{
    lemma_espi_init_bytes_pieces(after);
    lemma_espi_init_bytes_pieces(before);
    lemma_auto_spec_u16_to_from_le_bytes();
    lemma_auto_spec_u32_to_from_le_bytes();
    let a = after.spec_to_bytes();
    let b = before.spec_to_bytes();
    assert(a.subrange(58, 88) == b.subrange(58, 88));
    assert(a.subrange(88, 96) =~= a.subrange(88, 92) + a.subrange(92, 96));
    assert(b.subrange(88, 96) =~= b.subrange(88, 92) + b.subrange(92, 96));
    assert(a.subrange(88, 96) == b.subrange(88, 96));
    assert(a.subrange(100, 108) =~= a.subrange(100, 104) + a.subrange(104, 108));
    assert(b.subrange(100, 108) =~= b.subrange(100, 104) + b.subrange(104, 108));
    assert(a.subrange(100, 108) == b.subrange(100, 108));
    assert forall|j: int|
        0 <= j < b.len() && j != 10 + index && j != 26 + 2 * index && j != 27 + 2 * index implies #[trigger] a[j] == b[j] by {
        if j < 10 {
        } else if j < 26 {
            assert(a[j] == a.subrange(10, 26)[j - 10]);
            assert(b[j] == b.subrange(10, 26)[j - 10]);
        } else if j < 58 {
            let k = (j - 26) / 2;
            assert(0 <= k < 16);
            assert(j == 26 + 2 * k || j == 27 + 2 * k);
            assert(k != index);
            assert(after.spec_io_range_bases()@[k] == before.spec_io_range_bases()@[k]);
            lemma_espi_init_io_base_bytes(after, k);
            lemma_espi_init_io_base_bytes(before, k);
        } else if j < 88 {
            assert(a[j] == a.subrange(58, 88)[j - 58]);
            assert(b[j] == b.subrange(58, 88)[j - 58]);
        } else if j < 96 {
            assert(a[j] == a.subrange(88, 96)[j - 88]);
            assert(b[j] == b.subrange(88, 96)[j - 88]);
        } else if j < 100 {
        } else if j < 108 {
            assert(a[j] == a.subrange(100, 108)[j - 100]);
            assert(b[j] == b.subrange(100, 108)[j - 100]);
        } else {
        }
    }
}

/// Two values of EspiInit with the same bytes are the same value.
#[verifier::spinoff_prover]
#[verifier::rlimit(60)]
pub proof fn lemma_espi_init_bytes_injective(x: EspiInit, y: EspiInit)
    requires
        x.spec_bytes() == y.spec_bytes(),
    ensures
        x == y,
{
    lemma_espi_init_bytes_pieces(x);
    lemma_espi_init_bytes_pieces(y);
    lemma_auto_spec_u16_to_from_le_bytes();
    lemma_auto_spec_u32_to_from_le_bytes();
    lemma_auto_spec_u64_to_from_le_bytes();
    assert(x.espi_enabled == y.espi_enabled);
    assert(x.data_bus_select == y.data_bus_select);
    assert(x.clock_pin_select == y.clock_pin_select);
    assert(x.cs_pin_select == y.cs_pin_select);
    assert(x.clock_frequency == y.clock_frequency);
    assert(x.io_mode == y.io_mode);
    assert(x.alert_mode == y.alert_mode);
    assert(x.pltrst_deassert == y.pltrst_deassert);
    assert(x.io80_decoding_enabled == y.io80_decoding_enabled);
    assert(x.io6064_decoding_enabled == y.io6064_decoding_enabled);
    assert(x.io_range_sizes_minus_one@ == x.spec_bytes().subrange(10, 26));
    assert(x.io_range_sizes_minus_one =~= y.io_range_sizes_minus_one);
    assert(x.spec_bytes().subrange(26, 28) == spec_u16_to_le_bytes(x.io_range_bases[0]));
    assert(y.spec_bytes().subrange(26, 28) == spec_u16_to_le_bytes(y.io_range_bases[0]));
    assert(x.io_range_bases[0] == y.io_range_bases[0]);
    assert(x.spec_bytes().subrange(28, 30) == spec_u16_to_le_bytes(x.io_range_bases[1]));
    assert(y.spec_bytes().subrange(28, 30) == spec_u16_to_le_bytes(y.io_range_bases[1]));
    assert(x.io_range_bases[1] == y.io_range_bases[1]);
    assert(x.spec_bytes().subrange(30, 32) == spec_u16_to_le_bytes(x.io_range_bases[2]));
    assert(y.spec_bytes().subrange(30, 32) == spec_u16_to_le_bytes(y.io_range_bases[2]));
    assert(x.io_range_bases[2] == y.io_range_bases[2]);
    assert(x.spec_bytes().subrange(32, 34) == spec_u16_to_le_bytes(x.io_range_bases[3]));
    assert(y.spec_bytes().subrange(32, 34) == spec_u16_to_le_bytes(y.io_range_bases[3]));
    assert(x.io_range_bases[3] == y.io_range_bases[3]);
    assert(x.spec_bytes().subrange(34, 36) == spec_u16_to_le_bytes(x.io_range_bases[4]));
    assert(y.spec_bytes().subrange(34, 36) == spec_u16_to_le_bytes(y.io_range_bases[4]));
    assert(x.io_range_bases[4] == y.io_range_bases[4]);
    assert(x.spec_bytes().subrange(36, 38) == spec_u16_to_le_bytes(x.io_range_bases[5]));
    assert(y.spec_bytes().subrange(36, 38) == spec_u16_to_le_bytes(y.io_range_bases[5]));
    assert(x.io_range_bases[5] == y.io_range_bases[5]);
    assert(x.spec_bytes().subrange(38, 40) == spec_u16_to_le_bytes(x.io_range_bases[6]));
    assert(y.spec_bytes().subrange(38, 40) == spec_u16_to_le_bytes(y.io_range_bases[6]));
    assert(x.io_range_bases[6] == y.io_range_bases[6]);
    assert(x.spec_bytes().subrange(40, 42) == spec_u16_to_le_bytes(x.io_range_bases[7]));
    assert(y.spec_bytes().subrange(40, 42) == spec_u16_to_le_bytes(y.io_range_bases[7]));
    assert(x.io_range_bases[7] == y.io_range_bases[7]);
    assert(x.spec_bytes().subrange(42, 44) == spec_u16_to_le_bytes(x.io_range_bases[8]));
    assert(y.spec_bytes().subrange(42, 44) == spec_u16_to_le_bytes(y.io_range_bases[8]));
    assert(x.io_range_bases[8] == y.io_range_bases[8]);
    assert(x.spec_bytes().subrange(44, 46) == spec_u16_to_le_bytes(x.io_range_bases[9]));
    assert(y.spec_bytes().subrange(44, 46) == spec_u16_to_le_bytes(y.io_range_bases[9]));
    assert(x.io_range_bases[9] == y.io_range_bases[9]);
    assert(x.spec_bytes().subrange(46, 48) == spec_u16_to_le_bytes(x.io_range_bases[10]));
    assert(y.spec_bytes().subrange(46, 48) == spec_u16_to_le_bytes(y.io_range_bases[10]));
    assert(x.io_range_bases[10] == y.io_range_bases[10]);
    assert(x.spec_bytes().subrange(48, 50) == spec_u16_to_le_bytes(x.io_range_bases[11]));
    assert(y.spec_bytes().subrange(48, 50) == spec_u16_to_le_bytes(y.io_range_bases[11]));
    assert(x.io_range_bases[11] == y.io_range_bases[11]);
    assert(x.spec_bytes().subrange(50, 52) == spec_u16_to_le_bytes(x.io_range_bases[12]));
    assert(y.spec_bytes().subrange(50, 52) == spec_u16_to_le_bytes(y.io_range_bases[12]));
    assert(x.io_range_bases[12] == y.io_range_bases[12]);
    assert(x.spec_bytes().subrange(52, 54) == spec_u16_to_le_bytes(x.io_range_bases[13]));
    assert(y.spec_bytes().subrange(52, 54) == spec_u16_to_le_bytes(y.io_range_bases[13]));
    assert(x.io_range_bases[13] == y.io_range_bases[13]);
    assert(x.spec_bytes().subrange(54, 56) == spec_u16_to_le_bytes(x.io_range_bases[14]));
    assert(y.spec_bytes().subrange(54, 56) == spec_u16_to_le_bytes(y.io_range_bases[14]));
    assert(x.io_range_bases[14] == y.io_range_bases[14]);
    assert(x.spec_bytes().subrange(56, 58) == spec_u16_to_le_bytes(x.io_range_bases[15]));
    assert(y.spec_bytes().subrange(56, 58) == spec_u16_to_le_bytes(y.io_range_bases[15]));
    assert(x.io_range_bases[15] == y.io_range_bases[15]);
    assert(x.io_range_bases =~= y.io_range_bases);
    assert(x.spec_bytes().subrange(58, 60) == spec_u16_to_le_bytes(x.mmio_range_sizes_minus_one[0]));
    assert(y.spec_bytes().subrange(58, 60) == spec_u16_to_le_bytes(y.mmio_range_sizes_minus_one[0]));
    assert(x.mmio_range_sizes_minus_one[0] == y.mmio_range_sizes_minus_one[0]);
    assert(x.spec_bytes().subrange(60, 62) == spec_u16_to_le_bytes(x.mmio_range_sizes_minus_one[1]));
    assert(y.spec_bytes().subrange(60, 62) == spec_u16_to_le_bytes(y.mmio_range_sizes_minus_one[1]));
    assert(x.mmio_range_sizes_minus_one[1] == y.mmio_range_sizes_minus_one[1]);
    assert(x.spec_bytes().subrange(62, 64) == spec_u16_to_le_bytes(x.mmio_range_sizes_minus_one[2]));
    assert(y.spec_bytes().subrange(62, 64) == spec_u16_to_le_bytes(y.mmio_range_sizes_minus_one[2]));
    assert(x.mmio_range_sizes_minus_one[2] == y.mmio_range_sizes_minus_one[2]);
    assert(x.spec_bytes().subrange(64, 66) == spec_u16_to_le_bytes(x.mmio_range_sizes_minus_one[3]));
    assert(y.spec_bytes().subrange(64, 66) == spec_u16_to_le_bytes(y.mmio_range_sizes_minus_one[3]));
    assert(x.mmio_range_sizes_minus_one[3] == y.mmio_range_sizes_minus_one[3]);
    assert(x.spec_bytes().subrange(66, 68) == spec_u16_to_le_bytes(x.mmio_range_sizes_minus_one[4]));
    assert(y.spec_bytes().subrange(66, 68) == spec_u16_to_le_bytes(y.mmio_range_sizes_minus_one[4]));
    assert(x.mmio_range_sizes_minus_one[4] == y.mmio_range_sizes_minus_one[4]);
    assert(x.mmio_range_sizes_minus_one =~= y.mmio_range_sizes_minus_one);
    assert(x.spec_bytes().subrange(68, 72) == spec_u32_to_le_bytes(x.mmio_range_bases[0]));
    assert(y.spec_bytes().subrange(68, 72) == spec_u32_to_le_bytes(y.mmio_range_bases[0]));
    assert(x.mmio_range_bases[0] == y.mmio_range_bases[0]);
    assert(x.spec_bytes().subrange(72, 76) == spec_u32_to_le_bytes(x.mmio_range_bases[1]));
    assert(y.spec_bytes().subrange(72, 76) == spec_u32_to_le_bytes(y.mmio_range_bases[1]));
    assert(x.mmio_range_bases[1] == y.mmio_range_bases[1]);
    assert(x.spec_bytes().subrange(76, 80) == spec_u32_to_le_bytes(x.mmio_range_bases[2]));
    assert(y.spec_bytes().subrange(76, 80) == spec_u32_to_le_bytes(y.mmio_range_bases[2]));
    assert(x.mmio_range_bases[2] == y.mmio_range_bases[2]);
    assert(x.spec_bytes().subrange(80, 84) == spec_u32_to_le_bytes(x.mmio_range_bases[3]));
    assert(y.spec_bytes().subrange(80, 84) == spec_u32_to_le_bytes(y.mmio_range_bases[3]));
    assert(x.mmio_range_bases[3] == y.mmio_range_bases[3]);
    assert(x.spec_bytes().subrange(84, 88) == spec_u32_to_le_bytes(x.mmio_range_bases[4]));
    assert(y.spec_bytes().subrange(84, 88) == spec_u32_to_le_bytes(y.mmio_range_bases[4]));
    assert(x.mmio_range_bases[4] == y.mmio_range_bases[4]);
    assert(x.mmio_range_bases =~= y.mmio_range_bases);
    assert(spec_u32_from_le_bytes(spec_u32_to_le_bytes(x.irq_mask)) == spec_u32_from_le_bytes(spec_u32_to_le_bytes(y.irq_mask)));
    assert(spec_u32_from_le_bytes(spec_u32_to_le_bytes(x.irq_polarity)) == spec_u32_from_le_bytes(spec_u32_to_le_bytes(y.irq_polarity)));
    assert(x.cputemp_rtctime_vw_enabled == y.cputemp_rtctime_vw_enabled);
    assert(x.cputemp_rtctime_vw_index_select == y.cputemp_rtctime_vw_index_select);
    assert(x._reserved_1 == y._reserved_1);
    assert(x._reserved_2 == y._reserved_2);
    assert(spec_u32_from_le_bytes(spec_u32_to_le_bytes(x.cpu_temp_mmio_base)) == spec_u32_from_le_bytes(spec_u32_to_le_bytes(y.cpu_temp_mmio_base)));
    assert(spec_u32_from_le_bytes(spec_u32_to_le_bytes(x.rtc_time_mmio_base)) == spec_u32_from_le_bytes(spec_u32_to_le_bytes(y.rtc_time_mmio_base)));
    assert(x.bus_master_enabled == y.bus_master_enabled);
    assert(x._reserved_3 == y._reserved_3);
    assert(x._reserved_4 == y._reserved_4);
    assert(x._reserved_5 == y._reserved_5);
}

impl Default for EspiInit {
    fn default() -> (r: Self)
        ensures
            r.spec_espi_enabled() == 0,
            r.spec_data_bus_select() == 0,
            r.spec_clock_pin_select() == 0,
            r.spec_cs_pin_select() == 0,
            r.spec_clock_frequency() == 0,
            r.spec_io_mode() == 0,
            r.spec_alert_mode() == 0,
            r.spec_pltrst_deassert() == 0,
            r.spec_io80_decoding_enabled() == 0,
            r.spec_io6064_decoding_enabled() == 0,
            r.spec_io_range_sizes_minus_one() == [0u8, 0u8, 0u8, 0u8, 0u8, 0u8, 0u8, 0u8, 0u8, 0u8, 0u8, 0u8, 0u8, 0u8, 0u8, 0u8],
            r.spec_io_range_bases() == [0u16, 0u16, 0u16, 0u16, 0u16, 0u16, 0u16, 0u16, 0u16, 0u16, 0u16, 0u16, 0u16, 0u16, 0u16, 0u16],
            r.spec_mmio_range_sizes_minus_one() == [0u16, 0u16, 0u16, 0u16, 0u16],
            r.spec_mmio_range_bases() == [0u32, 0u32, 0u32, 0u32, 0u32],
            r.spec_irq_mask() == 0,
            r.spec_irq_polarity() == 0,
            r.spec_cputemp_rtctime_vw_enabled() == 0,
            r.spec_cputemp_rtctime_vw_index_select() == 0,
            r.spec__reserved_1() == 0,
            r.spec__reserved_2() == 0,
            r.spec_cpu_temp_mmio_base() == 0,
            r.spec_rtc_time_mmio_base() == 0,
            r.spec_bus_master_enabled() == 0,
            r.spec__reserved_3() == 0,
            r.spec__reserved_4() == 0,
            r.spec__reserved_5() == 0,
    {
        EspiInit { espi_enabled: 0, data_bus_select: 0, clock_pin_select: 0, cs_pin_select: 0, clock_frequency: 0, io_mode: 0, alert_mode: 0, pltrst_deassert: 0, io80_decoding_enabled: 0, io6064_decoding_enabled: 0, io_range_sizes_minus_one: [0; 16], io_range_bases: [0; 16], mmio_range_sizes_minus_one: [0; 5], mmio_range_bases: [0; 5], irq_mask: 0, irq_polarity: 0, cputemp_rtctime_vw_enabled: 0, cputemp_rtctime_vw_index_select: 0, _reserved_1: 0, _reserved_2: 0, cpu_temp_mmio_base: 0, rtc_time_mmio_base: 0, bus_master_enabled: 0, _reserved_3: 0, _reserved_4: 0, _reserved_5: 0 }
    }
}

/// An I/O range of the eSPI initialization.
#[derive(Debug, Clone, Copy, PartialEq, Eq, Structural)]
pub struct EspiInitIoRange {
    pub base: u16,
    /// The real size in bytes.
    pub size: u8,
}

/// An MMIO range of the eSPI initialization.
#[derive(Debug, Clone, Copy, PartialEq, Eq, Structural)]
pub struct EspiInitMmioRange {
    pub base: u32,
    /// The real size in bytes.
    pub size: u16,
}

impl EspiInit {
    /// Whether SELF and OTHER agree in every field but the I/O and MMIO range tables.
    pub open spec fn spec_same_settings(self, other: Self) -> bool {
        &&& self.spec_espi_enabled() == other.spec_espi_enabled()
        &&& self.spec_data_bus_select() == other.spec_data_bus_select()
        &&& self.spec_clock_pin_select() == other.spec_clock_pin_select()
        &&& self.spec_cs_pin_select() == other.spec_cs_pin_select()
        &&& self.spec_clock_frequency() == other.spec_clock_frequency()
        &&& self.spec_io_mode() == other.spec_io_mode()
        &&& self.spec_alert_mode() == other.spec_alert_mode()
        &&& self.spec_pltrst_deassert() == other.spec_pltrst_deassert()
        &&& self.spec_io80_decoding_enabled() == other.spec_io80_decoding_enabled()
        &&& self.spec_io6064_decoding_enabled() == other.spec_io6064_decoding_enabled()
        &&& self.spec_irq_mask() == other.spec_irq_mask()
        &&& self.spec_irq_polarity() == other.spec_irq_polarity()
        &&& self.spec_cputemp_rtctime_vw_enabled() == other.spec_cputemp_rtctime_vw_enabled()
        &&& self.spec_cputemp_rtctime_vw_index_select() == other.spec_cputemp_rtctime_vw_index_select()
        &&& self.spec__reserved_1() == other.spec__reserved_1()
        &&& self.spec__reserved_2() == other.spec__reserved_2()
        &&& self.spec_cpu_temp_mmio_base() == other.spec_cpu_temp_mmio_base()
        &&& self.spec_rtc_time_mmio_base() == other.spec_rtc_time_mmio_base()
        &&& self.spec_bus_master_enabled() == other.spec_bus_master_enabled()
        &&& self.spec__reserved_3() == other.spec__reserved_3()
        &&& self.spec__reserved_4() == other.spec__reserved_4()
        &&& self.spec__reserved_5() == other.spec__reserved_5()
    }

    /// The I/O range at INDEX (of 16), or `None` if its base is 0; the size is stored as
    /// one less than the real size. The first range is usually for IPMI, the last two used
    /// ones for the serial ports.
    pub fn io_range(&self, index: usize) -> (r: Result<Option<EspiInitIoRange>>)
        requires
            index < 16 && self.spec_io_range_bases()[index as int] != 0 ==> self.spec_io_range_sizes_minus_one()[index as int] < 0xff,
        ensures
            index >= 16 ==> r == Err::<Option<EspiInitIoRange>, Error>(Error::EntryRange),
            index < 16 ==> r == Ok::<Option<EspiInitIoRange>, Error>(
                if self.spec_io_range_bases()[index as int] == 0 {
                    None
                } else {
                    Some(
                        EspiInitIoRange {
                            base: self.spec_io_range_bases()[index as int],
                            size: (self.spec_io_range_sizes_minus_one()[index as int] + 1) as u8,
                        },
                    )
                },
            ),
    {
        if index < self.io_range_sizes_minus_one.len() {
            Ok(
                if self.io_range_bases[index] == 0 {
                    None
                } else {
                    Some(EspiInitIoRange { base: self.io_range_bases[index], size: self.io_range_sizes_minus_one[index] + 1 })
                },
            )
        } else {
            Err(Error::EntryRange)
        }
    }

    /// Stores the I/O range at INDEX (of 16), or clears it for `None`; an INDEX out of range
    /// changes nothing.
    pub fn set_io_range(&mut self, index: usize, value: Option<EspiInitIoRange>)
        requires
            value matches Some(x) ==> x.size > 0,
        ensures
            index >= 16 ==> *final(self) == *old(self),
            index < 16 ==> final(self).spec_io_range_bases()@ == old(self).spec_io_range_bases()@.update(
                index as int,
                match value {
                    None => 0u16,
                    Some(x) => x.base,
                },
            ),
            index < 16 ==> final(self).spec_io_range_sizes_minus_one()@ == old(self).spec_io_range_sizes_minus_one()@.update(
                index as int,
                match value {
                    None => 0u8,
                    Some(x) => (x.size - 1) as u8,
                },
            ),
            final(self).spec_mmio_range_bases() == old(self).spec_mmio_range_bases(),
            final(self).spec_mmio_range_sizes_minus_one() == old(self).spec_mmio_range_sizes_minus_one(),
            final(self).spec_same_settings(*old(self)),
    {
        if index < self.io_range_sizes_minus_one.len() {
            match value {
                None => {
                    self.io_range_sizes_minus_one[index] = 0;
                    self.io_range_bases[index] = 0;
                },
                Some(x) => {
                    self.io_range_sizes_minus_one[index] = x.size - 1;
                    self.io_range_bases[index] = x.base;
                },
            }
        }
    }

    /// The number of I/O ranges.
    pub fn io_range_count(&self) -> (r: usize)
        ensures
            r == 16,
    {
        self.io_range_sizes_minus_one.len()
    }

    /// The MMIO range at INDEX (of 5), or `None` if its base is 0; the size is stored as one
    /// less than the real size.
    pub fn mmio_range(&self, index: usize) -> (r: Result<Option<EspiInitMmioRange>>)
        requires
            index < 5 && self.spec_mmio_range_bases()[index as int] != 0 ==> self.spec_mmio_range_sizes_minus_one()[index as int] < 0xffff,
        ensures
            index >= 5 ==> r == Err::<Option<EspiInitMmioRange>, Error>(Error::EntryRange),
            index < 5 ==> r == Ok::<Option<EspiInitMmioRange>, Error>(
                if self.spec_mmio_range_bases()[index as int] == 0 {
                    None
                } else {
                    Some(
                        EspiInitMmioRange {
                            base: self.spec_mmio_range_bases()[index as int],
                            size: (self.spec_mmio_range_sizes_minus_one()[index as int] + 1) as u16,
                        },
                    )
                },
            ),
    {
        if index < self.mmio_range_sizes_minus_one.len() {
            Ok(
                if self.mmio_range_bases[index] == 0 {
                    None
                } else {
                    Some(EspiInitMmioRange { base: self.mmio_range_bases[index], size: self.mmio_range_sizes_minus_one[index] + 1 })
                },
            )
        } else {
            Err(Error::EntryRange)
        }
    }

    /// Stores the MMIO range at INDEX (of 5), or clears it for `None`; an INDEX out of range
    /// changes nothing.
    pub fn set_mmio_range(&mut self, index: usize, value: Option<EspiInitMmioRange>)
        requires
            value matches Some(x) ==> x.size > 0,
        ensures
            index >= 5 ==> *final(self) == *old(self),
            index < 5 ==> final(self).spec_mmio_range_bases()@ == old(self).spec_mmio_range_bases()@.update(
                index as int,
                match value {
                    None => 0u32,
                    Some(x) => x.base,
                },
            ),
            index < 5 ==> final(self).spec_mmio_range_sizes_minus_one()@ == old(self).spec_mmio_range_sizes_minus_one()@.update(
                index as int,
                match value {
                    None => 0u16,
                    Some(x) => (x.size - 1) as u16,
                },
            ),
            final(self).spec_io_range_bases() == old(self).spec_io_range_bases(),
            final(self).spec_io_range_sizes_minus_one() == old(self).spec_io_range_sizes_minus_one(),
            final(self).spec_same_settings(*old(self)),
    {
        if index < self.mmio_range_sizes_minus_one.len() {
            match value {
                None => {
                    self.mmio_range_sizes_minus_one[index] = 0;
                    self.mmio_range_bases[index] = 0;
                },
                Some(x) => {
                    self.mmio_range_sizes_minus_one[index] = x.size - 1;
                    self.mmio_range_bases[index] = x.base;
                },
            }
        }
    }

    /// The number of MMIO ranges.
    pub fn mmio_range_count(&self) -> (r: usize)
        ensures
            r == 5,
    {
        self.mmio_range_sizes_minus_one.len()
    }

    /// The MMIO base of the CPU temperature, or `None` where 0 is stored.
    pub fn cpu_temp_mmio_base(&self) -> (r: Result<Option<u32>>)
        ensures
            r == Ok::<Option<u32>, Error>(if self.spec_cpu_temp_mmio_base() == 0 { None } else { Some(self.spec_cpu_temp_mmio_base()) }),
    {
        match self.cpu_temp_mmio_base {
            0 => Ok(None),
            x => Ok(Some(x)),
        }
    }

    /// Stores the MMIO base of the CPU temperature, or 0 for `None`.
    pub fn set_cpu_temp_mmio_base(&mut self, value: Option<u32>)
        ensures
            final(self).spec_cpu_temp_mmio_base() == match value {
                None => 0u32,
                Some(x) => x,
            },
            final(self).spec_rtc_time_mmio_base() == old(self).spec_rtc_time_mmio_base(),
    {
        self.cpu_temp_mmio_base = match value {
            None => 0,
            Some(x) => x,
        };
    }

    /// The MMIO base of the RTC time, or `None` where 0 is stored.
    pub fn rtc_time_mmio_base(&self) -> (r: Result<Option<u32>>)
        ensures
            r == Ok::<Option<u32>, Error>(if self.spec_rtc_time_mmio_base() == 0 { None } else { Some(self.spec_rtc_time_mmio_base()) }),
    {
        match self.rtc_time_mmio_base {
            0 => Ok(None),
            x => Ok(Some(x)),
        }
    }

    /// Stores the MMIO base of the RTC time, or 0 for `None`.
    pub fn set_rtc_time_mmio_base(&mut self, value: Option<u32>)
        ensures
            final(self).spec_rtc_time_mmio_base() == match value {
                None => 0u32,
                Some(x) => x,
            },
            final(self).spec_cpu_temp_mmio_base() == old(self).spec_cpu_temp_mmio_base(),
    {
        self.rtc_time_mmio_base = match value {
            None => 0,
            Some(x) => x,
        };
    }
}

impl EntryCompatible for EspiInit {
    fn is_entry_compatible(entry_id: EntryId, _prefix: &[u8]) -> (r: bool)
        ensures
            r == (entry_id == EntryId::Fch(FchEntryId::EspiInit)),
    {
        matches!(entry_id, EntryId::Fch(FchEntryId::EspiInit))
    }
}

/// The width of an eSPI SIO access.
#[derive(Debug, PartialEq, Eq, Clone, Copy, Structural)]
pub enum EspiSioAccessWidth {
    Terminator,
    _8Bit,
    _16Bit,
    _32Bit,
}

impl EspiSioAccessWidth {
    /// The number that stands for this value.
    pub open spec fn spec_to_u64(self) -> u64 {
        match self {
            EspiSioAccessWidth::Terminator => 0x0,
            EspiSioAccessWidth::_8Bit => 0x1,
            EspiSioAccessWidth::_16Bit => 0x2,
            EspiSioAccessWidth::_32Bit => 0x4,
        }
    }

    /// The value that VALUE stands for, if any.
    pub open spec fn spec_from_u64(value: u64) -> Option<EspiSioAccessWidth> {
        match value {
            0x0 => Some(EspiSioAccessWidth::Terminator),
            0x1 => Some(EspiSioAccessWidth::_8Bit),
            0x2 => Some(EspiSioAccessWidth::_16Bit),
            0x4 => Some(EspiSioAccessWidth::_32Bit),
            _ => None,
        }
    }

    pub fn from_u64(value: u64) -> (r: Option<EspiSioAccessWidth>)
        ensures
            r == EspiSioAccessWidth::spec_from_u64(value),
    {
        match value {
            0x0 => Some(EspiSioAccessWidth::Terminator),
            0x1 => Some(EspiSioAccessWidth::_8Bit),
            0x2 => Some(EspiSioAccessWidth::_16Bit),
            0x4 => Some(EspiSioAccessWidth::_32Bit),
            _ => None,
        }
    }

    pub fn to_u64(&self) -> (r: Option<u64>)
        ensures
            r == Some(self.spec_to_u64()),
    {
        Some(
            match self {
                EspiSioAccessWidth::Terminator => 0x0,
                EspiSioAccessWidth::_8Bit => 0x1,
                EspiSioAccessWidth::_16Bit => 0x2,
                EspiSioAccessWidth::_32Bit => 0x4,
            },
        )
    }
}

impl Default for EspiSioAccessWidth {
    fn default() -> (r: Self)
        ensures
            r == EspiSioAccessWidth::_32Bit,
    {
        EspiSioAccessWidth::_32Bit
    }
}

/// Every value of EspiSioAccessWidth is read back from its own number, and every number that is
/// read as a value is that value's number.
pub proof fn lemma_espi_sio_access_width_roundtrip(x: EspiSioAccessWidth, value: u64)
    ensures
        EspiSioAccessWidth::spec_from_u64(x.spec_to_u64()) == Some(x),
        EspiSioAccessWidth::spec_from_u64(value) matches Some(y) ==> y.spec_to_u64() == value,
{
}

/// One eSPI SIO initialization step: read-modify-write of an I/O port.
#[allow(non_camel_case_types)]
#[derive(Debug, Clone, Copy, PartialEq, Eq, Structural)]
pub struct EspiSioInitElement {
    pub(crate) io_port: u16,
    pub(crate) access_width: u16,
    pub(crate) data_mask: u32,
    pub(crate) data_or: u32,
}

impl EspiSioInitElement {
    pub closed spec fn spec_io_port(self) -> u16 {
        self.io_port
    }

    pub closed spec fn spec_access_width(self) -> u16 {
        self.access_width
    }

    pub closed spec fn spec_data_mask(self) -> u32 {
        self.data_mask
    }

    pub closed spec fn spec_data_or(self) -> u32 {
        self.data_or
    }

    pub fn io_port(&self) -> (r: Result<u16>)
        ensures
            r == Ok::<u16, Error>(self.spec_io_port()),
    {
        Ok(self.io_port)
    }

    pub fn set_io_port(&mut self, value: u16)
        ensures
            final(self).spec_io_port() == value,
            final(self).spec_access_width() == old(self).spec_access_width(),
            final(self).spec_data_mask() == old(self).spec_data_mask(),
            final(self).spec_data_or() == old(self).spec_data_or(),
    {
        self.io_port = value;
    }

    pub fn access_width(&self) -> (r: Result<EspiSioAccessWidth>)
        ensures
            r == match EspiSioAccessWidth::spec_from_u64(self.spec_access_width() as u64) {
                Some(e) => Ok::<EspiSioAccessWidth, Error>(e),
                None => Err(Error::EntryTypeMismatch),
            },
    {
        match EspiSioAccessWidth::from_u64(self.access_width as u64) {
            Some(e) => Ok(e),
            None => Err(Error::EntryTypeMismatch),
        }
    }

    pub fn set_access_width(&mut self, value: EspiSioAccessWidth)
        ensures
            final(self).spec_access_width() == value.spec_to_u64() as u16,
            final(self).spec_io_port() == old(self).spec_io_port(),
            final(self).spec_data_mask() == old(self).spec_data_mask(),
            final(self).spec_data_or() == old(self).spec_data_or(),
    {
        self.access_width = value.to_u64().unwrap() as u16;
    }

    pub fn data_mask(&self) -> (r: Result<u32>)
        ensures
            r == Ok::<u32, Error>(self.spec_data_mask()),
    {
        Ok(self.data_mask)
    }

    pub fn set_data_mask(&mut self, value: u32)
        ensures
            final(self).spec_data_mask() == value,
            final(self).spec_io_port() == old(self).spec_io_port(),
            final(self).spec_access_width() == old(self).spec_access_width(),
            final(self).spec_data_or() == old(self).spec_data_or(),
    {
        self.data_mask = value;
    }

    pub fn data_or(&self) -> (r: Result<u32>)
        ensures
            r == Ok::<u32, Error>(self.spec_data_or()),
    {
        Ok(self.data_or)
    }

    pub fn set_data_or(&mut self, value: u32)
        ensures
            final(self).spec_data_or() == value,
            final(self).spec_io_port() == old(self).spec_io_port(),
            final(self).spec_access_width() == old(self).spec_access_width(),
            final(self).spec_data_mask() == old(self).spec_data_mask(),
    {
        self.data_or = value;
    }

}

impl EspiSioInitElement {
    /// The bytes that store this value on disk.
    pub closed spec fn spec_bytes(self) -> Seq<u8> {
        spec_u16_to_le_bytes(self.io_port)
            + spec_u16_to_le_bytes(self.access_width)
            + spec_u32_to_le_bytes(self.data_mask)
            + spec_u32_to_le_bytes(self.data_or)
    }
}

impl ByteLayout for EspiSioInitElement {
    open spec fn spec_size() -> nat {
        12
    }

    open spec fn spec_to_bytes(self) -> Seq<u8> {
        self.spec_bytes()
    }

    fn size() -> (r: usize) {
        12
    }

    #[verifier::spinoff_prover]
    fn from_bytes(bytes: &[u8]) -> (r: Self) {
        let io_port: u16 = u16_from_le_bytes(slice_subrange(bytes, 0, 2));
        let access_width: u16 = u16_from_le_bytes(slice_subrange(bytes, 2, 4));
        let data_mask: u32 = u32_from_le_bytes(slice_subrange(bytes, 4, 8));
        let data_or: u32 = u32_from_le_bytes(slice_subrange(bytes, 8, 12));
        let r = EspiSioInitElement { io_port, access_width, data_mask, data_or };
        proof {
            lemma_auto_spec_u16_to_from_le_bytes();
            lemma_auto_spec_u32_to_from_le_bytes();
            lemma_auto_spec_u64_to_from_le_bytes();
            lemma_espi_sio_init_element_bytes_pieces(r);
            assert(bytes@.subrange(0, 2) == spec_u16_to_le_bytes(io_port));
            assert(bytes@.subrange(2, 4) == spec_u16_to_le_bytes(access_width));
            assert(bytes@.subrange(4, 8) == spec_u32_to_le_bytes(data_mask));
            assert(bytes@.subrange(8, 12) == spec_u32_to_le_bytes(data_or));
            assert(bytes@.subrange(0, 4) =~= bytes@.subrange(0, 2) + bytes@.subrange(2, 4));
            assert(bytes@.subrange(0, 8) =~= bytes@.subrange(0, 4) + bytes@.subrange(4, 8));
            assert(bytes@.subrange(0, 12) =~= bytes@.subrange(0, 8) + bytes@.subrange(8, 12));
            assert(bytes@.subrange(0, 12) =~= bytes@);
            assert(bytes@ == r.spec_bytes());
        }
        r
    }

    #[verifier::spinoff_prover]
    fn to_bytes(&self) -> (r: Vec<u8>) {
        let mut out: Vec<u8> = Vec::new();
        append_bytes(&mut out, &le_bytes_u16(self.io_port));
        append_bytes(&mut out, &le_bytes_u16(self.access_width));
        append_bytes(&mut out, &le_bytes_u32(self.data_mask));
        append_bytes(&mut out, &le_bytes_u32(self.data_or));
        proof {
            lemma_espi_sio_init_element_bytes_pieces(*self);
        }
        out
    }
}

/// How the bytes of a EspiSioInitElement split up into its fields.
pub proof fn lemma_espi_sio_init_element_bytes_pieces(x: EspiSioInitElement)
    ensures
        x.spec_bytes().len() == 12,
        x.spec_bytes().subrange(0, 2) == spec_u16_to_le_bytes(x.spec_io_port()),
        x.spec_bytes().subrange(2, 4) == spec_u16_to_le_bytes(x.spec_access_width()),
        x.spec_bytes().subrange(4, 8) == spec_u32_to_le_bytes(x.spec_data_mask()),
        x.spec_bytes().subrange(8, 12) == spec_u32_to_le_bytes(x.spec_data_or()),
{
    lemma_auto_spec_u16_to_from_le_bytes();
    lemma_auto_spec_u32_to_from_le_bytes();
    lemma_auto_spec_u64_to_from_le_bytes();
    assert(x.spec_bytes().subrange(0, 2) == spec_u16_to_le_bytes(x.io_port));
    assert(x.spec_bytes().subrange(2, 4) == spec_u16_to_le_bytes(x.access_width));
    assert(x.spec_bytes().subrange(4, 8) == spec_u32_to_le_bytes(x.data_mask));
    assert(x.spec_bytes().subrange(8, 12) == spec_u32_to_le_bytes(x.data_or));
}

/// Two values of EspiSioInitElement with the same bytes are the same value.
#[verifier::spinoff_prover]
pub proof fn lemma_espi_sio_init_element_bytes_injective(x: EspiSioInitElement, y: EspiSioInitElement)
    requires
        x.spec_bytes() == y.spec_bytes(),
    ensures
        x == y,
{
    lemma_espi_sio_init_element_bytes_pieces(x);
    lemma_espi_sio_init_element_bytes_pieces(y);
    lemma_auto_spec_u16_to_from_le_bytes();
    lemma_auto_spec_u32_to_from_le_bytes();
    lemma_auto_spec_u64_to_from_le_bytes();
    assert(spec_u16_from_le_bytes(spec_u16_to_le_bytes(x.io_port)) == spec_u16_from_le_bytes(spec_u16_to_le_bytes(y.io_port)));
    assert(spec_u16_from_le_bytes(spec_u16_to_le_bytes(x.access_width)) == spec_u16_from_le_bytes(spec_u16_to_le_bytes(y.access_width)));
    assert(spec_u32_from_le_bytes(spec_u32_to_le_bytes(x.data_mask)) == spec_u32_from_le_bytes(spec_u32_to_le_bytes(y.data_mask)));
    assert(spec_u32_from_le_bytes(spec_u32_to_le_bytes(x.data_or)) == spec_u32_from_le_bytes(spec_u32_to_le_bytes(y.data_or)));
}

impl Default for EspiSioInitElement {
    fn default() -> (r: Self)
        ensures
            r.spec_io_port() == 0,
            r.spec_access_width() == 0,
            r.spec_data_mask() == 0,
            r.spec_data_or() == 0,
    {
        EspiSioInitElement { io_port: 0, access_width: 0, data_mask: 0, data_or: 0 }
    }
}

impl EntryCompatible for EspiSioInitElement {
    fn is_entry_compatible(entry_id: EntryId, _prefix: &[u8]) -> (r: bool)
        ensures
            r == (entry_id == EntryId::Fch(FchEntryId::EspiSioInit)),
    {
        matches!(entry_id, EntryId::Fch(FchEntryId::EspiSioInit))
    }
}

impl HeaderWithTail for EspiInit {
    type TailArrayItemType<'de> = ();
}

impl HeaderWithTail for EspiSioInitElement {
    type TailArrayItemType<'de> = ();
}

} // verus!
