use vstd::prelude::*;

verus! {
/// Identifies a group of entries in the blob.
#[derive(Debug, PartialEq, Eq, Clone, Copy, Structural)]
pub enum GroupId {
    Psp,
    Ccx,
    Df,
    Memory,
    Gnb,
    Fch,
    Cbs,
    Oem,
    Token,
    Unknown(u16),
}

impl GroupId {
    /// The raw 16-bit identifier that stands for this value on disk.
    pub open spec fn spec_raw(self) -> u16 {
        match self {
            GroupId::Psp => 0x1701u16,
            GroupId::Ccx => 0x1702u16,
            GroupId::Df => 0x1703u16,
            GroupId::Memory => 0x1704u16,
            GroupId::Gnb => 0x1705u16,
            GroupId::Fch => 0x1706u16,
            GroupId::Cbs => 0x1707u16,
            GroupId::Oem => 0x1708u16,
            GroupId::Token => 0x3000u16,
            GroupId::Unknown(x) => x,
        }
    }

    /// The value that a raw 16-bit identifier stands for.
    pub open spec fn spec_decode(raw: u16) -> GroupId {
        match raw {
            0x1701u16 => GroupId::Psp,
            0x1702u16 => GroupId::Ccx,
            0x1703u16 => GroupId::Df,
            0x1704u16 => GroupId::Memory,
            0x1705u16 => GroupId::Gnb,
            0x1706u16 => GroupId::Fch,
            0x1707u16 => GroupId::Cbs,
            0x1708u16 => GroupId::Oem,
            0x3000u16 => GroupId::Token,
            _ => GroupId::Unknown(raw),
        }
    }

    /// Whether RAW has a name of its own (is not decoded as `Unknown`).
    pub open spec fn spec_is_named_raw(raw: u16) -> bool {
        raw == 0x1701u16
        || raw == 0x1702u16
        || raw == 0x1703u16
        || raw == 0x1704u16
        || raw == 0x1705u16
        || raw == 0x1706u16
        || raw == 0x1707u16
        || raw == 0x1708u16
        || raw == 0x3000u16
    }

    /// Whether this is the value that its own raw identifier decodes to.
    pub open spec fn spec_is_canonical(self) -> bool {
        match self {
            GroupId::Unknown(x) => !Self::spec_is_named_raw(x),
            _ => true,
        }
    }

    pub fn from_u64(value: u64) -> (r: Option<GroupId>)
        ensures
            r == (if value < 0x1_0000 { Some(Self::spec_decode(value as u16)) } else { None }),
    {
        if value < 0x1_0000 {
            let raw: u16 = value as u16;
            Some(match raw {
                0x1701 => GroupId::Psp,
                0x1702 => GroupId::Ccx,
                0x1703 => GroupId::Df,
                0x1704 => GroupId::Memory,
                0x1705 => GroupId::Gnb,
                0x1706 => GroupId::Fch,
                0x1707 => GroupId::Cbs,
                0x1708 => GroupId::Oem,
                0x3000 => GroupId::Token,
                x => GroupId::Unknown(x),
            })
        } else {
            None
        }
    }

    pub fn from_i64(value: i64) -> (r: Option<GroupId>)
        ensures
            r == (if 0 <= value < 0x1_0000 { Some(Self::spec_decode(value as u16)) } else { None }),
    {
        if value >= 0 {
            Self::from_u64(value as u64)
        } else {
            None
        }
    }

    pub fn to_u16(&self) -> (r: u16)
        ensures
            r == self.spec_raw(),
    {
        match self {
            GroupId::Psp => 0x1701,
            GroupId::Ccx => 0x1702,
            GroupId::Df => 0x1703,
            GroupId::Memory => 0x1704,
            GroupId::Gnb => 0x1705,
            GroupId::Fch => 0x1706,
            GroupId::Cbs => 0x1707,
            GroupId::Oem => 0x1708,
            GroupId::Token => 0x3000,
            GroupId::Unknown(x) => *x,
        }
    }

    pub fn to_i64(&self) -> (r: Option<i64>)
        ensures
            r == Some(self.spec_raw() as i64),
    {
        Some(self.to_u16() as i64)
    }

    pub fn to_u64(&self) -> (r: Option<u64>)
        ensures
            r == Some(self.spec_raw() as u64),
    {
        Some(self.to_u16() as u64)
    }
}

/// The token group is the group 0x3000, and every other named group has a raw identifier
/// from 0x1701 to 0x1708: decoding gives the token group exactly for 0x3000, and a named
/// group only for those numbers.
pub proof fn lemma_group_id_ranges(raw: u16, id: GroupId)
    ensures
        GroupId::spec_decode(raw) == GroupId::Token <==> raw == 0x3000,
        !(GroupId::spec_decode(raw) is Unknown) ==> raw == 0x3000 || 0x1701 <= raw <= 0x1708,
        id == GroupId::Token <==> id.spec_raw() == 0x3000 && id.spec_is_canonical(),
{
}

/// Decoding a raw GroupId identifier and encoding the result again gives back the same
/// raw identifier.
pub proof fn lemma_group_id_decode_then_raw(raw: u16)
    ensures
        GroupId::spec_decode(raw).spec_raw() == raw,
{
}

/// Encoding a canonical GroupId and decoding the raw identifier gives back the same value;
/// every raw identifier decodes to a canonical value.
pub proof fn lemma_group_id_raw_then_decode(id: GroupId, raw: u16)
    ensures
        id.spec_is_canonical() ==> GroupId::spec_decode(id.spec_raw()) == id,
        GroupId::spec_decode(raw).spec_is_canonical(),
{
}

/// Entry types of the PSP group.
#[derive(Debug, PartialEq, Eq, Clone, Copy, Structural)]
pub enum PspEntryId {
    BoardIdGettingMethod,
    DefaultParameters,
    Parameters,
    Unknown(u16),
}

impl PspEntryId {
    /// The raw 16-bit identifier that stands for this value on disk.
    pub open spec fn spec_raw(self) -> u16 {
        match self {
            PspEntryId::DefaultParameters => 0x1u16,
            PspEntryId::Parameters => 0x2u16,
            PspEntryId::BoardIdGettingMethod => 0x60u16,
            PspEntryId::Unknown(x) => x,
        }
    }

    /// The value that a raw 16-bit identifier stands for.
    pub open spec fn spec_decode(raw: u16) -> PspEntryId {
        match raw {
            0x1u16 => PspEntryId::DefaultParameters,
            0x2u16 => PspEntryId::Parameters,
            0x60u16 => PspEntryId::BoardIdGettingMethod,
            _ => PspEntryId::Unknown(raw),
        }
    }

    /// Whether RAW has a name of its own (is not decoded as `Unknown`).
    pub open spec fn spec_is_named_raw(raw: u16) -> bool {
        raw == 0x1u16
        || raw == 0x2u16
        || raw == 0x60u16
    }

    /// Whether this is the value that its own raw identifier decodes to.
    pub open spec fn spec_is_canonical(self) -> bool {
        match self {
            PspEntryId::Unknown(x) => !Self::spec_is_named_raw(x),
            _ => true,
        }
    }

    pub fn from_u64(value: u64) -> (r: Option<PspEntryId>)
        ensures
            r == (if value < 0x1_0000 { Some(Self::spec_decode(value as u16)) } else { None }),
    {
        if value < 0x1_0000 {
            let raw: u16 = value as u16;
            Some(match raw {
                0x1 => PspEntryId::DefaultParameters,
                0x2 => PspEntryId::Parameters,
                0x60 => PspEntryId::BoardIdGettingMethod,
                x => PspEntryId::Unknown(x),
            })
        } else {
            None
        }
    }

    pub fn from_i64(value: i64) -> (r: Option<PspEntryId>)
        ensures
            r == (if 0 <= value < 0x1_0000 { Some(Self::spec_decode(value as u16)) } else { None }),
    {
        if value >= 0 {
            Self::from_u64(value as u64)
        } else {
            None
        }
    }

    pub fn to_u16(&self) -> (r: u16)
        ensures
            r == self.spec_raw(),
    {
        match self {
            PspEntryId::DefaultParameters => 0x1,
            PspEntryId::Parameters => 0x2,
            PspEntryId::BoardIdGettingMethod => 0x60,
            PspEntryId::Unknown(x) => *x,
        }
    }

    pub fn to_i64(&self) -> (r: Option<i64>)
        ensures
            r == Some(self.spec_raw() as i64),
    {
        Some(self.to_u16() as i64)
    }

    pub fn to_u64(&self) -> (r: Option<u64>)
        ensures
            r == Some(self.spec_raw() as u64),
    {
        Some(self.to_u16() as u64)
    }
}

/// Decoding a raw PspEntryId identifier and encoding the result again gives back the same
/// raw identifier.
pub proof fn lemma_psp_entry_id_decode_then_raw(raw: u16)
    ensures
        PspEntryId::spec_decode(raw).spec_raw() == raw,
{
}

/// Encoding a canonical PspEntryId and decoding the raw identifier gives back the same value;
/// every raw identifier decodes to a canonical value.
pub proof fn lemma_psp_entry_id_raw_then_decode(id: PspEntryId, raw: u16)
    ensures
        id.spec_is_canonical() ==> PspEntryId::spec_decode(id.spec_raw()) == id,
        PspEntryId::spec_decode(raw).spec_is_canonical(),
{
}

/// Entry types of the CCX group.
#[derive(Debug, PartialEq, Eq, Clone, Copy, Structural)]
pub enum CcxEntryId {
    DefaultParameters,
    Parameters,
    Unknown(u16),
}

impl CcxEntryId {
    /// The raw 16-bit identifier that stands for this value on disk.
    pub open spec fn spec_raw(self) -> u16 {
        match self {
            CcxEntryId::DefaultParameters => 0x3u16,
            CcxEntryId::Parameters => 0x4u16,
            CcxEntryId::Unknown(x) => x,
        }
    }

    /// The value that a raw 16-bit identifier stands for.
    pub open spec fn spec_decode(raw: u16) -> CcxEntryId {
        match raw {
            0x3u16 => CcxEntryId::DefaultParameters,
            0x4u16 => CcxEntryId::Parameters,
            _ => CcxEntryId::Unknown(raw),
        }
    }

    /// Whether RAW has a name of its own (is not decoded as `Unknown`).
    pub open spec fn spec_is_named_raw(raw: u16) -> bool {
        raw == 0x3u16
        || raw == 0x4u16
    }

    /// Whether this is the value that its own raw identifier decodes to.
    pub open spec fn spec_is_canonical(self) -> bool {
        match self {
            CcxEntryId::Unknown(x) => !Self::spec_is_named_raw(x),
            _ => true,
        }
    }

    pub fn from_u64(value: u64) -> (r: Option<CcxEntryId>)
        ensures
            r == (if value < 0x1_0000 { Some(Self::spec_decode(value as u16)) } else { None }),
    {
        if value < 0x1_0000 {
            let raw: u16 = value as u16;
            Some(match raw {
                0x3 => CcxEntryId::DefaultParameters,
                0x4 => CcxEntryId::Parameters,
                x => CcxEntryId::Unknown(x),
            })
        } else {
            None
        }
    }

    pub fn from_i64(value: i64) -> (r: Option<CcxEntryId>)
        ensures
            r == (if 0 <= value < 0x1_0000 { Some(Self::spec_decode(value as u16)) } else { None }),
    {
        if value >= 0 {
            Self::from_u64(value as u64)
        } else {
            None
        }
    }

    pub fn to_u16(&self) -> (r: u16)
        ensures
            r == self.spec_raw(),
    {
        match self {
            CcxEntryId::DefaultParameters => 0x3,
            CcxEntryId::Parameters => 0x4,
            CcxEntryId::Unknown(x) => *x,
        }
    }

    pub fn to_i64(&self) -> (r: Option<i64>)
        ensures
            r == Some(self.spec_raw() as i64),
    {
        Some(self.to_u16() as i64)
    }

    pub fn to_u64(&self) -> (r: Option<u64>)
        ensures
            r == Some(self.spec_raw() as u64),
    {
        Some(self.to_u16() as u64)
    }
}

/// Decoding a raw CcxEntryId identifier and encoding the result again gives back the same
/// raw identifier.
pub proof fn lemma_ccx_entry_id_decode_then_raw(raw: u16)
    ensures
        CcxEntryId::spec_decode(raw).spec_raw() == raw,
{
}

/// Encoding a canonical CcxEntryId and decoding the raw identifier gives back the same value;
/// every raw identifier decodes to a canonical value.
pub proof fn lemma_ccx_entry_id_raw_then_decode(id: CcxEntryId, raw: u16)
    ensures
        id.spec_is_canonical() ==> CcxEntryId::spec_decode(id.spec_raw()) == id,
        CcxEntryId::spec_decode(raw).spec_is_canonical(),
{
}

/// Entry types of the data fabric group.
#[derive(Debug, PartialEq, Eq, Clone, Copy, Structural)]
pub enum DfEntryId {
    DefaultParameters,
    Parameters,
    SlinkConfig,
    XgmiTxEq,
    XgmiPhyOverride,
    Unknown(u16),
}

impl DfEntryId {
    /// The raw 16-bit identifier that stands for this value on disk.
    pub open spec fn spec_raw(self) -> u16 {
        match self {
            DfEntryId::DefaultParameters => 0x5u16,
            DfEntryId::Parameters => 0x6u16,
            DfEntryId::SlinkConfig => 0xCCu16,
            DfEntryId::XgmiTxEq => 0xD0u16,
            DfEntryId::XgmiPhyOverride => 0xDDu16,
            DfEntryId::Unknown(x) => x,
        }
    }

    /// The value that a raw 16-bit identifier stands for.
    pub open spec fn spec_decode(raw: u16) -> DfEntryId {
        match raw {
            0x5u16 => DfEntryId::DefaultParameters,
            0x6u16 => DfEntryId::Parameters,
            0xCCu16 => DfEntryId::SlinkConfig,
            0xD0u16 => DfEntryId::XgmiTxEq,
            0xDDu16 => DfEntryId::XgmiPhyOverride,
            _ => DfEntryId::Unknown(raw),
        }
    }

    /// Whether RAW has a name of its own (is not decoded as `Unknown`).
    pub open spec fn spec_is_named_raw(raw: u16) -> bool {
        raw == 0x5u16
        || raw == 0x6u16
        || raw == 0xCCu16
        || raw == 0xD0u16
        || raw == 0xDDu16
    }

    /// Whether this is the value that its own raw identifier decodes to.
    pub open spec fn spec_is_canonical(self) -> bool {
        match self {
            DfEntryId::Unknown(x) => !Self::spec_is_named_raw(x),
            _ => true,
        }
    }

    pub fn from_u64(value: u64) -> (r: Option<DfEntryId>)
        ensures
            r == (if value < 0x1_0000 { Some(Self::spec_decode(value as u16)) } else { None }),
    {
        if value < 0x1_0000 {
            let raw: u16 = value as u16;
            Some(match raw {
                0x5 => DfEntryId::DefaultParameters,
                0x6 => DfEntryId::Parameters,
                0xCC => DfEntryId::SlinkConfig,
                0xD0 => DfEntryId::XgmiTxEq,
                0xDD => DfEntryId::XgmiPhyOverride,
                x => DfEntryId::Unknown(x),
            })
        } else {
            None
        }
    }

    pub fn from_i64(value: i64) -> (r: Option<DfEntryId>)
        ensures
            r == (if 0 <= value < 0x1_0000 { Some(Self::spec_decode(value as u16)) } else { None }),
    {
        if value >= 0 {
            Self::from_u64(value as u64)
        } else {
            None
        }
    }

    pub fn to_u16(&self) -> (r: u16)
        ensures
            r == self.spec_raw(),
    {
        match self {
            DfEntryId::DefaultParameters => 0x5,
            DfEntryId::Parameters => 0x6,
            DfEntryId::SlinkConfig => 0xCC,
            DfEntryId::XgmiTxEq => 0xD0,
            DfEntryId::XgmiPhyOverride => 0xDD,
            DfEntryId::Unknown(x) => *x,
        }
    }

    pub fn to_i64(&self) -> (r: Option<i64>)
        ensures
            r == Some(self.spec_raw() as i64),
    {
        Some(self.to_u16() as i64)
    }

    pub fn to_u64(&self) -> (r: Option<u64>)
        ensures
            r == Some(self.spec_raw() as u64),
    {
        Some(self.to_u16() as u64)
    }
}

/// Decoding a raw DfEntryId identifier and encoding the result again gives back the same
/// raw identifier.
pub proof fn lemma_df_entry_id_decode_then_raw(raw: u16)
    ensures
        DfEntryId::spec_decode(raw).spec_raw() == raw,
{
}

/// Encoding a canonical DfEntryId and decoding the raw identifier gives back the same value;
/// every raw identifier decodes to a canonical value.
pub proof fn lemma_df_entry_id_raw_then_decode(id: DfEntryId, raw: u16)
    ensures
        id.spec_is_canonical() ==> DfEntryId::spec_decode(id.spec_raw()) == id,
        DfEntryId::spec_decode(raw).spec_is_canonical(),
{
}

/// Entry types of the memory group.
#[derive(Debug, PartialEq, Eq, Clone, Copy, Structural)]
pub enum MemoryEntryId {
    DefaultParameters,
    Parameters,
    SpdInfo,
    DimmInfoSmbus,
    DimmConfigInfoId,
    MemOverclockConfig,
    DdrDqPinMap,
    Ddr5CaPinMap,
    MemDfeSearch,
    PlatformSpecificOverride,
    PsUdimmDdr4OdtPat,
    PsUdimmDdr4CadBus,
    PsUdimmDdr4DataBus,
    PsUdimmDdr4MaxFreq,
    PsUdimmDdr4StretchFreq,
    PsRdimmDdr4OdtPat,
    PsRdimmDdr4CadBus,
    PsRdimmDdr4DataBus,
    PsRdimmDdr4MaxFreq,
    PsRdimmDdr4StretchFreq,
    PsRdimmDdr5Bus,
    PsRdimmDdr5MaxFreq,
    PsRdimmDdr5StretchFreq,
    PsRdimmDdr5MaxFreqC1,
    Ps3dsRdimmDdr4MaxFreq,
    Ps3dsRdimmDdr4StretchFreq,
    Ps3dsRdimmDdr4DataBus,
    Ps3dsRdimmDdr5MaxFreq,
    Ps3dsRdimmDdr5StretchFreq,
    ConsoleOutControl,
    EventControl,
    ErrorOutControl,
    ExtVoltageControl,
    PsLrdimmDdr4OdtPat,
    PsLrdimmDdr4CadBus,
    PsLrdimmDdr4DataBus,
    PsLrdimmDdr4MaxFreq,
    PsLrdimmDdr4StretchFreq,
    PsLrdimmDdr5MaxFreq,
    PsLrdimmDdr5StretchFreq,
    PsSodimmDdr4OdtPat,
    PsSodimmDdr4CadBus,
    PsSodimmDdr4DataBus,
    PsSodimmDdr4MaxFreq,
    PsSodimmDdr4StretchFreq,
    DdrPostPackageRepair,
    PsDramdownDdr4OdtPat,
    PsDramdownDdr4CadBus,
    PsDramdownDdr4DataBus,
    PsDramdownDdr4MaxFreq,
    PsDramdownDdr4StretchFreq,
    PlatformTuning,
    PmuBistVendorAlgorithm,
    Ddr5RawCardConfig,
    Ddr5TrainingOverride,
    Unknown(u16),
}

impl MemoryEntryId {
    /// The raw 16-bit identifier that stands for this value on disk.
    pub open spec fn spec_raw(self) -> u16 {
        match self {
            MemoryEntryId::DefaultParameters => 0x7u16,
            MemoryEntryId::Parameters => 0x8u16,
            MemoryEntryId::SpdInfo => 0x30u16,
            MemoryEntryId::DimmInfoSmbus => 0x31u16,
            MemoryEntryId::DimmConfigInfoId => 0x32u16,
            MemoryEntryId::MemOverclockConfig => 0x33u16,
            MemoryEntryId::DdrDqPinMap => 0x35u16,
            MemoryEntryId::Ddr5CaPinMap => 0x36u16,
            MemoryEntryId::MemDfeSearch => 0x37u16,
            MemoryEntryId::PlatformSpecificOverride => 0x40u16,
            MemoryEntryId::PsUdimmDdr4OdtPat => 0x41u16,
            MemoryEntryId::PsUdimmDdr4CadBus => 0x42u16,
            MemoryEntryId::PsUdimmDdr4DataBus => 0x43u16,
            MemoryEntryId::PsUdimmDdr4MaxFreq => 0x44u16,
            MemoryEntryId::PsUdimmDdr4StretchFreq => 0x45u16,
            MemoryEntryId::PsRdimmDdr4OdtPat => 0x46u16,
            MemoryEntryId::PsRdimmDdr4CadBus => 0x47u16,
            MemoryEntryId::PsRdimmDdr4DataBus => 0x48u16,
            MemoryEntryId::PsRdimmDdr4MaxFreq => 0x49u16,
            MemoryEntryId::PsRdimmDdr4StretchFreq => 0x4Au16,
            MemoryEntryId::PsRdimmDdr5Bus => 0x89u16,
            MemoryEntryId::PsRdimmDdr5MaxFreq => 0x8Eu16,
            MemoryEntryId::PsRdimmDdr5StretchFreq => 0x92u16,
            MemoryEntryId::PsRdimmDdr5MaxFreqC1 => 0xA3u16,
            MemoryEntryId::Ps3dsRdimmDdr4MaxFreq => 0x4Bu16,
            MemoryEntryId::Ps3dsRdimmDdr4StretchFreq => 0x4Cu16,
            MemoryEntryId::Ps3dsRdimmDdr4DataBus => 0x4Du16,
            MemoryEntryId::Ps3dsRdimmDdr5MaxFreq => 0x94u16,
            MemoryEntryId::Ps3dsRdimmDdr5StretchFreq => 0x95u16,
            MemoryEntryId::ConsoleOutControl => 0x50u16,
            MemoryEntryId::EventControl => 0x51u16,
            MemoryEntryId::ErrorOutControl => 0x52u16,
            MemoryEntryId::ExtVoltageControl => 0x53u16,
            MemoryEntryId::PsLrdimmDdr4OdtPat => 0x54u16,
            MemoryEntryId::PsLrdimmDdr4CadBus => 0x55u16,
            MemoryEntryId::PsLrdimmDdr4DataBus => 0x56u16,
            MemoryEntryId::PsLrdimmDdr4MaxFreq => 0x57u16,
            MemoryEntryId::PsLrdimmDdr4StretchFreq => 0x58u16,
            MemoryEntryId::PsLrdimmDdr5MaxFreq => 0x8Fu16,
            MemoryEntryId::PsLrdimmDdr5StretchFreq => 0x93u16,
            MemoryEntryId::PsSodimmDdr4OdtPat => 0x59u16,
            MemoryEntryId::PsSodimmDdr4CadBus => 0x5Au16,
            MemoryEntryId::PsSodimmDdr4DataBus => 0x5Bu16,
            MemoryEntryId::PsSodimmDdr4MaxFreq => 0x5Cu16,
            MemoryEntryId::PsSodimmDdr4StretchFreq => 0x5Du16,
            MemoryEntryId::DdrPostPackageRepair => 0x5Eu16,
            MemoryEntryId::PsDramdownDdr4OdtPat => 0x70u16,
            MemoryEntryId::PsDramdownDdr4CadBus => 0x71u16,
            MemoryEntryId::PsDramdownDdr4DataBus => 0x72u16,
            MemoryEntryId::PsDramdownDdr4MaxFreq => 0x73u16,
            MemoryEntryId::PsDramdownDdr4StretchFreq => 0x74u16,
            MemoryEntryId::PlatformTuning => 0x75u16,
            MemoryEntryId::PmuBistVendorAlgorithm => 0xA1u16,
            MemoryEntryId::Ddr5RawCardConfig => 0xA2u16,
            MemoryEntryId::Ddr5TrainingOverride => 0xA4u16,
            MemoryEntryId::Unknown(x) => x,
        }
    }

    /// The value that a raw 16-bit identifier stands for.
    pub open spec fn spec_decode(raw: u16) -> MemoryEntryId {
        match raw {
            0x7u16 => MemoryEntryId::DefaultParameters,
            0x8u16 => MemoryEntryId::Parameters,
            0x30u16 => MemoryEntryId::SpdInfo,
            0x31u16 => MemoryEntryId::DimmInfoSmbus,
            0x32u16 => MemoryEntryId::DimmConfigInfoId,
            0x33u16 => MemoryEntryId::MemOverclockConfig,
            0x35u16 => MemoryEntryId::DdrDqPinMap,
            0x36u16 => MemoryEntryId::Ddr5CaPinMap,
            0x37u16 => MemoryEntryId::MemDfeSearch,
            0x40u16 => MemoryEntryId::PlatformSpecificOverride,
            0x41u16 => MemoryEntryId::PsUdimmDdr4OdtPat,
            0x42u16 => MemoryEntryId::PsUdimmDdr4CadBus,
            0x43u16 => MemoryEntryId::PsUdimmDdr4DataBus,
            0x44u16 => MemoryEntryId::PsUdimmDdr4MaxFreq,
            0x45u16 => MemoryEntryId::PsUdimmDdr4StretchFreq,
            0x46u16 => MemoryEntryId::PsRdimmDdr4OdtPat,
            0x47u16 => MemoryEntryId::PsRdimmDdr4CadBus,
            0x48u16 => MemoryEntryId::PsRdimmDdr4DataBus,
            0x49u16 => MemoryEntryId::PsRdimmDdr4MaxFreq,
            0x4Au16 => MemoryEntryId::PsRdimmDdr4StretchFreq,
            0x4Bu16 => MemoryEntryId::Ps3dsRdimmDdr4MaxFreq,
            0x4Cu16 => MemoryEntryId::Ps3dsRdimmDdr4StretchFreq,
            0x4Du16 => MemoryEntryId::Ps3dsRdimmDdr4DataBus,
            0x50u16 => MemoryEntryId::ConsoleOutControl,
            0x51u16 => MemoryEntryId::EventControl,
            0x52u16 => MemoryEntryId::ErrorOutControl,
            0x53u16 => MemoryEntryId::ExtVoltageControl,
            0x54u16 => MemoryEntryId::PsLrdimmDdr4OdtPat,
            0x55u16 => MemoryEntryId::PsLrdimmDdr4CadBus,
            0x56u16 => MemoryEntryId::PsLrdimmDdr4DataBus,
            0x57u16 => MemoryEntryId::PsLrdimmDdr4MaxFreq,
            0x58u16 => MemoryEntryId::PsLrdimmDdr4StretchFreq,
            0x59u16 => MemoryEntryId::PsSodimmDdr4OdtPat,
            0x5Au16 => MemoryEntryId::PsSodimmDdr4CadBus,
            0x5Bu16 => MemoryEntryId::PsSodimmDdr4DataBus,
            0x5Cu16 => MemoryEntryId::PsSodimmDdr4MaxFreq,
            0x5Du16 => MemoryEntryId::PsSodimmDdr4StretchFreq,
            0x5Eu16 => MemoryEntryId::DdrPostPackageRepair,
            0x70u16 => MemoryEntryId::PsDramdownDdr4OdtPat,
            0x71u16 => MemoryEntryId::PsDramdownDdr4CadBus,
            0x72u16 => MemoryEntryId::PsDramdownDdr4DataBus,
            0x73u16 => MemoryEntryId::PsDramdownDdr4MaxFreq,
            0x74u16 => MemoryEntryId::PsDramdownDdr4StretchFreq,
            0x75u16 => MemoryEntryId::PlatformTuning,
            0x89u16 => MemoryEntryId::PsRdimmDdr5Bus,
            0x8Eu16 => MemoryEntryId::PsRdimmDdr5MaxFreq,
            0x8Fu16 => MemoryEntryId::PsLrdimmDdr5MaxFreq,
            0x92u16 => MemoryEntryId::PsRdimmDdr5StretchFreq,
            0x93u16 => MemoryEntryId::PsLrdimmDdr5StretchFreq,
            0x94u16 => MemoryEntryId::Ps3dsRdimmDdr5MaxFreq,
            0x95u16 => MemoryEntryId::Ps3dsRdimmDdr5StretchFreq,
            0xA1u16 => MemoryEntryId::PmuBistVendorAlgorithm,
            0xA2u16 => MemoryEntryId::Ddr5RawCardConfig,
            0xA3u16 => MemoryEntryId::PsRdimmDdr5MaxFreqC1,
            0xA4u16 => MemoryEntryId::Ddr5TrainingOverride,
            _ => MemoryEntryId::Unknown(raw),
        }
    }

    /// Whether RAW has a name of its own (is not decoded as `Unknown`).
    pub open spec fn spec_is_named_raw(raw: u16) -> bool {
        raw == 0x7u16
        || raw == 0x8u16
        || raw == 0x30u16
        || raw == 0x31u16
        || raw == 0x32u16
        || raw == 0x33u16
        || raw == 0x35u16
        || raw == 0x36u16
        || raw == 0x37u16
        || raw == 0x40u16
        || raw == 0x41u16
        || raw == 0x42u16
        || raw == 0x43u16
        || raw == 0x44u16
        || raw == 0x45u16
        || raw == 0x46u16
        || raw == 0x47u16
        || raw == 0x48u16
        || raw == 0x49u16
        || raw == 0x4Au16
        || raw == 0x4Bu16
        || raw == 0x4Cu16
        || raw == 0x4Du16
        || raw == 0x50u16
        || raw == 0x51u16
        || raw == 0x52u16
        || raw == 0x53u16
        || raw == 0x54u16
        || raw == 0x55u16
        || raw == 0x56u16
        || raw == 0x57u16
        || raw == 0x58u16
        || raw == 0x59u16
        || raw == 0x5Au16
        || raw == 0x5Bu16
        || raw == 0x5Cu16
        || raw == 0x5Du16
        || raw == 0x5Eu16
        || raw == 0x70u16
        || raw == 0x71u16
        || raw == 0x72u16
        || raw == 0x73u16
        || raw == 0x74u16
        || raw == 0x75u16
        || raw == 0x89u16
        || raw == 0x8Eu16
        || raw == 0x8Fu16
        || raw == 0x92u16
        || raw == 0x93u16
        || raw == 0x94u16
        || raw == 0x95u16
        || raw == 0xA1u16
        || raw == 0xA2u16
        || raw == 0xA3u16
        || raw == 0xA4u16
    }

    /// Whether this is the value that its own raw identifier decodes to.
    pub open spec fn spec_is_canonical(self) -> bool {
        match self {
            MemoryEntryId::Unknown(x) => !Self::spec_is_named_raw(x),
            _ => true,
        }
    }

    pub fn from_u64(value: u64) -> (r: Option<MemoryEntryId>)
        ensures
            r == (if value < 0x1_0000 { Some(Self::spec_decode(value as u16)) } else { None }),
    {
        if value < 0x1_0000 {
            let raw: u16 = value as u16;
            Some(match raw {
                0x7 => MemoryEntryId::DefaultParameters,
                0x8 => MemoryEntryId::Parameters,
                0x30 => MemoryEntryId::SpdInfo,
                0x31 => MemoryEntryId::DimmInfoSmbus,
                0x32 => MemoryEntryId::DimmConfigInfoId,
                0x33 => MemoryEntryId::MemOverclockConfig,
                0x35 => MemoryEntryId::DdrDqPinMap,
                0x36 => MemoryEntryId::Ddr5CaPinMap,
                0x37 => MemoryEntryId::MemDfeSearch,
                0x40 => MemoryEntryId::PlatformSpecificOverride,
                0x41 => MemoryEntryId::PsUdimmDdr4OdtPat,
                0x42 => MemoryEntryId::PsUdimmDdr4CadBus,
                0x43 => MemoryEntryId::PsUdimmDdr4DataBus,
                0x44 => MemoryEntryId::PsUdimmDdr4MaxFreq,
                0x45 => MemoryEntryId::PsUdimmDdr4StretchFreq,
                0x46 => MemoryEntryId::PsRdimmDdr4OdtPat,
                0x47 => MemoryEntryId::PsRdimmDdr4CadBus,
                0x48 => MemoryEntryId::PsRdimmDdr4DataBus,
                0x49 => MemoryEntryId::PsRdimmDdr4MaxFreq,
                0x4A => MemoryEntryId::PsRdimmDdr4StretchFreq,
                0x4B => MemoryEntryId::Ps3dsRdimmDdr4MaxFreq,
                0x4C => MemoryEntryId::Ps3dsRdimmDdr4StretchFreq,
                0x4D => MemoryEntryId::Ps3dsRdimmDdr4DataBus,
                0x50 => MemoryEntryId::ConsoleOutControl,
                0x51 => MemoryEntryId::EventControl,
                0x52 => MemoryEntryId::ErrorOutControl,
                0x53 => MemoryEntryId::ExtVoltageControl,
                0x54 => MemoryEntryId::PsLrdimmDdr4OdtPat,
                0x55 => MemoryEntryId::PsLrdimmDdr4CadBus,
                0x56 => MemoryEntryId::PsLrdimmDdr4DataBus,
                0x57 => MemoryEntryId::PsLrdimmDdr4MaxFreq,
                0x58 => MemoryEntryId::PsLrdimmDdr4StretchFreq,
                0x59 => MemoryEntryId::PsSodimmDdr4OdtPat,
                0x5A => MemoryEntryId::PsSodimmDdr4CadBus,
                0x5B => MemoryEntryId::PsSodimmDdr4DataBus,
                0x5C => MemoryEntryId::PsSodimmDdr4MaxFreq,
                0x5D => MemoryEntryId::PsSodimmDdr4StretchFreq,
                0x5E => MemoryEntryId::DdrPostPackageRepair,
                0x70 => MemoryEntryId::PsDramdownDdr4OdtPat,
                0x71 => MemoryEntryId::PsDramdownDdr4CadBus,
                0x72 => MemoryEntryId::PsDramdownDdr4DataBus,
                0x73 => MemoryEntryId::PsDramdownDdr4MaxFreq,
                0x74 => MemoryEntryId::PsDramdownDdr4StretchFreq,
                0x75 => MemoryEntryId::PlatformTuning,
                0x89 => MemoryEntryId::PsRdimmDdr5Bus,
                0x8E => MemoryEntryId::PsRdimmDdr5MaxFreq,
                0x8F => MemoryEntryId::PsLrdimmDdr5MaxFreq,
                0x92 => MemoryEntryId::PsRdimmDdr5StretchFreq,
                0x93 => MemoryEntryId::PsLrdimmDdr5StretchFreq,
                0x94 => MemoryEntryId::Ps3dsRdimmDdr5MaxFreq,
                0x95 => MemoryEntryId::Ps3dsRdimmDdr5StretchFreq,
                0xA1 => MemoryEntryId::PmuBistVendorAlgorithm,
                0xA2 => MemoryEntryId::Ddr5RawCardConfig,
                0xA3 => MemoryEntryId::PsRdimmDdr5MaxFreqC1,
                0xA4 => MemoryEntryId::Ddr5TrainingOverride,
                x => MemoryEntryId::Unknown(x),
            })
        } else {
            None
        }
    }

    pub fn from_i64(value: i64) -> (r: Option<MemoryEntryId>)
        ensures
            r == (if 0 <= value < 0x1_0000 { Some(Self::spec_decode(value as u16)) } else { None }),
    {
        if value >= 0 {
            Self::from_u64(value as u64)
        } else {
            None
        }
    }

    pub fn to_u16(&self) -> (r: u16)
        ensures
            r == self.spec_raw(),
    {
        match self {
            MemoryEntryId::DefaultParameters => 0x7,
            MemoryEntryId::Parameters => 0x8,
            MemoryEntryId::SpdInfo => 0x30,
            MemoryEntryId::DimmInfoSmbus => 0x31,
            MemoryEntryId::DimmConfigInfoId => 0x32,
            MemoryEntryId::MemOverclockConfig => 0x33,
            MemoryEntryId::DdrDqPinMap => 0x35,
            MemoryEntryId::Ddr5CaPinMap => 0x36,
            MemoryEntryId::MemDfeSearch => 0x37,
            MemoryEntryId::PlatformSpecificOverride => 0x40,
            MemoryEntryId::PsUdimmDdr4OdtPat => 0x41,
            MemoryEntryId::PsUdimmDdr4CadBus => 0x42,
            MemoryEntryId::PsUdimmDdr4DataBus => 0x43,
            MemoryEntryId::PsUdimmDdr4MaxFreq => 0x44,
            MemoryEntryId::PsUdimmDdr4StretchFreq => 0x45,
            MemoryEntryId::PsRdimmDdr4OdtPat => 0x46,
            MemoryEntryId::PsRdimmDdr4CadBus => 0x47,
            MemoryEntryId::PsRdimmDdr4DataBus => 0x48,
            MemoryEntryId::PsRdimmDdr4MaxFreq => 0x49,
            MemoryEntryId::PsRdimmDdr4StretchFreq => 0x4A,
            MemoryEntryId::PsRdimmDdr5Bus => 0x89,
            MemoryEntryId::PsRdimmDdr5MaxFreq => 0x8E,
            MemoryEntryId::PsRdimmDdr5StretchFreq => 0x92,
            MemoryEntryId::PsRdimmDdr5MaxFreqC1 => 0xA3,
            MemoryEntryId::Ps3dsRdimmDdr4MaxFreq => 0x4B,
            MemoryEntryId::Ps3dsRdimmDdr4StretchFreq => 0x4C,
            MemoryEntryId::Ps3dsRdimmDdr4DataBus => 0x4D,
            MemoryEntryId::Ps3dsRdimmDdr5MaxFreq => 0x94,
            MemoryEntryId::Ps3dsRdimmDdr5StretchFreq => 0x95,
            MemoryEntryId::ConsoleOutControl => 0x50,
            MemoryEntryId::EventControl => 0x51,
            MemoryEntryId::ErrorOutControl => 0x52,
            MemoryEntryId::ExtVoltageControl => 0x53,
            MemoryEntryId::PsLrdimmDdr4OdtPat => 0x54,
            MemoryEntryId::PsLrdimmDdr4CadBus => 0x55,
            MemoryEntryId::PsLrdimmDdr4DataBus => 0x56,
            MemoryEntryId::PsLrdimmDdr4MaxFreq => 0x57,
            MemoryEntryId::PsLrdimmDdr4StretchFreq => 0x58,
            MemoryEntryId::PsLrdimmDdr5MaxFreq => 0x8F,
            MemoryEntryId::PsLrdimmDdr5StretchFreq => 0x93,
            MemoryEntryId::PsSodimmDdr4OdtPat => 0x59,
            MemoryEntryId::PsSodimmDdr4CadBus => 0x5A,
            MemoryEntryId::PsSodimmDdr4DataBus => 0x5B,
            MemoryEntryId::PsSodimmDdr4MaxFreq => 0x5C,
            MemoryEntryId::PsSodimmDdr4StretchFreq => 0x5D,
            MemoryEntryId::DdrPostPackageRepair => 0x5E,
            MemoryEntryId::PsDramdownDdr4OdtPat => 0x70,
            MemoryEntryId::PsDramdownDdr4CadBus => 0x71,
            MemoryEntryId::PsDramdownDdr4DataBus => 0x72,
            MemoryEntryId::PsDramdownDdr4MaxFreq => 0x73,
            MemoryEntryId::PsDramdownDdr4StretchFreq => 0x74,
            MemoryEntryId::PlatformTuning => 0x75,
            MemoryEntryId::PmuBistVendorAlgorithm => 0xA1,
            MemoryEntryId::Ddr5RawCardConfig => 0xA2,
            MemoryEntryId::Ddr5TrainingOverride => 0xA4,
            MemoryEntryId::Unknown(x) => *x,
        }
    }

    pub fn to_i64(&self) -> (r: Option<i64>)
        ensures
            r == Some(self.spec_raw() as i64),
    {
        Some(self.to_u16() as i64)
    }

    pub fn to_u64(&self) -> (r: Option<u64>)
        ensures
            r == Some(self.spec_raw() as u64),
    {
        Some(self.to_u16() as u64)
    }
}

/// Decoding a raw MemoryEntryId identifier and encoding the result again gives back the same
/// raw identifier.
pub proof fn lemma_memory_entry_id_decode_then_raw(raw: u16)
    ensures
        MemoryEntryId::spec_decode(raw).spec_raw() == raw,
{
}

/// Encoding a canonical MemoryEntryId and decoding the raw identifier gives back the same value;
/// every raw identifier decodes to a canonical value.
pub proof fn lemma_memory_entry_id_raw_then_decode(id: MemoryEntryId, raw: u16)
    ensures
        id.spec_is_canonical() ==> MemoryEntryId::spec_decode(id.spec_raw()) == id,
        MemoryEntryId::spec_decode(raw).spec_is_canonical(),
{
}

/// Entry types of the GNB group.
#[derive(Debug, PartialEq, Eq, Clone, Copy, Structural)]
pub enum GnbEntryId {
    DefaultParameters,
    Parameters,
    EarlyPcieConfig,
    Unknown(u16),
}

impl GnbEntryId {
    /// The raw 16-bit identifier that stands for this value on disk.
    pub open spec fn spec_raw(self) -> u16 {
        match self {
            GnbEntryId::DefaultParameters => 0x9u16,
            GnbEntryId::Parameters => 0xAu16,
            GnbEntryId::EarlyPcieConfig => 0x1003u16,
            GnbEntryId::Unknown(x) => x,
        }
    }

    /// The value that a raw 16-bit identifier stands for.
    pub open spec fn spec_decode(raw: u16) -> GnbEntryId {
        match raw {
            0x9u16 => GnbEntryId::DefaultParameters,
            0xAu16 => GnbEntryId::Parameters,
            0x1003u16 => GnbEntryId::EarlyPcieConfig,
            _ => GnbEntryId::Unknown(raw),
        }
    }

    /// Whether RAW has a name of its own (is not decoded as `Unknown`).
    pub open spec fn spec_is_named_raw(raw: u16) -> bool {
        raw == 0x9u16
        || raw == 0xAu16
        || raw == 0x1003u16
    }

    /// Whether this is the value that its own raw identifier decodes to.
    pub open spec fn spec_is_canonical(self) -> bool {
        match self {
            GnbEntryId::Unknown(x) => !Self::spec_is_named_raw(x),
            _ => true,
        }
    }

    pub fn from_u64(value: u64) -> (r: Option<GnbEntryId>)
        ensures
            r == (if value < 0x1_0000 { Some(Self::spec_decode(value as u16)) } else { None }),
    {
        if value < 0x1_0000 {
            let raw: u16 = value as u16;
            Some(match raw {
                0x9 => GnbEntryId::DefaultParameters,
                0xA => GnbEntryId::Parameters,
                0x1003 => GnbEntryId::EarlyPcieConfig,
                x => GnbEntryId::Unknown(x),
            })
        } else {
            None
        }
    }

    pub fn from_i64(value: i64) -> (r: Option<GnbEntryId>)
        ensures
            r == (if 0 <= value < 0x1_0000 { Some(Self::spec_decode(value as u16)) } else { None }),
    {
        if value >= 0 {
            Self::from_u64(value as u64)
        } else {
            None
        }
    }

    pub fn to_u16(&self) -> (r: u16)
        ensures
            r == self.spec_raw(),
    {
        match self {
            GnbEntryId::DefaultParameters => 0x9,
            GnbEntryId::Parameters => 0xA,
            GnbEntryId::EarlyPcieConfig => 0x1003,
            GnbEntryId::Unknown(x) => *x,
        }
    }

    pub fn to_i64(&self) -> (r: Option<i64>)
        ensures
            r == Some(self.spec_raw() as i64),
    {
        Some(self.to_u16() as i64)
    }

    pub fn to_u64(&self) -> (r: Option<u64>)
        ensures
            r == Some(self.spec_raw() as u64),
    {
        Some(self.to_u16() as u64)
    }
}

/// Decoding a raw GnbEntryId identifier and encoding the result again gives back the same
/// raw identifier.
pub proof fn lemma_gnb_entry_id_decode_then_raw(raw: u16)
    ensures
        GnbEntryId::spec_decode(raw).spec_raw() == raw,
{
}

/// Encoding a canonical GnbEntryId and decoding the raw identifier gives back the same value;
/// every raw identifier decodes to a canonical value.
pub proof fn lemma_gnb_entry_id_raw_then_decode(id: GnbEntryId, raw: u16)
    ensures
        id.spec_is_canonical() ==> GnbEntryId::spec_decode(id.spec_raw()) == id,
        GnbEntryId::spec_decode(raw).spec_is_canonical(),
{
}

/// Entry types of the FCH group.
#[derive(Debug, PartialEq, Eq, Clone, Copy, Structural)]
pub enum FchEntryId {
    DefaultParameters,
    Parameters,
    EspiInit,
    EspiSioInit,
    Unknown(u16),
}

impl FchEntryId {
    /// The raw 16-bit identifier that stands for this value on disk.
    pub open spec fn spec_raw(self) -> u16 {
        match self {
            FchEntryId::DefaultParameters => 0xBu16,
            FchEntryId::Parameters => 0xCu16,
            FchEntryId::EspiInit => 0x2001u16,
            FchEntryId::EspiSioInit => 0x2005u16,
            FchEntryId::Unknown(x) => x,
        }
    }

    /// The value that a raw 16-bit identifier stands for.
    pub open spec fn spec_decode(raw: u16) -> FchEntryId {
        match raw {
            0xBu16 => FchEntryId::DefaultParameters,
            0xCu16 => FchEntryId::Parameters,
            0x2001u16 => FchEntryId::EspiInit,
            0x2005u16 => FchEntryId::EspiSioInit,
            _ => FchEntryId::Unknown(raw),
        }
    }

    /// Whether RAW has a name of its own (is not decoded as `Unknown`).
    pub open spec fn spec_is_named_raw(raw: u16) -> bool {
        raw == 0xBu16
        || raw == 0xCu16
        || raw == 0x2001u16
        || raw == 0x2005u16
    }

    /// Whether this is the value that its own raw identifier decodes to.
    pub open spec fn spec_is_canonical(self) -> bool {
        match self {
            FchEntryId::Unknown(x) => !Self::spec_is_named_raw(x),
            _ => true,
        }
    }

    pub fn from_u64(value: u64) -> (r: Option<FchEntryId>)
        ensures
            r == (if value < 0x1_0000 { Some(Self::spec_decode(value as u16)) } else { None }),
    {
        if value < 0x1_0000 {
            let raw: u16 = value as u16;
            Some(match raw {
                0xB => FchEntryId::DefaultParameters,
                0xC => FchEntryId::Parameters,
                0x2001 => FchEntryId::EspiInit,
                0x2005 => FchEntryId::EspiSioInit,
                x => FchEntryId::Unknown(x),
            })
        } else {
            None
        }
    }

    pub fn from_i64(value: i64) -> (r: Option<FchEntryId>)
        ensures
            r == (if 0 <= value < 0x1_0000 { Some(Self::spec_decode(value as u16)) } else { None }),
    {
        if value >= 0 {
            Self::from_u64(value as u64)
        } else {
            None
        }
    }

    pub fn to_u16(&self) -> (r: u16)
        ensures
            r == self.spec_raw(),
    {
        match self {
            FchEntryId::DefaultParameters => 0xB,
            FchEntryId::Parameters => 0xC,
            FchEntryId::EspiInit => 0x2001,
            FchEntryId::EspiSioInit => 0x2005,
            FchEntryId::Unknown(x) => *x,
        }
    }

    pub fn to_i64(&self) -> (r: Option<i64>)
        ensures
            r == Some(self.spec_raw() as i64),
    {
        Some(self.to_u16() as i64)
    }

    pub fn to_u64(&self) -> (r: Option<u64>)
        ensures
            r == Some(self.spec_raw() as u64),
    {
        Some(self.to_u16() as u64)
    }
}

/// Decoding a raw FchEntryId identifier and encoding the result again gives back the same
/// raw identifier.
pub proof fn lemma_fch_entry_id_decode_then_raw(raw: u16)
    ensures
        FchEntryId::spec_decode(raw).spec_raw() == raw,
{
}

/// Encoding a canonical FchEntryId and decoding the raw identifier gives back the same value;
/// every raw identifier decodes to a canonical value.
pub proof fn lemma_fch_entry_id_raw_then_decode(id: FchEntryId, raw: u16)
    ensures
        id.spec_is_canonical() ==> FchEntryId::spec_decode(id.spec_raw()) == id,
        FchEntryId::spec_decode(raw).spec_is_canonical(),
{
}

/// Entry types of the CBS group.
#[derive(Debug, PartialEq, Eq, Clone, Copy, Structural)]
pub enum CbsEntryId {
    DefaultParameters,
    Parameters,
    Unknown(u16),
}

impl CbsEntryId {
    /// The raw 16-bit identifier that stands for this value on disk.
    pub open spec fn spec_raw(self) -> u16 {
        match self {
            CbsEntryId::DefaultParameters => 0xDu16,
            CbsEntryId::Parameters => 0xEu16,
            CbsEntryId::Unknown(x) => x,
        }
    }

    /// The value that a raw 16-bit identifier stands for.
    pub open spec fn spec_decode(raw: u16) -> CbsEntryId {
        match raw {
            0xDu16 => CbsEntryId::DefaultParameters,
            0xEu16 => CbsEntryId::Parameters,
            _ => CbsEntryId::Unknown(raw),
        }
    }

    /// Whether RAW has a name of its own (is not decoded as `Unknown`).
    pub open spec fn spec_is_named_raw(raw: u16) -> bool {
        raw == 0xDu16
        || raw == 0xEu16
    }

    /// Whether this is the value that its own raw identifier decodes to.
    pub open spec fn spec_is_canonical(self) -> bool {
        match self {
            CbsEntryId::Unknown(x) => !Self::spec_is_named_raw(x),
            _ => true,
        }
    }

    pub fn from_u64(value: u64) -> (r: Option<CbsEntryId>)
        ensures
            r == (if value < 0x1_0000 { Some(Self::spec_decode(value as u16)) } else { None }),
    {
        if value < 0x1_0000 {
            let raw: u16 = value as u16;
            Some(match raw {
                0xD => CbsEntryId::DefaultParameters,
                0xE => CbsEntryId::Parameters,
                x => CbsEntryId::Unknown(x),
            })
        } else {
            None
        }
    }

    pub fn from_i64(value: i64) -> (r: Option<CbsEntryId>)
        ensures
            r == (if 0 <= value < 0x1_0000 { Some(Self::spec_decode(value as u16)) } else { None }),
    {
        if value >= 0 {
            Self::from_u64(value as u64)
        } else {
            None
        }
    }

    pub fn to_u16(&self) -> (r: u16)
        ensures
            r == self.spec_raw(),
    {
        match self {
            CbsEntryId::DefaultParameters => 0xD,
            CbsEntryId::Parameters => 0xE,
            CbsEntryId::Unknown(x) => *x,
        }
    }

    pub fn to_i64(&self) -> (r: Option<i64>)
        ensures
            r == Some(self.spec_raw() as i64),
    {
        Some(self.to_u16() as i64)
    }

    pub fn to_u64(&self) -> (r: Option<u64>)
        ensures
            r == Some(self.spec_raw() as u64),
    {
        Some(self.to_u16() as u64)
    }
}

/// Decoding a raw CbsEntryId identifier and encoding the result again gives back the same
/// raw identifier.
pub proof fn lemma_cbs_entry_id_decode_then_raw(raw: u16)
    ensures
        CbsEntryId::spec_decode(raw).spec_raw() == raw,
{
}

/// Encoding a canonical CbsEntryId and decoding the raw identifier gives back the same value;
/// every raw identifier decodes to a canonical value.
pub proof fn lemma_cbs_entry_id_raw_then_decode(id: CbsEntryId, raw: u16)
    ensures
        id.spec_is_canonical() ==> CbsEntryId::spec_decode(id.spec_raw()) == id,
        CbsEntryId::spec_decode(raw).spec_is_canonical(),
{
}

/// Entry types of the OEM group (none is known by name).
#[derive(Debug, PartialEq, Eq, Clone, Copy, Structural)]
pub enum OemEntryId {
    Unknown(u16),
}

impl OemEntryId {
    /// The raw 16-bit identifier that stands for this value on disk.
    pub open spec fn spec_raw(self) -> u16 {
        match self {
            OemEntryId::Unknown(x) => x,
        }
    }

    /// The value that a raw 16-bit identifier stands for.
    pub open spec fn spec_decode(raw: u16) -> OemEntryId {
        match raw {
            _ => OemEntryId::Unknown(raw),
        }
    }

    /// Whether RAW has a name of its own (is not decoded as `Unknown`).
    pub open spec fn spec_is_named_raw(raw: u16) -> bool {
        false
    }

    /// Whether this is the value that its own raw identifier decodes to.
    pub open spec fn spec_is_canonical(self) -> bool {
        true
    }

    pub fn from_u64(value: u64) -> (r: Option<OemEntryId>)
        ensures
            r == (if value < 0x1_0000 { Some(Self::spec_decode(value as u16)) } else { None }),
    {
        if value < 0x1_0000 {
            let raw: u16 = value as u16;
            Some(match raw {
                x => OemEntryId::Unknown(x),
            })
        } else {
            None
        }
    }

    pub fn from_i64(value: i64) -> (r: Option<OemEntryId>)
        ensures
            r == (if 0 <= value < 0x1_0000 { Some(Self::spec_decode(value as u16)) } else { None }),
    {
        if value >= 0 {
            Self::from_u64(value as u64)
        } else {
            None
        }
    }

    pub fn to_u16(&self) -> (r: u16)
        ensures
            r == self.spec_raw(),
    {
        match self {
            OemEntryId::Unknown(x) => *x,
        }
    }

    pub fn to_i64(&self) -> (r: Option<i64>)
        ensures
            r == Some(self.spec_raw() as i64),
    {
        Some(self.to_u16() as i64)
    }

    pub fn to_u64(&self) -> (r: Option<u64>)
        ensures
            r == Some(self.spec_raw() as u64),
    {
        Some(self.to_u16() as u64)
    }
}

/// Decoding a raw OemEntryId identifier and encoding the result again gives back the same
/// raw identifier.
pub proof fn lemma_oem_entry_id_decode_then_raw(raw: u16)
    ensures
        OemEntryId::spec_decode(raw).spec_raw() == raw,
{
}

/// Encoding a canonical OemEntryId and decoding the raw identifier gives back the same value;
/// every raw identifier decodes to a canonical value.
pub proof fn lemma_oem_entry_id_raw_then_decode(id: OemEntryId, raw: u16)
    ensures
        id.spec_is_canonical() ==> OemEntryId::spec_decode(id.spec_raw()) == id,
        OemEntryId::spec_decode(raw).spec_is_canonical(),
{
}

/// Entry types of a group that is not known by name.
#[derive(Debug, PartialEq, Eq, Clone, Copy, Structural)]
pub enum RawEntryId {
    Unknown(u16),
}

impl RawEntryId {
    /// The raw 16-bit identifier that stands for this value on disk.
    pub open spec fn spec_raw(self) -> u16 {
        match self {
            RawEntryId::Unknown(x) => x,
        }
    }

    /// The value that a raw 16-bit identifier stands for.
    pub open spec fn spec_decode(raw: u16) -> RawEntryId {
        match raw {
            _ => RawEntryId::Unknown(raw),
        }
    }

    /// Whether RAW has a name of its own (is not decoded as `Unknown`).
    pub open spec fn spec_is_named_raw(raw: u16) -> bool {
        false
    }

    /// Whether this is the value that its own raw identifier decodes to.
    pub open spec fn spec_is_canonical(self) -> bool {
        true
    }

    pub fn from_u64(value: u64) -> (r: Option<RawEntryId>)
        ensures
            r == (if value < 0x1_0000 { Some(Self::spec_decode(value as u16)) } else { None }),
    {
        if value < 0x1_0000 {
            let raw: u16 = value as u16;
            Some(match raw {
                x => RawEntryId::Unknown(x),
            })
        } else {
            None
        }
    }

    pub fn from_i64(value: i64) -> (r: Option<RawEntryId>)
        ensures
            r == (if 0 <= value < 0x1_0000 { Some(Self::spec_decode(value as u16)) } else { None }),
    {
        if value >= 0 {
            Self::from_u64(value as u64)
        } else {
            None
        }
    }

    pub fn to_u16(&self) -> (r: u16)
        ensures
            r == self.spec_raw(),
    {
        match self {
            RawEntryId::Unknown(x) => *x,
        }
    }

    pub fn to_i64(&self) -> (r: Option<i64>)
        ensures
            r == Some(self.spec_raw() as i64),
    {
        Some(self.to_u16() as i64)
    }

    pub fn to_u64(&self) -> (r: Option<u64>)
        ensures
            r == Some(self.spec_raw() as u64),
    {
        Some(self.to_u16() as u64)
    }
}

/// Decoding a raw RawEntryId identifier and encoding the result again gives back the same
/// raw identifier.
pub proof fn lemma_raw_entry_id_decode_then_raw(raw: u16)
    ensures
        RawEntryId::spec_decode(raw).spec_raw() == raw,
{
}

/// Encoding a canonical RawEntryId and decoding the raw identifier gives back the same value;
/// every raw identifier decodes to a canonical value.
pub proof fn lemma_raw_entry_id_raw_then_decode(id: RawEntryId, raw: u16)
    ensures
        id.spec_is_canonical() ==> RawEntryId::spec_decode(id.spec_raw()) == id,
        RawEntryId::spec_decode(raw).spec_is_canonical(),
{
}

/// Entry types of the token group: the width of the tokens inside.
#[derive(Debug, PartialEq, Eq, Clone, Copy, Structural)]
pub enum TokenEntryId {
    Bool,
    Byte,
    Word,
    Dword,
    Unknown(u16),
}

impl TokenEntryId {
    /// The raw 16-bit identifier that stands for this value on disk.
    pub open spec fn spec_raw(self) -> u16 {
        match self {
            TokenEntryId::Bool => 0x0u16,
            TokenEntryId::Byte => 0x1u16,
            TokenEntryId::Word => 0x2u16,
            TokenEntryId::Dword => 0x4u16,
            TokenEntryId::Unknown(x) => x,
        }
    }

    /// The value that a raw 16-bit identifier stands for.
    pub open spec fn spec_decode(raw: u16) -> TokenEntryId {
        match raw {
            0x0u16 => TokenEntryId::Bool,
            0x1u16 => TokenEntryId::Byte,
            0x2u16 => TokenEntryId::Word,
            0x4u16 => TokenEntryId::Dword,
            _ => TokenEntryId::Unknown(raw),
        }
    }

    /// Whether RAW has a name of its own (is not decoded as `Unknown`).
    pub open spec fn spec_is_named_raw(raw: u16) -> bool {
        raw == 0x0u16
        || raw == 0x1u16
        || raw == 0x2u16
        || raw == 0x4u16
    }

    /// Whether this is the value that its own raw identifier decodes to.
    pub open spec fn spec_is_canonical(self) -> bool {
        match self {
            TokenEntryId::Unknown(x) => !Self::spec_is_named_raw(x),
            _ => true,
        }
    }

    pub fn from_u64(value: u64) -> (r: Option<TokenEntryId>)
        ensures
            r == (if value < 0x1_0000 { Some(Self::spec_decode(value as u16)) } else { None }),
    {
        if value < 0x1_0000 {
            let raw: u16 = value as u16;
            Some(match raw {
                0x0 => TokenEntryId::Bool,
                0x1 => TokenEntryId::Byte,
                0x2 => TokenEntryId::Word,
                0x4 => TokenEntryId::Dword,
                x => TokenEntryId::Unknown(x),
            })
        } else {
            None
        }
    }

    pub fn from_i64(value: i64) -> (r: Option<TokenEntryId>)
        ensures
            r == (if 0 <= value < 0x1_0000 { Some(Self::spec_decode(value as u16)) } else { None }),
    {
        if value >= 0 {
            Self::from_u64(value as u64)
        } else {
            None
        }
    }

    pub fn to_u16(&self) -> (r: u16)
        ensures
            r == self.spec_raw(),
    {
        match self {
            TokenEntryId::Bool => 0x0,
            TokenEntryId::Byte => 0x1,
            TokenEntryId::Word => 0x2,
            TokenEntryId::Dword => 0x4,
            TokenEntryId::Unknown(x) => *x,
        }
    }

    pub fn to_i64(&self) -> (r: Option<i64>)
        ensures
            r == Some(self.spec_raw() as i64),
    {
        Some(self.to_u16() as i64)
    }

    pub fn to_u64(&self) -> (r: Option<u64>)
        ensures
            r == Some(self.spec_raw() as u64),
    {
        Some(self.to_u16() as u64)
    }
}

/// Decoding a raw TokenEntryId identifier and encoding the result again gives back the same
/// raw identifier.
pub proof fn lemma_token_entry_id_decode_then_raw(raw: u16)
    ensures
        TokenEntryId::spec_decode(raw).spec_raw() == raw,
{
}

/// Encoding a canonical TokenEntryId and decoding the raw identifier gives back the same value;
/// every raw identifier decodes to a canonical value.
pub proof fn lemma_token_entry_id_raw_then_decode(id: TokenEntryId, raw: u16)
    ensures
        id.spec_is_canonical() ==> TokenEntryId::spec_decode(id.spec_raw()) == id,
        TokenEntryId::spec_decode(raw).spec_is_canonical(),
{
}

/// An entry type together with the group it belongs to.
#[derive(Debug, PartialEq, Eq, Clone, Copy, Structural)]
pub enum EntryId {
    Psp(PspEntryId),
    Ccx(CcxEntryId),
    Df(DfEntryId),
    Memory(MemoryEntryId),
    Gnb(GnbEntryId),
    Fch(FchEntryId),
    Cbs(CbsEntryId),
    Oem(OemEntryId),
    Token(TokenEntryId),
    Unknown(u16, RawEntryId),
}

impl EntryId {
    /// The group that this entry type belongs to.
    pub open spec fn spec_group_id(self) -> GroupId {
        match self {
            EntryId::Psp(_) => GroupId::Psp,
            EntryId::Ccx(_) => GroupId::Ccx,
            EntryId::Df(_) => GroupId::Df,
            EntryId::Memory(_) => GroupId::Memory,
            EntryId::Gnb(_) => GroupId::Gnb,
            EntryId::Fch(_) => GroupId::Fch,
            EntryId::Cbs(_) => GroupId::Cbs,
            EntryId::Oem(_) => GroupId::Oem,
            EntryId::Token(_) => GroupId::Token,
            EntryId::Unknown(x, _) => GroupId::Unknown(x),
        }
    }

    /// The raw type identifier of the entry, within its group.
    pub open spec fn spec_type_id(self) -> u16 {
        match self {
            EntryId::Psp(x) => x.spec_raw(),
            EntryId::Ccx(x) => x.spec_raw(),
            EntryId::Df(x) => x.spec_raw(),
            EntryId::Memory(x) => x.spec_raw(),
            EntryId::Gnb(x) => x.spec_raw(),
            EntryId::Fch(x) => x.spec_raw(),
            EntryId::Cbs(x) => x.spec_raw(),
            EntryId::Oem(x) => x.spec_raw(),
            EntryId::Token(x) => x.spec_raw(),
            EntryId::Unknown(_, x) => x.spec_raw(),
        }
    }

    /// The entry type that the raw group identifier and the raw type identifier stand for.
    pub open spec fn spec_decode(group_id: u16, type_id: u16) -> EntryId {
        match GroupId::spec_decode(group_id) {
            GroupId::Psp => EntryId::Psp(PspEntryId::spec_decode(type_id)),
            GroupId::Ccx => EntryId::Ccx(CcxEntryId::spec_decode(type_id)),
            GroupId::Df => EntryId::Df(DfEntryId::spec_decode(type_id)),
            GroupId::Memory => EntryId::Memory(MemoryEntryId::spec_decode(type_id)),
            GroupId::Gnb => EntryId::Gnb(GnbEntryId::spec_decode(type_id)),
            GroupId::Fch => EntryId::Fch(FchEntryId::spec_decode(type_id)),
            GroupId::Cbs => EntryId::Cbs(CbsEntryId::spec_decode(type_id)),
            GroupId::Oem => EntryId::Oem(OemEntryId::spec_decode(type_id)),
            GroupId::Token => EntryId::Token(TokenEntryId::spec_decode(type_id)),
            GroupId::Unknown(x) => EntryId::Unknown(x, RawEntryId::spec_decode(type_id)),
        }
    }

    /// Whether the group and the type are each the value that their raw identifiers
    /// decode to.
    pub open spec fn spec_is_canonical(self) -> bool {
        &&& self.spec_group_id().spec_is_canonical()
        &&& match self {
            EntryId::Psp(x) => x.spec_is_canonical(),
            EntryId::Ccx(x) => x.spec_is_canonical(),
            EntryId::Df(x) => x.spec_is_canonical(),
            EntryId::Memory(x) => x.spec_is_canonical(),
            EntryId::Gnb(x) => x.spec_is_canonical(),
            EntryId::Fch(x) => x.spec_is_canonical(),
            EntryId::Cbs(x) => x.spec_is_canonical(),
            EntryId::Oem(x) => x.spec_is_canonical(),
            EntryId::Token(x) => x.spec_is_canonical(),
            EntryId::Unknown(_, x) => x.spec_is_canonical(),
        }
    }

    pub fn group_id(&self) -> (r: GroupId)
        ensures
            r == self.spec_group_id(),
    {
        match self {
            EntryId::Psp(_) => GroupId::Psp,
            EntryId::Ccx(_) => GroupId::Ccx,
            EntryId::Df(_) => GroupId::Df,
            EntryId::Memory(_) => GroupId::Memory,
            EntryId::Gnb(_) => GroupId::Gnb,
            EntryId::Fch(_) => GroupId::Fch,
            EntryId::Cbs(_) => GroupId::Cbs,
            EntryId::Oem(_) => GroupId::Oem,
            EntryId::Token(_) => GroupId::Token,
            EntryId::Unknown(x, _) => GroupId::Unknown(*x),
        }
    }

    pub fn type_id(&self) -> (r: u16)
        ensures
            r == self.spec_type_id(),
    {
        match self {
            EntryId::Psp(x) => x.to_u16(),
            EntryId::Ccx(x) => x.to_u16(),
            EntryId::Df(x) => x.to_u16(),
            EntryId::Memory(x) => x.to_u16(),
            EntryId::Gnb(x) => x.to_u16(),
            EntryId::Fch(x) => x.to_u16(),
            EntryId::Cbs(x) => x.to_u16(),
            EntryId::Oem(x) => x.to_u16(),
            EntryId::Token(x) => x.to_u16(),
            EntryId::Unknown(_, x) => x.to_u16(),
        }
    }

    pub fn decode(group_id: u16, type_id: u16) -> (r: EntryId)
        ensures
            r == EntryId::spec_decode(group_id, type_id),
    {
        let t: u64 = type_id as u64;
        match GroupId::from_u64(group_id as u64).unwrap() {
            GroupId::Psp => EntryId::Psp(PspEntryId::from_u64(t).unwrap()),
            GroupId::Ccx => EntryId::Ccx(CcxEntryId::from_u64(t).unwrap()),
            GroupId::Df => EntryId::Df(DfEntryId::from_u64(t).unwrap()),
            GroupId::Memory => EntryId::Memory(MemoryEntryId::from_u64(t).unwrap()),
            GroupId::Gnb => EntryId::Gnb(GnbEntryId::from_u64(t).unwrap()),
            GroupId::Fch => EntryId::Fch(FchEntryId::from_u64(t).unwrap()),
            GroupId::Cbs => EntryId::Cbs(CbsEntryId::from_u64(t).unwrap()),
            GroupId::Oem => EntryId::Oem(OemEntryId::from_u64(t).unwrap()),
            GroupId::Token => EntryId::Token(TokenEntryId::from_u64(t).unwrap()),
            GroupId::Unknown(x) => EntryId::Unknown(x, RawEntryId::from_u64(t).unwrap()),
        }
    }
}

/// Decoding a pair of raw identifiers and reading the group and the type back gives
/// the same pair of raw identifiers.
pub proof fn lemma_entry_id_decode_then_raw(group_id: u16, type_id: u16)
    ensures
        EntryId::spec_decode(group_id, type_id).spec_group_id().spec_raw() == group_id,
        EntryId::spec_decode(group_id, type_id).spec_type_id() == type_id,
        EntryId::spec_decode(group_id, type_id).spec_is_canonical(),
{
}

/// Reading the raw identifiers of a canonical entry type and decoding them gives back
/// the same entry type.
pub proof fn lemma_entry_id_raw_then_decode(id: EntryId)
    requires
        id.spec_is_canonical(),
    ensures
        EntryId::spec_decode(id.spec_group_id().spec_raw(), id.spec_type_id()) == id,
{
}

} // verus!
