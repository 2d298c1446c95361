use amd_apcb::ondisk::fch::{EspiInit, EspiInitIoRange};
use amd_apcb::ondisk::gnb::{EarlyPcieConfigBody, EarlyPcieConfigElement};
use amd_apcb::ondisk::memory::platform_specific_override::{
    ChannelIds, CkeTristateMap, DimmSlots, ElementRef, LvDimmForce1V5, MutElementRef, SocketIds,
};
use amd_apcb::ondisk::memory::platform_tuning::ElementRef as TuningElementRef;
use amd_apcb::ondisk::memory::{
    ConsoleOutControl, DimmInfoSmbusElement, NaplesConsoleOutControl, DdrPostPackageRepairBody, DdrPostPackageRepairElement, DdrRates, Ddr4DataBusElement, Ddr4DimmRanks, DimmsPerChannel,
    ErrorOutControlBeepCode, ErrorOutControlBeepCodeErrorType, ErrorOutControlBeepCodePeakAttr, RdimmDdr4CadBusElement,
    RttNom, RttWr, VrefDq, VrefDqRange1, VrefDqRange2,
};
use amd_apcb::ondisk::collection::SequenceElementFromBytes;
use amd_apcb::ondisk::EntryCompatible;
use amd_apcb::ondisk::psp::{BoardIdGettingMethodCustom, BoardIdGettingMethodGpio, BoardIdGettingMethodSmbus, BoardIdGettingMethodEeprom, IdApcbMapping, IdRevApcbMapping, RevAndFeatureValue};
use amd_apcb::ondisk::{
    put_header_into_collection, take_body_from_collection, take_body_from_collection_mut, take_header_from_collection, ByteLayout, EntryId, FchConsoleOutMode, GroupId,
    MemoryEntryId, Parameter, ParameterAttributes, Parameters, ParametersIter,
};
use amd_apcb::types::Error;

fn attributes(time_point: u8, token: u16, size_minus_one: u8) -> ParameterAttributes {
    ParameterAttributes::new().with_time_point(time_point).with_token(token).with_size_minus_one(size_minus_one)
}

#[test]
fn parameters_written_are_read_back() {
    let source = vec![
        Parameter::new(&attributes(1, 0x10, 1), 0x1234).unwrap(),
        Parameter::new(&attributes(2, 0x1ffe, 7), 0x0102_0304_0506_0708).unwrap(),
        Parameter::new(&attributes(3, 0x20, 0), 0xab).unwrap(),
        Parameter::new(&ParameterAttributes::terminator(), 0xff).unwrap(),
    ];
    let bytes = Parameters::new_tail_from_vec(source.clone()).unwrap();
    // Attributes words: time point, token << 8, (size - 1) << 21; then the values.
    assert_eq!(&bytes[0..4], &[0x01, 0x10, 0x20, 0x00]);
    assert_eq!(&bytes[4..8], &[0x02, 0xfe, 0xff, 0x00]);
    assert_eq!(&bytes[12..16], &[0x00, 0xff, 0x1f, 0x00]);
    assert_eq!(&bytes[16..18], &[0x34, 0x12]);
    assert_eq!(&bytes[18..26], &[0x08, 0x07, 0x06, 0x05, 0x04, 0x03, 0x02, 0x01]);
    assert_eq!(bytes.len(), 16 + 2 + 8 + 1 + 1);
    let mut it = ParametersIter::new(&bytes).unwrap();
    for expected in &source[0..3] {
        let p = it.next().unwrap();
        assert_eq!(p.time_point().unwrap(), expected.time_point().unwrap());
        assert_eq!(p.token().unwrap(), expected.token().unwrap());
        assert_eq!(p.value_size().unwrap(), expected.value_size().unwrap());
        assert_eq!(p.value().unwrap(), expected.value().unwrap());
    }
    assert!(it.next().is_none());
}

#[test]
fn parameters_errors() {
    let mut odd = Parameter::default();
    odd.set_value_size(3);
    assert_eq!(Parameters::new_tail_from_vec(vec![odd]).unwrap_err(), Error::EntryTypeMismatch);
    assert_eq!(ParametersIter::new(&[1, 2]).err().unwrap(), Error::ParameterRange);
    // A word with a reserved bit set is rejected.
    assert_eq!(ParametersIter::new(&[0, 0, 0, 1]).err().unwrap(), Error::ParameterRange);
}

#[test]
fn entry_ids_decode() {
    assert_eq!(GroupId::from_u64(0x1704), Some(GroupId::Memory));
    assert_eq!(GroupId::Memory.to_u64(), Some(0x1704));
    let id = EntryId::decode(0x1704, 0x40);
    assert_eq!(id, EntryId::Memory(MemoryEntryId::PlatformSpecificOverride));
    assert_eq!(id.group_id(), GroupId::Memory);
    assert_eq!(id.type_id(), 0x40);
}

#[test]
fn collection_items_and_bodies() {
    let data = [1u8, 0, 0, 0, 2, 0, 0, 0, 9];
    let mut buf = &data[..];
    assert_eq!(take_header_from_collection::<u32>(&mut buf), Some(1));
    assert_eq!(buf.len(), 5);
    let body = take_body_from_collection(&mut buf, 3, 4).unwrap();
    assert_eq!(body, &[2, 0, 0]);
    // One byte of padding follows the body of three bytes.
    assert_eq!(buf, &[9]);
    assert_eq!(take_header_from_collection::<u32>(&mut buf), None);
    assert_eq!(buf, &[9]);
}

#[test]
fn mutable_collection_bodies() {
    let mut data = [1u8, 2, 3, 4, 5, 6, 7];
    {
        let mut buf = &mut data[..];
        let body = take_body_from_collection_mut(&mut buf, 3, 2).unwrap();
        assert_eq!(body, &[1, 2, 3]);
        body[0] = 0x10;
        // One byte of padding follows the body of three bytes.
        assert_eq!(buf, &[5, 6, 7]);
        assert!(take_body_from_collection_mut(&mut buf, 4, 2).is_none());
        assert_eq!(buf, &[5, 6, 7]);
        let last = take_body_from_collection_mut(&mut buf, 3, 4).unwrap();
        last[2] = 0x70;
        // Too few bytes are left for the padding: the rest stays.
        assert!(buf.is_empty());
    }
    assert_eq!(data, [0x10, 2, 3, 4, 5, 6, 0x70]);
}

#[test]
fn writes_through_a_mutable_element_reach_the_override() {
    let mut lvdimm = LvDimmForce1V5::new(SocketIds::all(), ChannelIds::Any, DimmSlots::Any);
    let replacement = LvDimmForce1V5::new(SocketIds::all(), ChannelIds::from_u64(1).unwrap(), DimmSlots::Any);
    assert_ne!(lvdimm.to_bytes(), replacement.to_bytes());
    match MutElementRef::from(&mut lvdimm) {
        MutElementRef::LvDimmForce1V5(item) => *item = replacement,
        _ => panic!("expected an LvDimmForce1V5 override"),
    }
    assert_eq!(lvdimm.to_bytes(), replacement.to_bytes());
    let mut raw = [1u8, 2, 3];
    if let MutElementRef::Unknown(bytes) = MutElementRef::Unknown(&mut raw[..]) {
        bytes[1] = 9;
    }
    assert_eq!(raw, [1, 9, 3]);
}

#[test]
fn platform_specific_overrides_are_parsed() {
    let cke = CkeTristateMap::new(SocketIds::all(), ChannelIds::Any, DimmSlots::Any, [1, 2, 3, 4]).unwrap();
    let mut bytes = cke.to_bytes();
    assert_eq!(&bytes[0..2], &[1, 7]);
    bytes.push(0);
    bytes.extend_from_slice(&[99, 1, 0xaa]);
    let entry_id = EntryId::Memory(MemoryEntryId::PlatformSpecificOverride);
    let mut world = &bytes[..];
    match ElementRef::checked_from_bytes(entry_id, &mut world).unwrap() {
        ElementRef::CkeTristateMap(x) => assert_eq!(x.connections, [1, 2, 3, 4]),
        _ => panic!("expected a CKE tristate map"),
    }
    match ElementRef::checked_from_bytes(entry_id, &mut world).unwrap() {
        ElementRef::Unknown(padding) => assert_eq!(padding, &[0]),
        _ => panic!("expected padding"),
    }
    match ElementRef::checked_from_bytes(entry_id, &mut world).unwrap() {
        ElementRef::Unknown(raw) => assert_eq!(raw, &[99, 1, 0xaa]),
        _ => panic!("expected an unknown element"),
    }
    assert!(world.is_empty());
    assert_eq!(ElementRef::checked_from_bytes(entry_id, &mut world).err().unwrap(), Error::EntryTypeMismatch);
    // A known type whose body is cut short.
    let short = [1u8, 7, 0xff];
    let mut world = &short[..];
    assert_eq!(ElementRef::checked_from_bytes(entry_id, &mut world).err().unwrap(), Error::EntryTypeMismatch);
    assert!(world.is_empty());
}

#[test]
fn platform_tuning_terminator_is_parsed() {
    let bytes = [0xefu8, 0xfe, 5];
    let mut world = &bytes[..];
    let entry_id = EntryId::Memory(MemoryEntryId::PlatformTuning);
    match TuningElementRef::checked_from_bytes(entry_id, &mut world).unwrap() {
        TuningElementRef::Terminator(t) => assert_eq!(t.type_().unwrap(), 0xfeef),
        _ => panic!("expected the terminator"),
    }
    assert_eq!(world, &[5]);
}

#[test]
fn vref_dq_numbers() {
    assert_eq!(VrefDq::Range2(VrefDqRange2::_45_65P).to_u64(), Some(0x41));
    assert_eq!(VrefDq::from_u64(0x41), Some(VrefDq::Range2(VrefDqRange2::_45_65P)));
    assert_eq!(VrefDq::from_u64(0x17), Some(VrefDq::Range1(VrefDqRange1::_74_95P)));
    assert_eq!(VrefDq::from_u64(0x33), None);
    assert_eq!(VrefDq::from_u64(0x80), None);
}

#[test]
fn dimms_per_channel_numbers() {
    assert_eq!(DimmsPerChannel::from_u64(0xf0), Some(DimmsPerChannel::NoSlot));
    assert_eq!(DimmsPerChannel::from_u64(0xff), Some(DimmsPerChannel::DontCare));
    assert_eq!(DimmsPerChannel::from_u64(3).unwrap().to_u64(), Some(3));
    assert_eq!(DimmsPerChannel::from_u64(0x10), None);
    assert_eq!(ChannelIds::from_u64(0xff), Some(ChannelIds::Any));
    assert_eq!(ChannelIds::from_u64(0x100), None);
    assert_eq!(DimmSlots::from_u64(0x10), None);
}

#[test]
fn bus_elements() {
    let ranks = Ddr4DimmRanks::new().with_dual_rank(true);
    let rates = DdrRates::new().with_ddr3200(true);
    assert_eq!(rates.into_raw(), 1 << 24);
    assert_eq!(
        RdimmDdr4CadBusElement::new(1, rates, ranks, ranks, 0x100_0000).err().unwrap(),
        Error::EntryTypeMismatch
    );
    let cad = RdimmDdr4CadBusElement::new(1, rates, ranks, ranks, 0x12_3456).unwrap();
    assert_eq!(cad.address_command_control().unwrap(), 0x12_3456);
    assert_eq!(cad.dimm0_ranks().unwrap().into_raw(), 4);
    let data = Ddr4DataBusElement::new(
        1,
        rates,
        ranks,
        ranks,
        RttNom::_60Ohm,
        RttWr::Off,
        RttNom::_48Ohm,
        91,
        VrefDq::Range1(VrefDqRange1::_74_95P),
    )
    .unwrap();
    let bytes = data.to_bytes();
    // The reference voltage is stored little-endian in the last four bytes.
    assert_eq!(&bytes[48..52], &[23, 0, 0, 0]);
    assert_eq!(data.rtt_park().unwrap(), RttNom::_48Ohm);
}

#[test]
fn beep_codes() {
    let attr = ErrorOutControlBeepCodePeakAttr::new().with_peak_count(20);
    let mut beep = ErrorOutControlBeepCode::new(ErrorOutControlBeepCodeErrorType::Memory, 2, attr);
    assert_eq!(&beep.to_bytes()[0..2], &[0xff, 0x4f]);
    assert_eq!(beep.error_type().unwrap(), ErrorOutControlBeepCodeErrorType::Memory);
    beep.set_error_type(ErrorOutControlBeepCodeErrorType::Unknown);
    assert_eq!(&beep.to_bytes()[0..2], &[0xff, 0xff]);
    assert_eq!(beep.peak_attr().unwrap().peak_count(), 20);
}

#[test]
fn post_package_repair() {
    let invalid = DdrPostPackageRepairElement::invalid();
    assert!(invalid.body().is_none());
    assert_eq!(invalid.to_bytes(), vec![0, 0, 0, 0, 0, 0, 0, 0xff]);
    let body = DdrPostPackageRepairBody::new().with_valid(true).with_row(0x2_0001).with_bank(3);
    let mut element = DdrPostPackageRepairElement::default();
    element.set_body(Some(body));
    let back = element.body().unwrap();
    assert_eq!(back.row(), 0x2_0001);
    assert_eq!(back.bank(), 3);
    assert!(back.valid());
    let mut b = DdrPostPackageRepairBody::new();
    b.set_device_width(None);
    assert_eq!(b.device_width(), None);
    b.set_device_width(Some(8));
    assert_eq!(b.device_width(), Some(8));
}

#[test]
fn early_pcie_config_default() {
    let element = EarlyPcieConfigElement::default();
    assert_eq!(element.to_bytes(), vec![0xff, 0xff, 0x1c, 0x00, 0xff, 0xff, 0x00, 0x00]);
    let body = element.body().unwrap();
    assert_eq!(body.into_raw(), EarlyPcieConfigBody::default().into_raw());
    assert_eq!(body.start_lane(), 0xff);
    assert!(body.port_present());
}

#[test]
fn espi_ranges() {
    let mut espi = EspiInit::default();
    assert_eq!(espi.io_range(16).err().unwrap(), Error::EntryRange);
    assert_eq!(espi.io_range(0).unwrap(), None);
    espi.set_io_range(2, Some(EspiInitIoRange { base: 0x3f8, size: 8 }));
    assert_eq!(espi.io_range(2).unwrap(), Some(EspiInitIoRange { base: 0x3f8, size: 8 }));
    assert_eq!(espi.mmio_range(5).err().unwrap(), Error::EntryRange);
    assert_eq!(espi.io_range_count(), 16);
    assert_eq!(espi.mmio_range_count(), 5);
}

#[test]
fn psp_mappings() {
    assert_eq!(IdApcbMapping::new(0x80, 1, 3).board_instance_mask().unwrap(), 8);
    assert_eq!(IdApcbMapping::new(0x80, 1, 16).board_instance_mask().err().unwrap(), Error::EntryTypeMismatch);
    assert!(IdRevApcbMapping::new(0x80, 1, RevAndFeatureValue::Value(0xff), 0).is_err());
    let m = IdRevApcbMapping::new(0x80, 1, RevAndFeatureValue::NotApplicable, 0).unwrap();
    assert_eq!(m.rev_and_feature_value().unwrap(), RevAndFeatureValue::NotApplicable);
    let eeprom = BoardIdGettingMethodEeprom::new(0x1234, 0xa0, 1, 2);
    assert_eq!(&eeprom.to_bytes()[0..4], &[2, 0, 0x34, 0x12]);
}

#[test]
fn console_out_mode_names() {
    assert_eq!(FchConsoleOutMode::from_name(b"Enabled"), Some(FchConsoleOutMode::Enabled));
    assert_eq!(FchConsoleOutMode::from_name(b"Disabled"), Some(FchConsoleOutMode::Disabled));
    assert_eq!(FchConsoleOutMode::from_name(b"enabled"), None);
    assert_eq!(FchConsoleOutMode::from_u64(1), Some(FchConsoleOutMode::Enabled));
    assert_eq!(FchConsoleOutMode::from_u64(2), None);
}

#[test]
fn dimm_info_has_an_address_or_an_index() {
    let slot = DimmInfoSmbusElement::new_slot(0, 1, 0, 0xa2, None, None, None).unwrap();
    assert_eq!(slot.dimm_smbus_address(), Some(0xa2));
    assert_eq!(slot.dimm_spd_info_index(), None);
    assert_eq!(slot.to_bytes()[4], 0xa2);
    assert_ne!(slot.to_bytes()[0], 0);
    let soldered = DimmInfoSmbusElement::new_soldered_down(0, 1, 0, 3, None, None, None).unwrap();
    assert_eq!(soldered.dimm_smbus_address(), None);
    assert_eq!(soldered.dimm_spd_info_index(), Some(3));
    assert_eq!(soldered.to_bytes()[0], 0);
    assert_eq!(soldered.to_bytes()[4], 3);
}

#[test]
fn console_out_control_layouts() {
    let id = EntryId::Memory(MemoryEntryId::ConsoleOutControl);
    let newer = ConsoleOutControl::default().to_bytes();
    let naples = NaplesConsoleOutControl::default().to_bytes();
    assert_eq!(newer.len(), 20);
    assert!(ConsoleOutControl::is_entry_compatible(id, &newer));
    assert!(!NaplesConsoleOutControl::is_entry_compatible(id, &newer));
    assert!(NaplesConsoleOutControl::is_entry_compatible(id, &naples));
    assert!(!ConsoleOutControl::is_entry_compatible(id, &naples));
    assert!(!ConsoleOutControl::is_entry_compatible(id, &newer[..19]));
    assert!(!ConsoleOutControl::is_entry_compatible(EntryId::Memory(MemoryEntryId::PlatformTuning), &newer));
}

#[test]
fn beep_code_error_type_in_bytes() {
    let attr = ErrorOutControlBeepCodePeakAttr::new().with_peak_count(3);
    let mut beep = ErrorOutControlBeepCode::new(ErrorOutControlBeepCodeErrorType::Df, 0x1234, attr);
    let before = beep.to_bytes();
    beep.set_error_type(ErrorOutControlBeepCodeErrorType::Psp);
    let after = beep.to_bytes();
    assert_eq!(beep.error_type().unwrap(), ErrorOutControlBeepCodeErrorType::Psp);
    let raw = |b: &[u8]| u16::from_le_bytes([b[0], b[1]]);
    assert_eq!(raw(&after) & 0x0fff, raw(&before) & 0x0fff);
    assert_eq!(&after[2..8], &before[2..8]);
}

#[test]
fn post_package_repair_set_then_get() {
    let mut element = DdrPostPackageRepairElement::default();
    let invalid_body = DdrPostPackageRepairBody::new().with_row(7);
    element.set_body(Some(invalid_body));
    assert!(element.body().is_none());
    let valid_body = invalid_body.with_valid(true);
    element.set_body(Some(valid_body));
    assert_eq!(element.body().unwrap().into_raw(), valid_body.into_raw());
    element.set_body(None);
    assert!(element.body().is_none());
    assert_eq!(element.to_bytes(), DdrPostPackageRepairElement::invalid().to_bytes());
    assert_eq!(element.to_bytes(), vec![0, 0, 0, 0, 0, 0, 0, 0xff]);
}

#[test]
fn board_id_methods_exclude_each_other() {
    let id = EntryId::Psp(amd_apcb::ondisk::PspEntryId::BoardIdGettingMethod);
    let custom = BoardIdGettingMethodCustom::new(0x55).to_bytes();
    assert!(BoardIdGettingMethodCustom::is_entry_compatible(id, &custom));
    assert!(!BoardIdGettingMethodGpio::is_entry_compatible(id, &custom));
    assert!(!BoardIdGettingMethodEeprom::is_entry_compatible(id, &custom));
    assert!(!BoardIdGettingMethodSmbus::is_entry_compatible(id, &custom));
    assert!(BoardIdGettingMethodEeprom::is_entry_compatible(id, &[2, 0]));
    assert!(!BoardIdGettingMethodCustom::is_entry_compatible(id, &[15]));
}

#[test]
fn espi_range_setters_keep_the_other_settings() {
    let mut espi = EspiInit::default();
    espi.set_espi_enabled(true);
    espi.set_bus_master_enabled(true);
    let before = espi.to_bytes();
    espi.set_io_range(3, Some(EspiInitIoRange { base: 0x2f8, size: 8 }));
    let after = espi.to_bytes();
    for (i, (a, b)) in before.iter().zip(after.iter()).enumerate() {
        if i != 10 + 3 && i != 26 + 2 * 3 && i != 27 + 2 * 3 {
            assert_eq!(a, b, "byte {} changed", i);
        }
    }
    assert!(espi.espi_enabled().unwrap());
    assert!(espi.bus_master_enabled().unwrap());
    espi.set_io_range(16, None);
    assert_eq!(espi.to_bytes(), after);
}

#[test]
fn short_collections_are_not_advanced() {
    let data = [1u8, 2];
    let mut buf = &data[..];
    // Too short for the body: nothing is taken, whatever the alignment.
    assert!(take_body_from_collection(&mut buf, 3, 0).is_none());
    assert_eq!(buf, &[1, 2]);
    let mut short = [9u8, 9, 9];
    assert!(!put_header_into_collection(&mut short[..], &0x0403_0201u32));
    assert_eq!(short, [9, 9, 9]);
    let mut long = [9u8; 6];
    assert!(put_header_into_collection(&mut long[..], &0x0403_0201u32));
    assert_eq!(long, [1, 2, 3, 4, 9, 9]);
}
