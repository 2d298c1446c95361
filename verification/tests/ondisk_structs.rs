use amd_apcb::ondisk::df::{SlinkConfig, SlinkRegion, SlinkRegionInterleavingSize};
use amd_apcb::ondisk::fch::EspiInit;
use amd_apcb::ondisk::memory::platform_specific_override::{
    ChannelIds, DimmSlots, ElementRef, LvDimmForce1V5, MutElementRef, SocketIds,
};
use amd_apcb::ondisk::memory::{
    AblBreakpointControl, AblConsoleOutControl, ConsoleOutControl, Ddr5CaPinMapElement, Ddr5TrainingOverride40Element,
    Ddr5TrainingOverrideEntryHeaderChannelSelectorMask, Ddr5TrainingOverrideEntryHeaderFlagsMemClkMask, Ddr4DataBusElement,
    DdrDqPinMapElement, DimmInfoSmbusElement, ErrorOutControl112, ErrorOutControl116, ErrorOutControlBeepCode,
    ErrorOutControlBeepCodePeakAttr, ExtVoltageControl, Gpio, LrMaxFreqElement, LrdimmDdr4CadBusElement, MaxFreqElement,
    MemDfeSearchElement32, MemDfeSearchElement36, MemDfeSearchElementHeader12, MemDfeSearchElementPayload12,
    MemDfeSearchElementPayloadExt12, NaplesAblConsoleOutControl, NaplesConsoleOutControl, RdimmDdr4CadBusElement,
    RdimmDdr5BusElement, RdimmDdr5BusElementHeader, RdimmDdr5BusElementPayload, UdimmDdr4CadBusElement,
};
use amd_apcb::ondisk::psp::{BoardIdGettingMethodEeprom, BoardIdGettingMethodGpio, IdApcbMapping, IdRevApcbMapping};
use amd_apcb::ondisk::{
    put_header_into_collection, take_header_from_collection, ByteLayout, MemMbistDataEyeType, ENTRY_ALIGNMENT, ENTRY_HEADER, GROUP_HEADER, V2_HEADER,
    V3_HEADER_EXT,
};
use amd_apcb::types::Error;
use four_cc::FourCC;

#[test]
fn test_df_structs() {
    assert!(<SlinkConfig as ByteLayout>::size() == 16 * 4);
    assert!(<SlinkRegion as ByteLayout>::size() == 16);
    let mut region = SlinkRegion::dummy(0x5a);
    region.set_alignment(0xa1);
    region.set_phys_nbio_map(0xc3);
    region.set_interleaving(SlinkRegionInterleavingSize::Auto);
    let bytes = region.to_bytes();
    // The offsets of alignment, socket, phys_nbio_map and interleaving.
    assert!(bytes[8] == 0xa1);
    assert!(bytes[9] == 0x5a);
    assert!(bytes[10] == 0xc3);
    assert!(bytes[11] == 7);
}

#[test]
fn test_df_struct_accessors() {
    let slink_config = SlinkConfig::new([
        SlinkRegion::dummy(0),
        SlinkRegion::dummy(0),
        SlinkRegion::dummy(1),
        SlinkRegion::dummy(1),
    ]);
    assert!(slink_config.regions[0].socket == 0);
    assert!(slink_config.regions[1].socket == 0);
    assert!(slink_config.regions[2].socket == 1);
    assert!(slink_config.regions[3].socket == 1);
}

#[test]
fn test_memory_structs() {
    assert!(<DimmInfoSmbusElement as ByteLayout>::size() == 8);
    assert!(<AblConsoleOutControl as ByteLayout>::size() == 16);
    assert!(<ConsoleOutControl as ByteLayout>::size() == 20);
    assert!(<NaplesAblConsoleOutControl as ByteLayout>::size() == 16);
    assert!(<NaplesConsoleOutControl as ByteLayout>::size() == 20);
    assert!(<ExtVoltageControl as ByteLayout>::size() == 32);
    assert!(<RdimmDdr4CadBusElement as ByteLayout>::size() == 36);
    assert!(<UdimmDdr4CadBusElement as ByteLayout>::size() == 36);
    assert!(<LrdimmDdr4CadBusElement as ByteLayout>::size() == 36);
    assert!(<Ddr4DataBusElement as ByteLayout>::size() == 52);
    assert!(<MaxFreqElement as ByteLayout>::size() == 16);
    assert!(<LrMaxFreqElement as ByteLayout>::size() == 16);
    assert!(<Gpio as ByteLayout>::size() == 3);
    assert!(<ErrorOutControlBeepCode as ByteLayout>::size() == 8);
    assert!(ErrorOutControlBeepCodePeakAttr::new().into_raw().to_le_bytes().len() == 4);
    // The beep code table starts at 44, the heart beat flag is at 108 and the power-good
    // GPIO at 110 (in the layout of 116 bytes).
    let e116 = ErrorOutControl116::default().to_bytes();
    assert!(e116[44] == 0xff && e116[45] == 0x3f);
    assert!(e116[108] == 1);
    let mut e = ErrorOutControl116::default();
    e.set_power_good_gpio(Some(Gpio::new(0x77, 0x88, 0x99)));
    let e116 = e.to_bytes();
    assert!(e116[110] == 0x77 && e116[111] == 0x88 && e116[112] == 0x99);
    assert!(<ErrorOutControl116 as ByteLayout>::size() == 116);
    // The same at 40, 104 and 106 (in the layout of 112 bytes).
    let e112 = ErrorOutControl112::default().to_bytes();
    assert!(e112[40] == 0xff && e112[41] == 0x3f);
    assert!(e112[104] == 1);
    let mut e = ErrorOutControl112::default();
    e.set_power_good_gpio(Some(Gpio::new(0x77, 0x88, 0x99)));
    let e112 = e.to_bytes();
    assert!(e112[106] == 0x77 && e112[107] == 0x88 && e112[108] == 0x99);
    assert!(<ErrorOutControl112 as ByteLayout>::size() == 112);
    assert!(<DdrDqPinMapElement as ByteLayout>::size() == 64);
    assert!(<Ddr5CaPinMapElement as ByteLayout>::size() == 28);
    assert!(<RdimmDdr5BusElementHeader as ByteLayout>::size() == 12);
    assert!(<RdimmDdr5BusElementPayload as ByteLayout>::size() == 124);
    assert!(<RdimmDdr5BusElement as ByteLayout>::size() == 12 + 124);
    assert!(<MemDfeSearchElementHeader12 as ByteLayout>::size() == 12);
    assert!(<MemDfeSearchElementPayload12 as ByteLayout>::size() == 12);
    assert!(<MemDfeSearchElementPayloadExt12 as ByteLayout>::size() == 12);
    assert!(<MemDfeSearchElement36 as ByteLayout>::size() == 36);
    // The payload starts at 12 and the payload extension at 24; both begin with their size, 12.
    let dfe36 = MemDfeSearchElement36::default().to_bytes();
    assert!(dfe36[12] == 12 && dfe36[24] == 12);
    // In the element of 32 bytes, the payload starts at 8.
    let dfe32 = MemDfeSearchElement32::default().to_bytes();
    assert!(dfe32[8] == 12);
    assert!(<MemDfeSearchElement32 as ByteLayout>::size() == 32);
}

#[test]
fn test_memory_struct_accessors() {
    let dimm_info = DimmInfoSmbusElement::new_slot(1, 2, 3, 4, Some(5), Some(6), Some(7)).unwrap();
    assert!(dimm_info.dimm_slot_present().unwrap());
    assert!(dimm_info.socket_id().unwrap() == 1);
    assert!(dimm_info.channel_id().unwrap() == 2);
    assert!(dimm_info.dimm_id().unwrap() == 3);
    assert!(dimm_info.dimm_smbus_address() == Some(4));
    assert!(dimm_info.i2c_mux_address() == Some(5));
    assert!(dimm_info.mux_control_address() == Some(6));
    assert!(dimm_info.mux_channel() == Some(7));
    let dimm_info = DimmInfoSmbusElement::new_slot(1, 2, 3, 4, Some(5), Some(6), Some(7)).unwrap();
    assert!(dimm_info.dimm_slot_present().unwrap());
    let dimm_info_2 = DimmInfoSmbusElement::new_soldered_down(1, 2, 3, 4, Some(5), Some(6), Some(7)).unwrap();
    assert!(!dimm_info_2.dimm_slot_present().unwrap());
    let mut abl_console_out_control = AblConsoleOutControl::default();
    abl_console_out_control.set_enable_mem_setreg_logging(true);
    assert!(abl_console_out_control.enable_mem_setreg_logging().unwrap());
    abl_console_out_control.set_enable_mem_setreg_logging(false);
    assert!(!abl_console_out_control.enable_mem_setreg_logging().unwrap());
    let console_out_control = ConsoleOutControl::new(abl_console_out_control, AblBreakpointControl::default());
    assert!(console_out_control.abl_console_out_control.abl_console_port().unwrap() == 0x80);
}

#[test]
fn test_platform_specific_overrides() {
    let lvdimm = LvDimmForce1V5::new(SocketIds::all(), ChannelIds::Any, DimmSlots::Any);
    let tag: Option<ElementRef<'_>> = Some((&lvdimm).into());
    match tag {
        Some(ElementRef::LvDimmForce1V5(_item)) => {},
        _ => {
            assert!(false);
        },
    }
}

#[test]
fn test_platform_specific_overrides_mut() {
    let mut lvdimm = LvDimmForce1V5::new(SocketIds::all(), ChannelIds::Any, DimmSlots::Any);
    let tag: Option<MutElementRef<'_>> = Some((&mut lvdimm).into());
    match tag {
        Some(MutElementRef::LvDimmForce1V5(ref _item)) => {},
        _ => {
            assert!(false);
        },
    }
}

#[test]
fn test_getters_with_invalid_data() {
    let mut data = [2u8; 16];
    let mut buf = &data[..];
    let mut header = take_header_from_collection::<AblConsoleOutControl>(&mut buf).unwrap();
    match header.enable_console_logging() {
        Err(Error::EntryTypeMismatch) => {},
        _ => {
            panic!("Should not be reached");
        },
    }
    header.set_enable_console_logging(true);
    assert!(header.enable_console_logging().unwrap());
    assert!(put_header_into_collection(&mut data[..], &header));
    assert_eq!(data[0], 1);
    header.set_enable_console_logging(false);
    assert!(!header.enable_console_logging().unwrap());
    assert!(put_header_into_collection(&mut data[..], &header));
    assert_eq!(data[0], 0);
    let mut buf = &data[..];
    let header = take_header_from_collection::<AblConsoleOutControl>(&mut buf).unwrap();
    assert!(!header.enable_console_logging().unwrap());
}

#[test]
fn test_i4() {
    let mut entry = Ddr5TrainingOverride40Element::builder()
        .with_selected_mem_clks(Ddr5TrainingOverrideEntryHeaderFlagsMemClkMask::builder().with_ddr4800(true).build())
        .with_selected_channels(
            Ddr5TrainingOverrideEntryHeaderChannelSelectorMask::builder().with_c_0(true).with_c_11(true).build(),
        )
        .with_write_dq_delay_offset(5)
        .build();
    assert!(entry.selected_mem_clks().unwrap().ddr4800());
    assert!(!entry.selected_mem_clks().unwrap().ddr5600());
    assert_eq!(entry.read_dq_delay_offset().unwrap(), 0);
    assert_eq!(entry.read_dq_vref_offset().unwrap(), 0);
    assert_eq!(entry.write_dq_delay_offset().unwrap(), 5);
    assert_eq!(entry.write_dq_vref_offset().unwrap(), 0);
    entry.set_write_dq_vref_offset(1);
    assert_eq!(entry.write_dq_vref_offset().unwrap(), 1);
    entry.set_write_dq_vref_offset(7);
    assert_eq!(entry.write_dq_vref_offset().unwrap(), 7);
    entry.set_write_dq_vref_offset(-1);
    assert_eq!(entry.write_dq_vref_offset().unwrap(), -1);
    entry.set_write_dq_vref_offset(-8);
    assert_eq!(entry.write_dq_vref_offset().unwrap(), -8);
}

#[test]
fn ondisk_test_struct_sizes() {
    // The ESPI initialization settings: offsets of each field, by writing a marker there.
    let mut espi = EspiInit::default();
    espi.set_espi_enabled(true);
    espi.set_irq_mask(0x1234_5678);
    espi.set_irq_polarity(0x9abc_def0);
    espi.set_cputemp_rtctime_vw_enabled(true);
    espi.set_cputemp_rtctime_vw_index_select(0x42);
    espi.set_cpu_temp_mmio_base(Some(0x1111_2222));
    espi.set_rtc_time_mmio_base(Some(0x3333_4444));
    espi.set_bus_master_enabled(true);
    let bytes = espi.to_bytes();
    assert!(bytes[0] == 1);
    assert!(bytes[88] == 0x78);
    assert!(bytes[92] == 0xf0);
    assert!(bytes[96] == 1);
    assert!(bytes[97] == 0x42);
    assert!(bytes[100] == 0x22);
    assert!(bytes[104] == 0x44);
    assert!(bytes[108] == 1);
    assert!(<EspiInit as ByteLayout>::size() == 112);
    // The headers.
    assert!(<V2_HEADER as ByteLayout>::size() == 32);
    assert!(<V2_HEADER as ByteLayout>::size() + <V3_HEADER_EXT as ByteLayout>::size() == 128);
    assert!(<V2_HEADER as ByteLayout>::size() % ENTRY_ALIGNMENT == 0);
    assert!(<GROUP_HEADER as ByteLayout>::size() == 16);
    assert!(<GROUP_HEADER as ByteLayout>::size() % ENTRY_ALIGNMENT == 0);
    assert!(<ENTRY_HEADER as ByteLayout>::size() == 16);
    assert!(<ENTRY_HEADER as ByteLayout>::size() % ENTRY_ALIGNMENT == 0);
}

#[test]
fn test_psp_structs() {
    assert!(<IdApcbMapping as ByteLayout>::size() == 3);
    assert!(<BoardIdGettingMethodGpio as ByteLayout>::size() == 14);
    assert!(<IdRevApcbMapping as ByteLayout>::size() == 4);
    assert!(<BoardIdGettingMethodEeprom as ByteLayout>::size() == 10);
}

#[test]
#[allow(deprecated)]
fn test_volate() {
    assert!(MemMbistDataEyeType::_1dVolate == MemMbistDataEyeType::_1dVoltage);
}

#[test]
fn test_four_cc() {
    assert!(std::mem::size_of::<FourCC>() == 4);
    assert!(FourCC(*b"APCB").0 == [0x41, 0x50, 0x43, 0x42]);
}
