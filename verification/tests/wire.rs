use ecat::error::{Error, SubDeviceState};
use ecat::mbx::SdoReply;
use ecat::pdo::{PdoConfig, PdoMapping, PdoObject};
use ecat::preop::SendRecvIo;
use ecat::request::{CoeRequest, SubIndex};
use ecat::reset::{clear_target, ClearTarget, RESET_STEPS};
use ecat::sdo::{payload, SdoKind, SdoValue};
use ecat::subdevice::{DeviceName, SubDevice};
use ecat::wire::{
    read_u16, read_u32, read_u64, AlControl, CategoryType, DefaultMailbox, Fmmu, FmmuUsage,
    PduHeader, Ports, SiiControl, SiiGeneral, SmStatus, SupportFlags, SyncManager,
    SyncManagerType,
};
use ecat::SendCtx;

#[test]
fn header_splits_the_command_word() {
    let header = PduHeader { command_code: 4, index: 9, command_raw: 0x0110_1001 };
    assert_eq!(header.register(), 0x0110);
    assert_eq!(header.address(), 0x1001);
}

#[test]
fn little_endian_reads() {
    let bytes = [0x01, 0x02, 0x03, 0x04, 0x05, 0x06, 0x07, 0x08, 0x09];
    assert_eq!(read_u16(&bytes, 0), Ok(0x0201));
    assert_eq!(read_u16(&bytes, 7), Ok(0x0908));
    assert_eq!(read_u16(&bytes, 8), Err(Error::WireCodec));
    assert_eq!(read_u16(&bytes, 100), Err(Error::WireCodec));
    assert_eq!(read_u32(&bytes, 1), Ok(0x0504_0302));
    assert_eq!(read_u32(&bytes, 6), Err(Error::WireCodec));
    assert_eq!(read_u64(&bytes, 1), Ok(0x0908_0706_0504_0302));
    assert_eq!(read_u64(&bytes, 2), Err(Error::WireCodec));
}

#[test]
fn al_control_decodes_state_and_error() {
    assert_eq!(
        AlControl::decode(&[0x04 | 0x10, 0x00]),
        Ok(AlControl { state: SubDeviceState::SafeOp, error: true })
    );
    assert_eq!(
        AlControl::decode(&[0x08, 0x00]),
        Ok(AlControl { state: SubDeviceState::Op, error: false })
    );
    assert_eq!(AlControl::decode(&[0x01, 0]).unwrap().state, SubDeviceState::Init);
    assert_eq!(AlControl::decode(&[0x02, 0]).unwrap().state, SubDeviceState::PreOp);
    assert_eq!(AlControl::decode(&[0x03, 0]).unwrap().state, SubDeviceState::Bootstrap);
    assert_eq!(AlControl::decode(&[0x00, 0]).unwrap().state, SubDeviceState::NoState);
    assert_eq!(AlControl::decode(&[0x05, 0]).unwrap().state, SubDeviceState::Other(5));
    assert_eq!(AlControl::decode(&[0x04 | 0x10]), Err(Error::WireCodec));
}

#[test]
fn sii_control_decodes_busy_and_read_size() {
    assert_eq!(
        SiiControl::decode(&[0b0100_0001, 0b1000_0000]),
        Ok(SiiControl { busy: true, read_len: 8 })
    );
    assert_eq!(SiiControl::decode(&[0x00, 0x00]), Ok(SiiControl { busy: false, read_len: 4 }));
    assert_eq!(SiiControl::decode(&[0x00]), Err(Error::WireCodec));
}

#[test]
fn sync_manager_status_decodes_the_mailbox_flag() {
    assert_eq!(SmStatus::decode(&[0x08]), Ok(SmStatus { mailbox_full: true }));
    assert_eq!(SmStatus::decode(&[0xf7]), Ok(SmStatus { mailbox_full: false }));
    assert_eq!(SmStatus::decode(&[]), Err(Error::WireCodec));
}

#[test]
fn fmmu_entry_decodes() {
    let raw = [
        0x00, 0x00, 0x01, 0x00, 0x0c, 0x00, 0x00, 0x07, 0x00, 0x14, 0x00, 0x01, 0x01, 0x00, 0x00,
        0x00,
    ];
    assert_eq!(
        Fmmu::decode(&raw),
        Ok(Fmmu {
            logical_start_address: 0x0001_0000,
            length_bytes: 12,
            logical_start_bit: 0,
            logical_end_bit: 7,
            physical_start_address: 0x1400,
            physical_start_bit: 0,
            read_enable: true,
            write_enable: false,
            enable: true,
        })
    );
    assert_eq!(Fmmu::decode(&raw[..15]), Err(Error::WireCodec));
    assert_eq!(Fmmu::decode(&[0; 16]).unwrap().enable, false);
}

#[test]
fn sync_manager_record_decodes() {
    let mailbox_write = SyncManager::decode(&[0x00, 0x10, 0x80, 0x00, 0x26, 0, 0x01, 0x01]).unwrap();
    assert_eq!(mailbox_write.start_addr, 0x1000);
    assert_eq!(mailbox_write.length, 0x0080);
    assert_eq!(mailbox_write.usage_type(), SyncManagerType::MailboxWrite);
    let untyped = SyncManager::decode(&[0x00, 0x14, 0x00, 0x00, 0x20, 0, 0x01, 0x00]).unwrap();
    assert_eq!(untyped.usage, SyncManagerType::Unknown);
    assert_eq!(untyped.usage_type(), SyncManagerType::ProcessDataRead);
    let outputs = SyncManager::decode(&[0, 0, 0, 0, 0x24, 0, 0x01, 0x00]).unwrap();
    assert_eq!(outputs.usage_type(), SyncManagerType::ProcessDataWrite);
    let mailbox_read = SyncManager::decode(&[0, 0, 0, 0, 0x22, 0, 0x01, 0x09]).unwrap();
    assert_eq!(mailbox_read.usage_type(), SyncManagerType::MailboxRead);
    assert_eq!(SyncManager::decode(&[0, 0, 0, 0, 0, 0, 0x10, 0]), Err(Error::WireCodec));
    assert_eq!(SyncManager::decode(&[0; 7]), Err(Error::WireCodec));
    assert_eq!(SyncManagerType::from_u8(3), SyncManagerType::ProcessDataWrite);
}

#[test]
fn fmmu_usage_decodes() {
    assert_eq!(FmmuUsage::decode(&[0x00]), Ok(FmmuUsage::Unused));
    assert_eq!(FmmuUsage::decode(&[0xff]), Ok(FmmuUsage::Unused));
    assert_eq!(FmmuUsage::decode(&[0x01]), Ok(FmmuUsage::Outputs));
    assert_eq!(FmmuUsage::decode(&[0x02]), Ok(FmmuUsage::Inputs));
    assert_eq!(FmmuUsage::decode(&[0x03]), Ok(FmmuUsage::SyncManagerStatus));
    assert_eq!(FmmuUsage::decode(&[0x04]), Err(Error::WireCodec));
    assert_eq!(FmmuUsage::decode(&[]), Err(Error::WireCodec));
}

#[test]
fn category_types_by_number() {
    assert_eq!(CategoryType::from_u16(0), CategoryType::Nop);
    assert_eq!(CategoryType::from_u16(1), CategoryType::DeviceSpecific);
    assert_eq!(CategoryType::from_u16(9), CategoryType::DeviceSpecific);
    assert_eq!(CategoryType::from_u16(10), CategoryType::Strings);
    assert_eq!(CategoryType::from_u16(30), CategoryType::General);
    assert_eq!(CategoryType::from_u16(40), CategoryType::Fmmu);
    assert_eq!(CategoryType::from_u16(41), CategoryType::SyncManager);
    assert_eq!(CategoryType::from_u16(60), CategoryType::DistributedClock);
    assert_eq!(CategoryType::from_u16(0xffff), CategoryType::End);
    assert_eq!(CategoryType::from_u16(1234), CategoryType::Nop);
}

#[test]
fn general_category_decodes() {
    let mut raw = [0u8; 18];
    raw[3] = 2;
    raw[5] = 0x21;
    let general = SiiGeneral::decode(&raw).unwrap();
    assert_eq!(general.name_string_idx, 2);
    assert!(general.complete_access());
    raw[5] = 0x01;
    assert!(!SiiGeneral::decode(&raw).unwrap().complete_access());
    raw[5] = 0x40;
    assert_eq!(SiiGeneral::decode(&raw), Err(Error::WireCodec));
    raw[5] = 0;
    raw[11] = 0x20;
    assert_eq!(SiiGeneral::decode(&raw), Err(Error::WireCodec));
    assert_eq!(SiiGeneral::decode(&[0; 17]), Err(Error::WireCodec));
}

#[test]
fn default_mailbox_decodes() {
    let raw = [0x00, 0x10, 0x80, 0x00, 0x80, 0x10, 0x40, 0x00, 0x04, 0x00];
    assert_eq!(
        DefaultMailbox::decode(&raw),
        Ok(DefaultMailbox {
            subdevice_receive_offset: 0x1000,
            subdevice_receive_size: 0x0080,
            subdevice_send_offset: 0x1080,
            subdevice_send_size: 0x0040,
            supported_protocols: 0x04,
        })
    );
    assert_eq!(DefaultMailbox::decode(&raw[..9]), Err(Error::WireCodec));
    let mut bad = raw;
    bad[8] = 0x80;
    assert_eq!(DefaultMailbox::decode(&bad), Err(Error::WireCodec));
}

#[test]
fn support_flags_and_ports_decode() {
    assert!(SupportFlags::decode(&[0x04, 0x00]).unwrap().dc_supported());
    assert!(!SupportFlags::decode(&[0xfb, 0xff]).unwrap().dc_supported());
    assert_eq!(SupportFlags::decode(&[0x04]), Err(Error::WireCodec));
    let ports = Ports::from_dl_status(&[0b1001_0000, 0]).unwrap();
    assert!(ports.active0);
    assert!(!ports.active1);
    assert!(!ports.active2);
    assert!(ports.active3);
    assert_eq!(Ports::from_dl_status(&[0x10]), Err(Error::WireCodec));
    let mut times = Vec::new();
    for t in [1u32, 2, 3, 4] {
        times.extend_from_slice(&t.to_le_bytes());
    }
    let timed = ports.with_receive_times(&times).unwrap();
    assert_eq!((timed.time0, timed.time1, timed.time2, timed.time3), (1, 2, 3, 4));
    assert!(timed.active3);
    assert_eq!(ports.with_receive_times(&times[..15]), Err(Error::WireCodec));
}

#[test]
fn pdo_object_word_and_length() {
    assert_eq!(PdoObject::new(0x6041, 0, 16), PdoObject(0x6041_0010));
    assert_eq!(PdoObject::new(0x6064, 3, 32), PdoObject(0x6064_0320));
    assert_eq!(PdoObject::new(0x6041, 0, 16).len_bytes(), 2);
    assert_eq!(PdoObject::new(0x6060, 0, 8).len_bytes(), 1);
    assert_eq!(PdoObject::new(0x6060, 0, 1).len_bytes(), 1);
    assert_eq!(PdoObject::new(0x6060, 0, 9).len_bytes(), 2);
    assert_eq!(PdoObject::new(0x6060, 0, 0).len_bytes(), 0);
    assert_eq!(PdoObject::new(0x6060, 0, 255).len_bytes(), 32);
}

#[test]
fn pdo_mapping_length_is_the_sum() {
    let mapping = PdoMapping::new(
        0x1a00,
        vec![
            PdoObject::new(0x6041, 0, 16),
            PdoObject::new(0x6064, 0, 32),
            PdoObject::new(0x606c, 0, 32),
            PdoObject::new(0x6077, 0, 16),
        ],
    )
    .unwrap();
    assert_eq!(mapping.len_bytes(), 12);
    assert_eq!(mapping.index(), 0x1a00);
    assert_eq!(mapping.count(), 4);
    assert_eq!(mapping.object(1), Some(PdoObject(0x6064_0020)));
    assert_eq!(mapping.object(4), None);
    assert_eq!(PdoMapping::new(0x1600, Vec::new()).unwrap().len_bytes(), 0);
}

#[test]
fn too_many_entries_are_refused() {
    let many = vec![PdoObject::new(0x6000, 0, 8); 255];
    assert!(matches!(PdoMapping::new(0x1a00, many), Err(Error::Capacity)));
    let most = vec![PdoObject::new(0x6000, 0, 8); 254];
    assert_eq!(PdoMapping::new(0x1a00, most).unwrap().len_bytes(), 254);
    let mut mappings = Vec::new();
    for _ in 0..255 {
        mappings.push(PdoMapping::new(0x1a00, Vec::new()).unwrap());
    }
    assert!(matches!(PdoConfig::new(mappings, Vec::new()), Err(Error::Capacity)));
    let config = PdoConfig::new(Vec::new(), vec![PdoMapping::new(0x1600, Vec::new()).unwrap()])
        .unwrap();
    assert_eq!(config.count(false), 0);
    assert_eq!(config.count(true), 1);
    assert_eq!(config.mapping(true, 0).unwrap().index(), 0x1600);
    assert!(config.mapping(false, 0).is_none());
}

#[test]
fn io_layout_lengths() {
    let io = SendRecvIo::new(12, 20).unwrap();
    assert_eq!(io.input_len(), 12);
    assert_eq!(io.output_len(), 8);
    assert!(SendRecvIo::new(20, 12).is_none());
    let empty = SendRecvIo::new(0, 0).unwrap();
    assert_eq!(empty.input_len(), 0);
    assert_eq!(empty.output_len(), 0);
    let ctx = SendCtx::new(io);
    assert_eq!(ctx.send_bytes, vec![0u8; 20]);
    assert_eq!(ctx.input_offset, 12);
}

#[test]
fn mailbox_counter_runs_from_one_to_seven() {
    let mut device = SubDevice::new(0x1000, 0);
    let mut seen = Vec::new();
    for _ in 0..9 {
        seen.push(device.mailbox_counter());
    }
    assert_eq!(seen, vec![1, 2, 3, 4, 5, 6, 7, 1, 2]);
    assert_eq!(device.configured_address(), 0x1000);
}

#[test]
fn device_name_must_be_utf8() {
    let mut bytes = [0u8; 64];
    bytes[..4].copy_from_slice(b"EK11");
    let name = DeviceName::from_bytes(bytes, 4).unwrap();
    assert_eq!(name.len, 4);
    assert_eq!(&name.bytes[..4], b"EK11");
    bytes[1] = 0xff;
    assert!(DeviceName::from_bytes(bytes, 4).is_none());
    assert!(DeviceName::from_bytes(bytes, 1).is_some());
    let long = DeviceName::from_bytes([b'a'; 64], 200).unwrap();
    assert_eq!(long.len, 64);
    bytes[1] = 0xc3;
    bytes[2] = 0xa9;
    assert!(DeviceName::from_bytes(bytes, 3).is_some());
    assert!(DeviceName::from_bytes(bytes, 2).is_none());
}

#[test]
fn expedited_values_round_trip() {
    for value in [SdoValue::U8(0xab), SdoValue::U16(0x1a00), SdoValue::U32(0x6041_0010)] {
        let packed = value.pack();
        let len = value.len();
        assert_eq!(SdoValue::unpack(&packed[..usize::from(len)], len), Some(value));
    }
    assert_eq!(SdoValue::U16(0x1a00).pack(), [0x00, 0x1a, 0, 0]);
    assert_eq!(SdoValue::U32(0x6041_0010).pack(), [0x10, 0x00, 0x41, 0x60]);
    assert_eq!(SdoValue::U8(7).pack(), [7, 0, 0, 0]);
    assert_eq!(SdoValue::unpack(&[1, 2, 3], 3), None);
    assert_eq!(SdoValue::unpack(&[1, 2], 4), None);
    assert_eq!(SdoValue::unpack(&[0x34, 0x12], 2), Some(SdoValue::U16(0x1234)));
}

#[test]
fn signed_values_travel_in_twos_complement() {
    assert_eq!(SdoValue::I8(-1).pack(), [0xff, 0, 0, 0]);
    assert_eq!(SdoValue::I8(-128).pack(), [0x80, 0, 0, 0]);
    assert_eq!(SdoValue::I8(127).pack(), [0x7f, 0, 0, 0]);
    assert_eq!(SdoValue::I16(-2).pack(), [0xfe, 0xff, 0, 0]);
    assert_eq!(SdoValue::I16(i16::MIN).pack(), [0x00, 0x80, 0, 0]);
    assert_eq!(SdoValue::I32(-25000).pack(), (-25000i32).to_le_bytes());
    assert_eq!(SdoValue::I32(i32::MIN).pack(), [0, 0, 0, 0x80]);
    assert_eq!(SdoValue::I32(i32::MAX).pack(), [0xff, 0xff, 0xff, 0x7f]);
    let values = [
        SdoValue::U8(0xab),
        SdoValue::U16(0x1a00),
        SdoValue::U32(0x6041_0010),
        SdoValue::I8(-7),
        SdoValue::I8(7),
        SdoValue::I16(-300),
        SdoValue::I16(300),
        SdoValue::I32(-25000),
        SdoValue::I32(25000),
        SdoValue::I32(i32::MIN),
    ];
    for value in values {
        let packed = value.pack();
        let len = usize::from(value.len());
        assert_eq!(value.kind().len(), value.len());
        assert_eq!(SdoValue::read(&packed[..len], value.kind()), Some(value));
    }
    assert_eq!(SdoValue::read(&[0xfe, 0xff], SdoKind::I16), Some(SdoValue::I16(-2)));
    assert_eq!(SdoValue::read(&[0xfe, 0xff], SdoKind::U16), Some(SdoValue::U16(0xfffe)));
    assert_eq!(SdoValue::read(&[0xfe, 0xff], SdoKind::I32), None);
    assert_eq!(SdoValue::read(&[0xfe], SdoKind::I16), None);
    assert_eq!(SdoValue::read(&[0x80], SdoKind::I8), Some(SdoValue::I8(-128)));
}

fn upload(index: u16, sub_index: SubIndex) -> CoeRequest {
    CoeRequest { download: false, counter: 1, index, sub_index, data: [0; 4], len: 0 }
}

#[test]
fn sdo_reply_headers_are_checked() {
    let request = upload(0x6041, SubIndex::Index(0));
    let expedited = [
        0x0a, 0, 0, 0, 0, 0x13, 0x00, 0x30, 0x4b, 0x41, 0x60, 0x00, 0x37, 0x02, 0, 0,
    ];
    let reply = SdoReply::parse(&expedited, &request).unwrap();
    assert_eq!(reply, SdoReply { length: 10, expedited: true, size: 2 });
    assert_eq!(payload(&reply, &expedited), Ok((12, 2)));
    assert_eq!(SdoValue::unpack(&expedited[12..14], 2), Some(SdoValue::U16(0x0237)));
    assert_eq!(SdoReply::parse(&expedited[..11], &request), Err(Error::WireCodec));
    let mut abort = expedited;
    abort[8] = 0x80;
    assert_eq!(SdoReply::parse(&abort, &request), Err(Error::WireCodec));
    let mut emergency = expedited;
    emergency[7] = 0x10;
    assert_eq!(SdoReply::parse(&emergency, &request), Err(Error::WireCodec));
    let mut other_type = expedited;
    other_type[5] = 0x12;
    assert_eq!(SdoReply::parse(&other_type, &request), Err(Error::WireCodec));
    assert_eq!(
        SdoReply::parse(&expedited, &upload(0x6042, SubIndex::Index(0))),
        Err(Error::WireCodec)
    );
    assert_eq!(
        SdoReply::parse(&expedited, &upload(0x6041, SubIndex::Index(1))),
        Err(Error::WireCodec)
    );
}

#[test]
fn normal_sdo_reply_sizes_must_agree() {
    let reply = SdoReply { length: 14, expedited: false, size: 0 };
    let mut data = vec![0u8; 12];
    data.extend_from_slice(&[4, 0, 0, 0, 1, 2, 3, 4]);
    assert_eq!(payload(&reply, &data), Ok((16, 4)));
    let mut too_big = data.clone();
    too_big[12] = 9;
    assert_eq!(payload(&reply, &too_big), Err(Error::WireCodec));
    let mut too_small = data.clone();
    too_small[12] = 3;
    assert_eq!(payload(&reply, &too_small), Err(Error::WireCodec));
    assert_eq!(payload(&reply, &data[..15]), Err(Error::WireCodec));
    assert_eq!(payload(&reply, &data[..11]), Err(Error::WireCodec));
    let whole = SdoReply { length: 10, expedited: true, size: 0 };
    assert_eq!(payload(&whole, &data), Ok((12, 4)));
    assert_eq!(payload(&whole, &data[..15]), Err(Error::WireCodec));
}

#[test]
fn clear_list_entries() {
    assert_eq!(clear_target(0), Some(ClearTarget { register: 0x0120, len: 2, value: 0x0011 }));
    assert_eq!(clear_target(1), Some(ClearTarget { register: 0x0600, len: 16, value: 0 }));
    assert_eq!(clear_target(16), Some(ClearTarget { register: 0x06f0, len: 16, value: 0 }));
    assert_eq!(clear_target(17), Some(ClearTarget { register: 0x0800, len: 8, value: 0 }));
    assert_eq!(clear_target(32), Some(ClearTarget { register: 0x0878, len: 8, value: 0 }));
    assert_eq!(clear_target(37), Some(ClearTarget { register: 0x0981, len: 1, value: 0 }));
    assert_eq!(clear_target(41), Some(ClearTarget { register: 0x0934, len: 2, value: 0x0c00 }));
    assert_eq!(clear_target(42), Some(ClearTarget { register: 0x0930, len: 2, value: 0x1000 }));
    assert_eq!(clear_target(RESET_STEPS), None);
    assert_eq!(clear_target(255), None);
}
