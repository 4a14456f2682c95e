use std::collections::VecDeque;

use ecat::error::{Error, SubDeviceState};
use ecat::pdo::{PdoConfig, PdoMapping, PdoObject};
use ecat::request::{Pdu, Request, SubIndex};
use ecat::state::InitState;
use ecat::subdevice::{PdiSegment, SubDevice};
use ecat::user::{ControlFlow, DeviceResponse, UserDevice, UserFailure};
use ecat::wire::{Fmmu, PduHeader};

/// One emulated sub-device: an EEPROM image, a mailbox that answers SDO
/// services, and a record of what was written to it.
struct Emulated {
    eeprom: Vec<u8>,
    sii_address: u16,
    reply: Option<Vec<u8>>,
    downloads: Vec<(u16, u8, u32)>,
    fmmus: Vec<(u8, Fmmu)>,
    sync_frames: usize,
    cycles: usize,
    drop_first_dl_status: bool,
}

fn put(image: &mut Vec<u8>, at: usize, bytes: &[u8]) {
    if image.len() < at + bytes.len() {
        image.resize(at + bytes.len(), 0);
    }
    image[at..at + bytes.len()].copy_from_slice(bytes);
}

fn eeprom_image() -> Vec<u8> {
    eeprom_image_with(1, &[1, 4, b'T', b'E', b'S', b'T'])
}

/// An EEPROM whose general category names string `name_idx` of the table
/// `strings`, which holds an even number of bytes.
fn eeprom_image_with(name_idx: u8, strings: &[u8]) -> Vec<u8> {
    eeprom_image_of(name_idx, strings, &[0x02, 0x01], 0)
}

/// An EEPROM with the FMMU usages `usages`, an even number of them, and with
/// `spare` unused sync managers behind the usual four.
fn eeprom_image_of(name_idx: u8, strings: &[u8], usages: &[u8], spare: usize) -> Vec<u8> {
    assert_eq!(strings.len() % 2, 0);
    assert_eq!(usages.len() % 2, 0);
    let mut image = vec![0u8; 0x80];
    // Identity at word 0x0008.
    put(&mut image, 0x10, &[0x02, 0, 0, 0, 0x78, 0x56, 0x34, 0x12, 1, 0, 0, 0, 42, 0, 0, 0]);
    // Default mailbox layout at word 0x0018.
    put(&mut image, 0x30, &[0x00, 0x10, 0x80, 0x00, 0x80, 0x10, 0x80, 0x00, 0x04, 0x00]);
    let mut categories: Vec<u8> = Vec::new();
    // General: the name's string, CoE with SDO and complete access.
    categories.extend_from_slice(&[30, 0, 9, 0]);
    categories.extend_from_slice(&[0, 0, 0, name_idx, 0, 0x21, 0, 0, 0, 0, 0, 0, 0, 0, 0, 0, 0, 0]);
    // Strings.
    categories.extend_from_slice(&[10, 0, (strings.len() / 2) as u8, 0]);
    categories.extend_from_slice(strings);
    // FMMU usages: inputs, outputs.
    categories.extend_from_slice(&[40, 0, (usages.len() / 2) as u8, 0]);
    categories.extend_from_slice(usages);
    // Sync managers: mailbox write, mailbox read, outputs, inputs.
    categories.extend_from_slice(&[41, 0, (16 + 4 * spare) as u8, 0]);
    categories.extend_from_slice(&[0x00, 0x10, 0x80, 0x00, 0x26, 0, 0x01, 0x01]);
    categories.extend_from_slice(&[0x80, 0x10, 0x80, 0x00, 0x22, 0, 0x01, 0x02]);
    categories.extend_from_slice(&[0x00, 0x11, 0x00, 0x00, 0x24, 0, 0x01, 0x03]);
    categories.extend_from_slice(&[0x00, 0x14, 0x00, 0x00, 0x20, 0, 0x01, 0x04]);
    for _ in 0..spare {
        categories.extend_from_slice(&[0x00, 0x18, 0x00, 0x00, 0x00, 0, 0x00, 0x00]);
    }
    // End marker.
    categories.extend_from_slice(&[0xff, 0xff, 0, 0]);
    put(&mut image, 0x80, &categories);
    image.resize(image.len() + 16, 0);
    image
}

fn state_code(state: SubDeviceState) -> u8 {
    match state {
        SubDeviceState::NoState => 0,
        SubDeviceState::Init => 1,
        SubDeviceState::PreOp => 2,
        SubDeviceState::Bootstrap => 3,
        SubDeviceState::SafeOp => 4,
        SubDeviceState::Op => 8,
        SubDeviceState::Other(v) => v,
    }
}

fn header(command_code: u8, address: u16, register: u16) -> PduHeader {
    PduHeader { command_code, index: 0, command_raw: (u32::from(register) << 16) | u32::from(address) }
}

impl Emulated {
    fn new() -> Emulated {
        Emulated {
            eeprom: eeprom_image(),
            sii_address: 0,
            reply: None,
            downloads: Vec::new(),
            fmmus: Vec::new(),
            sync_frames: 0,
            cycles: 0,
            drop_first_dl_status: false,
        }
    }

    fn sdo_reply(&mut self, service: &ecat::request::CoeRequest) -> Vec<u8> {
        let sub_index = match service.sub_index {
            SubIndex::Complete => 1,
            SubIndex::Index(i) => i,
        };
        let index = service.index.to_le_bytes();
        let counter = service.counter << 4;
        if service.download {
            let mut value = 0u32;
            for i in 0..usize::from(service.len) {
                value |= u32::from(service.data[i]) << (8 * i);
            }
            self.downloads.push((service.index, sub_index, value));
            vec![
                0x0a, 0, 0, 0, 0, 0x03 | counter, 0x00, 0x30, 0x60, index[0], index[1], sub_index,
                0, 0, 0, 0,
            ]
        } else {
            vec![
                14, 0, 0, 0, 0, 0x03 | counter, 0x00, 0x30, 0x50, index[0], index[1], sub_index, 4,
                0, 0, 0, 1, 2, 3, 4,
            ]
        }
    }

    /// The answer of the segment to one PDU: header, payload, working counter.
    fn answer(&mut self, request: &Request, pdi: &[u8]) -> (PduHeader, Vec<u8>, u16) {
        match request.pdu {
            Pdu::CountSubdevices => (header(7, 0, 0), vec![0], 1),
            Pdu::ResetStep { .. } => (header(8, 0, 0), vec![], 1),
            Pdu::ConfigureAddress { .. } => (header(2, 0, 0x0010), vec![], 1),
            Pdu::WaitForState { state } => (header(7, 0, 0x0130), vec![state_code(state), 0], 1),
            Pdu::ClearEeprom { address } => (header(5, address, 0x0500), vec![0, 0], 1),
            Pdu::SetEeprom { address, .. } => (header(5, address, 0x0500), vec![0, 0], 1),
            Pdu::ReadRegister { address, register } => {
                let payload = match register {
                    0x0008 => vec![0x04, 0x00],
                    0x0012 => vec![0x34, 0x12],
                    0x0110 => vec![0x30, 0x00],
                    _ => vec![],
                };
                (header(4, address, register), payload, 1)
            },
            Pdu::ReadEepromChunk { address, start } => {
                self.sii_address = start;
                (header(5, address, 0x0502), vec![0; 6], 1)
            },
            Pdu::WaitForEepromChunk { address } => (header(4, address, 0x0502), vec![0x40, 0x00], 1),
            Pdu::ReadEepromData { address, len } => {
                let at = usize::from(self.sii_address) * 2;
                let mut chunk = vec![0u8; usize::from(len)];
                for (i, byte) in chunk.iter_mut().enumerate() {
                    *byte = self.eeprom.get(at + i).copied().unwrap_or(0);
                }
                (header(4, address, 0x0508), chunk, 1)
            },
            Pdu::LatchReceiveTimes => (header(8, 0, 0x0900), vec![], 1),
            Pdu::ReadDcReceiveTime { address } => {
                (header(4, address, 0x0918), vec![1, 2, 3, 4, 5, 6, 7, 8], 1)
            },
            Pdu::ReadDcPortTimes { address } => {
                let mut times = Vec::new();
                for port in [10u32, 11, 12, 13] {
                    times.extend_from_slice(&port.to_le_bytes());
                }
                (header(4, address, 0x0900), times, 1)
            },
            Pdu::WriteDcSystemTimeOffset { address } => (header(5, address, 0x0920), vec![], 1),
            Pdu::WriteDcTransmissionDelay { address } => (header(5, address, 0x0928), vec![], 1),
            Pdu::DcStaticSync { address } => {
                self.sync_frames += 1;
                (header(14, address, 0x0910), vec![0; 8], 1)
            },
            Pdu::MailboxStatus { address, sync_manager } => {
                let full = sync_manager == 1 && self.reply.is_some();
                let status = if full { 0x08 } else { 0x00 };
                (header(4, address, 0x0805 + 8 * u16::from(sync_manager)), vec![status], 1)
            },
            Pdu::Read { address, start, len } => {
                let mut payload = self.reply.take().unwrap_or_default();
                payload.resize(usize::from(len).max(payload.len()), 0);
                (header(4, address, start), payload, 1)
            },
            Pdu::WriteMailbox { address, start, service, .. } => {
                let reply = self.sdo_reply(&service);
                self.reply = Some(reply);
                (header(5, address, start), vec![], 1)
            },
            Pdu::WriteSmConfig { address, index, .. } => {
                (header(5, address, 0x0800 + 8 * u16::from(index)), vec![], 1)
            },
            Pdu::ReadFmmu { address, index } => {
                let mut entry = vec![0u8; 16];
                if let Some((_, fmmu)) = self.fmmus.iter().rev().find(|(i, _)| *i == index) {
                    entry[0..4].copy_from_slice(&fmmu.logical_start_address.to_le_bytes());
                    entry[4..6].copy_from_slice(&fmmu.length_bytes.to_le_bytes());
                    entry[7] = fmmu.logical_end_bit;
                    entry[8..10].copy_from_slice(&fmmu.physical_start_address.to_le_bytes());
                    entry[11] = u8::from(fmmu.read_enable) | (u8::from(fmmu.write_enable) << 1);
                    entry[12] = u8::from(fmmu.enable);
                }
                (header(4, address, 0x0600 + 16 * u16::from(index)), entry, 1)
            },
            Pdu::WriteFmmu { address, index, fmmu } => {
                self.fmmus.push((index, fmmu));
                (header(5, address, 0x0600 + 16 * u16::from(index)), vec![], 1)
            },
            Pdu::RequestState { address, state } => {
                (header(5, address, 0x0120), vec![state_code(state), 0], 1)
            },
            Pdu::WaitState { address, state } => {
                (header(4, address, 0x0130), vec![state_code(state), 0], 1)
            },
            Pdu::RxTx => {
                self.cycles += 1;
                let mut image = pdi.to_vec();
                for (i, byte) in image.iter_mut().take(12).enumerate() {
                    *byte = 0xa0 + i as u8;
                }
                (header(12, 0, 0), image, 3)
            },
        }
    }
}

/// User logic that notes what it is called with.
struct Recorder {
    started: Vec<u16>,
    inputs: Vec<Vec<u8>>,
    answers: usize,
    restart: bool,
    fail: bool,
}

impl Recorder {
    fn new() -> Recorder {
        Recorder { started: Vec::new(), inputs: Vec::new(), answers: 0, restart: false, fail: false }
    }
}

impl UserDevice for Recorder {
    fn update(
        &mut self,
        _device: &SubDevice,
        received: Option<DeviceResponse<'_>>,
        index: u16,
        _identifier: Option<u8>,
        outputs: &mut Vec<u8>,
        _out: &mut Vec<Request>,
    ) -> Result<Option<ControlFlow>, UserFailure> {
        if self.fail {
            return Err(UserFailure);
        }
        match received {
            None => {
                self.started.push(index);
                for (i, byte) in outputs.iter_mut().enumerate() {
                    *byte = 0x10 + i as u8;
                }
                Ok(None)
            },
            Some(DeviceResponse::Pdi(bytes)) => {
                self.inputs.push(bytes.to_vec());
                if self.restart {
                    Ok(Some(ControlFlow::Restart))
                } else {
                    Ok(None)
                }
            },
            Some(DeviceResponse::Pdu(_, _)) => {
                self.answers += 1;
                Ok(None)
            },
        }
    }
}

fn drive_layout(with_outputs: bool) -> Vec<PdoConfig> {
    let inputs = PdoMapping::new(
        0x1a00,
        vec![
            PdoObject::new(0x6041, 0, 16),
            PdoObject::new(0x6064, 0, 32),
            PdoObject::new(0x606c, 0, 32),
            PdoObject::new(0x6077, 0, 16),
        ],
    )
    .unwrap();
    let mut outputs = Vec::new();
    if with_outputs {
        outputs.push(
            PdoMapping::new(
                0x1600,
                vec![
                    PdoObject::new(0x6040, 0, 16),
                    PdoObject::new(0x60ff, 0, 32),
                    PdoObject::new(0x6060, 0, 8),
                    PdoObject::new(0, 0, 8),
                ],
            )
            .unwrap(),
        );
    }
    vec![PdoConfig::new(vec![inputs], outputs).unwrap()]
}

fn address_of(pdu: &Pdu) -> Option<u16> {
    match *pdu {
        Pdu::ConfigureAddress { address, .. }
        | Pdu::ClearEeprom { address }
        | Pdu::SetEeprom { address, .. }
        | Pdu::ReadRegister { address, .. }
        | Pdu::ReadEepromChunk { address, .. }
        | Pdu::WaitForEepromChunk { address }
        | Pdu::ReadEepromData { address, .. }
        | Pdu::ReadDcReceiveTime { address }
        | Pdu::ReadDcPortTimes { address }
        | Pdu::WriteDcSystemTimeOffset { address }
        | Pdu::WriteDcTransmissionDelay { address }
        | Pdu::DcStaticSync { address }
        | Pdu::MailboxStatus { address, .. }
        | Pdu::Read { address, .. }
        | Pdu::WriteMailbox { address, .. }
        | Pdu::WriteSmConfig { address, .. }
        | Pdu::ReadFmmu { address, .. }
        | Pdu::WriteFmmu { address, .. }
        | Pdu::RequestState { address, .. }
        | Pdu::WaitState { address, .. } => Some(address),
        _ => None,
    }
}

fn run(
    state: &mut InitState,
    device: &mut Emulated,
    user: &mut Recorder,
    configs: &Vec<PdoConfig>,
    iterations: u32,
    cycles: usize,
) -> Result<Vec<Request>, Error> {
    let mut devices = vec![std::mem::replace(device, Emulated::new())];
    let result = run_segment(state, &mut devices, user, configs, iterations, cycles);
    *device = devices.remove(0);
    result
}

/// Runs the ladder against a segment of emulated devices until `cycles`
/// cyclic frames were answered or nothing is left to send.
fn run_segment(
    state: &mut InitState,
    devices: &mut Vec<Emulated>,
    user: &mut Recorder,
    configs: &Vec<PdoConfig>,
    iterations: u32,
    cycles: usize,
) -> Result<Vec<Request>, Error> {
    let mut out = Vec::new();
    let mut wire: VecDeque<Request> = VecDeque::new();
    let mut log = Vec::new();
    state.start(&mut out);
    wire.extend(out.drain(..));
    let mut steps = 0;
    while let Some(request) = wire.pop_front() {
        steps += 1;
        assert!(steps < 10_000, "the ladder does not come to rest");
        log.push(request);
        if request.pdu == Pdu::RxTx && devices[0].cycles >= cycles {
            break;
        }
        let image = match state {
            InitState::Op(_, ctx) => ctx.send_bytes.clone(),
            _ => Vec::new(),
        };
        let count = devices.len() as u16;
        let at = match address_of(&request.pdu) {
            Some(address) => usize::from(address - 0x1000),
            None => 0,
        };
        let device = &mut devices[at];
        let (header, payload, mut working_counter) = device.answer(&request, &image);
        if request.pdu == Pdu::CountSubdevices {
            working_counter = count;
        }
        if device.drop_first_dl_status && matches!(request.pdu, Pdu::ReadRegister { register: 0x0110, .. }) {
            device.drop_first_dl_status = false;
            wire.push_back(request);
            continue;
        }
        state.update(
            &payload,
            working_counter,
            &header,
            request.index,
            request.identifier,
            iterations,
            configs,
            user,
            &mut out,
        )?;
        wire.extend(out.drain(..));
    }
    Ok(log)
}

#[test]
fn single_device_bring_up_reaches_op() {
    let mut state = InitState::new();
    let mut device = Emulated::new();
    let mut user = Recorder::new();
    let configs = drive_layout(true);
    let log = run(&mut state, &mut device, &mut user, &configs, 3, 2).unwrap();
    match &state {
        InitState::Op(op, ctx) => {
            assert_eq!(ctx.input_offset, 12);
            assert_eq!(ctx.send_bytes.len(), 20);
            let record = op.subdev(0).unwrap();
            assert_eq!(record.configured_address, 0x1000);
            assert_eq!(record.alias_address, 0x1234);
            assert_eq!(record.identity.vendor_id, 2);
            assert_eq!(record.identity.product_id, 0x1234_5678);
            assert_eq!(record.identity.revision, 1);
            assert_eq!(record.identity.serial, 42);
            assert_eq!(record.config.io.input, PdiSegment { start: 0, end: 12 });
            assert_eq!(record.config.io.output, PdiSegment { start: 12, end: 20 });
            assert!(record.config.mailbox.has_coe);
            assert!(record.config.mailbox.complete_access);
            assert_eq!(record.config.mailbox.write.unwrap().address, 0x1000);
            assert_eq!(record.config.mailbox.read.unwrap().address, 0x1080);
            assert_eq!(record.config.mailbox.coe_sync_manager_count, 4);
            assert_eq!(&record.config.mailbox.coe_sync_manager_types[..4], &[1, 2, 3, 4]);
            assert_eq!(record.dc_receive_time, 0x0807_0605_0403_0201);
            assert_eq!(record.ports.time0, 10);
            assert_eq!(record.ports.time3, 13);
            assert!(record.ports.active0);
            assert!(record.ports.active1);
            assert!(!record.ports.active2);
            let name = record.name.unwrap();
            assert_eq!(&name.bytes[..usize::from(name.len)], b"TEST");
            assert!(op.subdev(1).is_none());
            assert_eq!(&ctx.send_bytes[12..20], &[0x10, 0x11, 0x12, 0x13, 0x14, 0x15, 0x16, 0x17]);
        },
        _ => panic!("the ladder did not reach Op"),
    }
    assert_eq!(user.started, vec![0]);
    assert_eq!(user.inputs.len(), 2);
    assert_eq!(user.inputs[0], (0..12).map(|i| 0xa0 + i as u8).collect::<Vec<u8>>());
    assert_eq!(log.first().unwrap().pdu, Pdu::CountSubdevices);
    assert_eq!(log.iter().filter(|r| matches!(r.pdu, Pdu::ResetStep { .. })).count(), 43);
    assert_eq!(log.last().unwrap().pdu, Pdu::RxTx);
    let fmmus: Vec<(u8, u32, u16, bool, bool)> = device
        .fmmus
        .iter()
        .map(|(i, f)| (*i, f.logical_start_address, f.length_bytes, f.read_enable, f.write_enable))
        .collect();
    assert_eq!(fmmus, vec![(0, 0, 12, true, false), (1, 12, 8, false, true)]);
}

#[test]
fn multishot_dc_sync() {
    let mut state = InitState::new();
    let mut device = Emulated::new();
    let mut user = Recorder::new();
    let configs = drive_layout(true);
    let log = run(&mut state, &mut device, &mut user, &configs, 3, 0).unwrap();
    let syncs = log.iter().filter(|r| matches!(r.pdu, Pdu::DcStaticSync { .. })).count();
    assert_eq!(syncs, 3);
    assert_eq!(device.sync_frames, 3);
    let last_sync = log.iter().rposition(|r| matches!(r.pdu, Pdu::DcStaticSync { .. })).unwrap();
    assert_eq!(log[last_sync].pdu, Pdu::DcStaticSync { address: 0x1000 });
    assert!(matches!(log[last_sync + 1].pdu, Pdu::SetEeprom { address: 0x1000, .. }));
}

#[test]
fn pdo_remap_sequence() {
    let mut state = InitState::new();
    let mut device = Emulated::new();
    let mut user = Recorder::new();
    let configs = drive_layout(false);
    run(&mut state, &mut device, &mut user, &configs, 1, 0).unwrap();
    assert_eq!(
        device.downloads,
        vec![
            (0x1a00, 0, 0),
            (0x1a00, 1, 0x6041_0010),
            (0x1a00, 2, 0x6064_0020),
            (0x1a00, 3, 0x606c_0020),
            (0x1a00, 4, 0x6077_0010),
            (0x1a00, 0, 4),
            (0x1c12, 0, 0),
            (0x1c12, 1, 0x1a00),
            (0x1c12, 0, 1),
        ]
    );
    match &state {
        InitState::Op(op, ctx) => {
            assert_eq!(ctx.input_offset, 12);
            assert_eq!(ctx.send_bytes.len(), 12);
            assert_eq!(op.subdev(0).unwrap().config.io.output, PdiSegment { start: 0, end: 0 });
        },
        _ => panic!("the ladder did not reach Op"),
    }
}

#[test]
fn pdo_remap_sequence_with_outputs() {
    let mut state = InitState::new();
    let mut device = Emulated::new();
    let mut user = Recorder::new();
    let configs = drive_layout(true);
    run(&mut state, &mut device, &mut user, &configs, 1, 0).unwrap();
    let objects: Vec<(u16, u8)> = device.downloads.iter().map(|w| (w.0, w.1)).collect();
    assert_eq!(
        objects,
        vec![
            (0x1a00, 0),
            (0x1a00, 1),
            (0x1a00, 2),
            (0x1a00, 3),
            (0x1a00, 4),
            (0x1a00, 0),
            (0x1600, 0),
            (0x1600, 1),
            (0x1600, 2),
            (0x1600, 3),
            (0x1600, 4),
            (0x1600, 0),
            (0x1c12, 0),
            (0x1c12, 1),
            (0x1c12, 0),
            (0x1c13, 0),
            (0x1c13, 1),
            (0x1c13, 0),
        ]
    );
    assert_eq!(device.downloads[16], (0x1c13, 1, 0x1600));
    assert_eq!(device.downloads[9], (0x1600, 3, 0x6060_0008));
}

#[test]
fn restart() {
    let mut state = InitState::new();
    let mut device = Emulated::new();
    let mut user = Recorder::new();
    let configs = drive_layout(true);
    run(&mut state, &mut device, &mut user, &configs, 1, 0).unwrap();
    assert!(matches!(state, InitState::Op(_, _)));
    user.restart = true;
    let mut out = Vec::new();
    let image = vec![0u8; 20];
    let cyclic = PduHeader { command_code: 12, index: 0, command_raw: 0 };
    state.update(&image, 3, &cyclic, None, None, 1, &configs, &mut user, &mut out).unwrap();
    assert!(matches!(state, InitState::Reset(_)));
    assert_eq!(out.last().unwrap().pdu, Pdu::CountSubdevices);
}

#[test]
fn dropped_dl_status_read_is_answered_on_the_retry() {
    let mut state = InitState::new();
    let mut device = Emulated::new();
    device.drop_first_dl_status = true;
    let mut user = Recorder::new();
    let configs = drive_layout(true);
    let log = run(&mut state, &mut device, &mut user, &configs, 1, 0).unwrap();
    let reads = log
        .iter()
        .filter(|r| matches!(r.pdu, Pdu::ReadRegister { register: 0x0110, .. }))
        .count();
    assert_eq!(reads, 2);
    match &state {
        InitState::Op(op, _) => assert!(op.subdev(0).unwrap().ports.active0),
        _ => panic!("the ladder did not reach Op"),
    }
}

#[test]
fn answers_while_idle_are_passed_over() {
    let mut state = InitState::new();
    let mut user = Recorder::new();
    let mut out = Vec::new();
    let configs = drive_layout(true);
    let any = PduHeader { command_code: 7, index: 0, command_raw: 0 };
    state.update(&[], 1, &any, None, None, 1, &configs, &mut user, &mut out).unwrap();
    assert!(matches!(state, InitState::Idle));
    assert!(out.is_empty());
}

#[test]
fn too_many_devices_are_refused() {
    let mut state = InitState::new();
    let mut user = Recorder::new();
    let mut out = Vec::new();
    let configs = drive_layout(true);
    state.start(&mut out);
    let count = PduHeader { command_code: 7, index: 0, command_raw: 0 };
    let clear = PduHeader { command_code: 8, index: 0, command_raw: 0 };
    state.update(&[], 17, &count, None, None, 1, &configs, &mut user, &mut out).unwrap();
    let mut result = Ok(());
    for _ in 0..43 {
        result = state.update(&[], 0, &clear, None, None, 1, &configs, &mut user, &mut out);
        if result.is_err() {
            break;
        }
    }
    assert_eq!(result, Err(Error::Capacity));
    assert!(matches!(state, InitState::Reset(_)));
}

#[test]
fn a_failing_user_aborts_the_start_of_op() {
    let mut state = InitState::new();
    let mut device = Emulated::new();
    let mut user = Recorder::new();
    user.fail = true;
    let configs = drive_layout(true);
    assert_eq!(
        run(&mut state, &mut device, &mut user, &configs, 1, 0).unwrap_err(),
        Error::UserAbort
    );
    assert!(matches!(state, InitState::SafeOp(_, _)));
}

#[test]
fn a_layout_is_needed_for_every_device() {
    let mut state = InitState::new();
    let mut device = Emulated::new();
    let mut user = Recorder::new();
    let configs: Vec<PdoConfig> = Vec::new();
    assert_eq!(
        run(&mut state, &mut device, &mut user, &configs, 1, 0).unwrap_err(),
        Error::Capacity
    );
    assert!(matches!(state, InitState::Mbx(_)));
}

fn small_layout() -> PdoConfig {
    let inputs = PdoMapping::new(0x1a00, vec![PdoObject::new(0x6000, 1, 16)]).unwrap();
    let outputs = PdoMapping::new(0x1600, vec![PdoObject::new(0x7000, 1, 8)]).unwrap();
    PdoConfig::new(vec![inputs], vec![outputs]).unwrap()
}

#[test]
fn two_devices_share_the_image_without_overlap() {
    let mut state = InitState::new();
    let mut devices = vec![Emulated::new(), Emulated::new()];
    let mut user = Recorder::new();
    let mut configs = drive_layout(true);
    configs.push(small_layout());
    let log = run_segment(&mut state, &mut devices, &mut user, &configs, 2, 1).unwrap();
    match &state {
        InitState::Op(op, ctx) => {
            assert_eq!(ctx.input_offset, 14);
            assert_eq!(ctx.send_bytes.len(), 23);
            let first = op.subdev(0).unwrap();
            let second = op.subdev(1).unwrap();
            assert_eq!(first.configured_address, 0x1000);
            assert_eq!(second.configured_address, 0x1001);
            assert_eq!(first.config.io.input, PdiSegment { start: 0, end: 12 });
            assert_eq!(second.config.io.input, PdiSegment { start: 12, end: 14 });
            assert_eq!(first.config.io.output, PdiSegment { start: 14, end: 22 });
            assert_eq!(second.config.io.output, PdiSegment { start: 22, end: 23 });
        },
        _ => panic!("the ladder did not reach Op"),
    }
    assert_eq!(user.started, vec![0, 1]);
    assert_eq!(user.inputs.len(), 2);
    assert_eq!(user.inputs[0].len(), 12);
    assert_eq!(user.inputs[1].len(), 2);
    let addressing: Vec<Pdu> = log
        .iter()
        .filter(|r| matches!(r.pdu, Pdu::ConfigureAddress { .. }))
        .map(|r| r.pdu)
        .collect();
    assert_eq!(
        addressing,
        vec![
            Pdu::ConfigureAddress { position: 0, address: 0x1000 },
            Pdu::ConfigureAddress { position: 1, address: 0x1001 },
        ]
    );
    // All inputs are mapped before any output is.
    let maps: Vec<bool> = log
        .iter()
        .filter_map(|r| match r.pdu {
            Pdu::WriteFmmu { fmmu, .. } => Some(fmmu.write_enable),
            _ => None,
        })
        .collect();
    assert_eq!(maps, vec![false, false, true, true]);
    // No device is moved to SafeOp before all of them are mapped.
    let last_map = log.iter().rposition(|r| matches!(r.pdu, Pdu::ReadFmmu { .. })).unwrap();
    let moves: Vec<usize> = log
        .iter()
        .enumerate()
        .filter(|(_, r)| matches!(r.pdu, Pdu::RequestState { state: SubDeviceState::SafeOp, .. }))
        .map(|(i, _)| i)
        .collect();
    assert_eq!(moves.len(), 2);
    assert!(moves[0] > last_map);
    assert_eq!(log[moves[0]].index, Some(0));
    assert_eq!(log[moves[1]].index, Some(1));
}

#[test]
fn a_device_without_outputs_is_passed_by_in_the_second_pass() {
    let mut state = InitState::new();
    let mut devices = vec![Emulated::new(), Emulated::new()];
    let mut user = Recorder::new();
    let mut configs = drive_layout(false);
    configs.push(small_layout());
    run_segment(&mut state, &mut devices, &mut user, &configs, 1, 0).unwrap();
    match &state {
        InitState::Op(op, ctx) => {
            assert_eq!(ctx.input_offset, 14);
            assert_eq!(ctx.send_bytes.len(), 15);
            let first = op.subdev(0).unwrap();
            let second = op.subdev(1).unwrap();
            assert_eq!(first.config.io.input, PdiSegment { start: 0, end: 12 });
            assert_eq!(first.config.io.output, PdiSegment { start: 0, end: 0 });
            assert_eq!(second.config.io.input, PdiSegment { start: 12, end: 14 });
            assert_eq!(second.config.io.output, PdiSegment { start: 14, end: 15 });
        },
        _ => panic!("the ladder did not reach Op"),
    }
}

#[test]
fn devices_are_identified_one_after_the_other() {
    let mut state = InitState::new();
    let mut devices = vec![Emulated::new(), Emulated::new()];
    let mut user = Recorder::new();
    let mut configs = drive_layout(true);
    configs.push(small_layout());
    let log = run_segment(&mut state, &mut devices, &mut user, &configs, 1, 0).unwrap();
    let clears: Vec<usize> = log
        .iter()
        .enumerate()
        .filter(|(_, r)| matches!(r.pdu, Pdu::ClearEeprom { .. }))
        .map(|(i, _)| i)
        .collect();
    assert_eq!(clears.len(), 2);
    let last_of_first = log[..clears[1]]
        .iter()
        .rposition(|r| r.index == Some(0) && matches!(r.pdu, Pdu::ReadEepromData { .. }))
        .unwrap();
    assert!(last_of_first < clears[1]);
    assert!(log[clears[0]..clears[1]].iter().all(|r| r.index == Some(0)));
}

#[test]
fn the_ladder_climbs_one_stage_at_a_time() {
    fn rank(state: &InitState) -> u8 {
        match state {
            InitState::Idle => 0,
            InitState::Reset(_) => 1,
            InitState::Init(_) => 2,
            InitState::Dc(_) => 3,
            InitState::Mbx(_) => 4,
            InitState::PreOp(_) => 5,
            InitState::SafeOp(_, _) => 6,
            InitState::Op(_, _) => 7,
        }
    }
    let mut state = InitState::new();
    let mut device = Emulated::new();
    let mut user = Recorder::new();
    let configs = drive_layout(true);
    let mut out = Vec::new();
    let mut wire: VecDeque<Request> = VecDeque::new();
    state.start(&mut out);
    wire.extend(out.drain(..));
    let mut ranks = vec![rank(&state)];
    while let Some(request) = wire.pop_front() {
        if request.pdu == Pdu::RxTx {
            break;
        }
        let (header, payload, working_counter) = device.answer(&request, &[]);
        let before = rank(&state);
        state
            .update(
                &payload,
                working_counter,
                &header,
                request.index,
                request.identifier,
                1,
                &configs,
                &mut user,
                &mut out,
            )
            .unwrap();
        let after = rank(&state);
        assert!(after == before || after == before + 1);
        if after != before {
            ranks.push(after);
        }
        wire.extend(out.drain(..));
    }
    assert_eq!(ranks, vec![1, 2, 3, 4, 5, 6, 7]);
}

#[test]
fn answers_outside_the_cycle_go_to_the_device_they_name() {
    let mut state = InitState::new();
    let mut device = Emulated::new();
    let mut user = Recorder::new();
    let configs = drive_layout(true);
    run(&mut state, &mut device, &mut user, &configs, 1, 0).unwrap();
    let mut out = Vec::new();
    let answer = PduHeader { command_code: 4, index: 0, command_raw: 0x0130_1000 };
    state.update(&[8, 0], 1, &answer, Some(0), Some(5), 1, &configs, &mut user, &mut out).unwrap();
    assert_eq!(user.answers, 1);
    assert!(out.is_empty());
    assert_eq!(
        state.update(&[8, 0], 1, &answer, Some(1), None, 1, &configs, &mut user, &mut out),
        Err(Error::WireCodec)
    );
    assert_eq!(
        state.update(&[8, 0], 1, &answer, None, None, 1, &configs, &mut user, &mut out),
        Err(Error::WireCodec)
    );
    let cyclic = PduHeader { command_code: 12, index: 0, command_raw: 0 };
    assert_eq!(
        state.update(&[0; 19], 3, &cyclic, None, None, 1, &configs, &mut user, &mut out),
        Err(Error::WireCodec)
    );
    assert!(matches!(state, InitState::Op(_, _)));
}

#[test]
fn a_refused_state_change_ends_the_bring_up() {
    let mut state = InitState::new();
    let mut device = Emulated::new();
    let mut user = Recorder::new();
    let configs = drive_layout(true);
    let mut out = Vec::new();
    let mut wire: VecDeque<Request> = VecDeque::new();
    state.start(&mut out);
    wire.extend(out.drain(..));
    let mut failure = None;
    while let Some(request) = wire.pop_front() {
        let (header, mut payload, working_counter) = device.answer(&request, &[]);
        if matches!(request.pdu, Pdu::RequestState { state: SubDeviceState::PreOp, .. }) {
            payload = vec![0x11, 0x00];
        }
        match state.update(
            &payload,
            working_counter,
            &header,
            request.index,
            request.identifier,
            1,
            &configs,
            &mut user,
            &mut out,
        ) {
            Ok(()) => wire.extend(out.drain(..)),
            Err(e) => {
                failure = Some(e);
                break;
            },
        }
    }
    assert_eq!(
        failure,
        Some(Error::StateTransition { target: SubDeviceState::PreOp, actual: SubDeviceState::Init })
    );
    assert!(matches!(state, InitState::Mbx(_)));
}

#[test]
fn a_record_can_be_changed_in_place() {
    let mut state = InitState::new();
    let mut devices = vec![Emulated::new(), Emulated::new()];
    let mut user = Recorder::new();
    let mut configs = drive_layout(true);
    configs.push(small_layout());
    run_segment(&mut state, &mut devices, &mut user, &configs, 1, 0).unwrap();
    match &mut state {
        InitState::Op(op, _) => {
            op.subdev_mut(1).unwrap().device.alias_address = 7;
            assert!(op.subdev_mut(2).is_none());
            assert_eq!(op.subdev(1).unwrap().alias_address, 7);
            assert_eq!(op.subdev(0).unwrap().alias_address, 0x1234);
            assert_eq!(op.subdev(1).unwrap().configured_address, 0x1001);
        },
        _ => panic!("the ladder did not reach Op"),
    }
}

fn name_read_from(name_idx: u8, strings: &[u8]) -> Option<Vec<u8>> {
    let mut state = InitState::new();
    let mut device = Emulated::new();
    device.eeprom = eeprom_image_with(name_idx, strings);
    let mut user = Recorder::new();
    let configs = drive_layout(true);
    run(&mut state, &mut device, &mut user, &configs, 3, 1).unwrap();
    match &state {
        InitState::Op(op, _) => {
            op.subdev(0).unwrap().name.map(|name| name.bytes[..usize::from(name.len)].to_vec())
        },
        _ => panic!("the ladder did not reach Op"),
    }
}

#[test]
fn the_name_may_be_a_later_string_of_the_table() {
    // The second string's first byte is byte 6 of the table: an even byte.
    let even = [3, 3, b'a', b'b', b'c', 5, b'S', b'E', b'R', b'V', b'O', 1, b'z', 0];
    assert_eq!(name_read_from(2, &even), Some(b"SERVO".to_vec()));
    assert_eq!(name_read_from(1, &even), Some(b"abc".to_vec()));
    assert_eq!(name_read_from(3, &even), Some(b"z".to_vec()));
}

#[test]
fn the_name_may_begin_in_the_middle_of_a_word() {
    // The second string's first byte is byte 5 of the table: an odd byte.
    let odd = [3, 2, b'a', b'b', 5, b'D', b'R', b'I', b'V', b'E', 11, b'l', b'o', b'n', b'g', b'e',
        b'r', b' ', b'n', b'a', b'm', b'e'];
    assert_eq!(name_read_from(2, &odd), Some(b"DRIVE".to_vec()));
    assert_eq!(name_read_from(3, &odd), Some(b"longer name".to_vec()));
}

#[test]
fn a_name_beyond_the_table_is_no_name() {
    let table = [1, 4, b'T', b'E', b'S', b'T'];
    assert_eq!(name_read_from(2, &table), None);
    assert_eq!(name_read_from(0, &table), None);
}

fn bring_up_with(eeprom: Vec<u8>) -> (InitState, Result<Vec<Request>, Error>) {
    let mut state = InitState::new();
    let mut device = Emulated::new();
    device.eeprom = eeprom;
    let mut user = Recorder::new();
    let configs = drive_layout(true);
    let result = run(&mut state, &mut device, &mut user, &configs, 3, 1);
    (state, result)
}

#[test]
fn eight_sync_managers_are_the_most_a_device_may_have() {
    let table = [1, 4, b'T', b'E', b'S', b'T'];
    let (state, result) = bring_up_with(eeprom_image_of(1, &table, &[0x02, 0x01], 4));
    assert!(result.is_ok());
    assert!(matches!(state, InitState::Op(_, _)));
    let (state, result) = bring_up_with(eeprom_image_of(1, &table, &[0x02, 0x01], 5));
    assert_eq!(result.err(), Some(Error::Capacity));
    assert!(matches!(state, InitState::Mbx(_)));
}

#[test]
fn sixteen_fmmu_usages_are_the_most_a_device_may_have() {
    let table = [1, 4, b'T', b'E', b'S', b'T'];
    let mut usages = vec![0x02, 0x01];
    usages.resize(16, 0);
    let (state, result) = bring_up_with(eeprom_image_of(1, &table, &usages, 0));
    assert!(result.is_ok());
    assert!(matches!(state, InitState::Op(_, _)));
    usages.resize(18, 0);
    let (state, result) = bring_up_with(eeprom_image_of(1, &table, &usages, 0));
    assert_eq!(result.err(), Some(Error::Capacity));
    assert!(matches!(state, InitState::PreOp(_)));
}

fn in_op() -> (InitState, Recorder, Vec<PdoConfig>) {
    let mut state = InitState::new();
    let mut device = Emulated::new();
    let mut user = Recorder::new();
    let configs = drive_layout(true);
    run(&mut state, &mut device, &mut user, &configs, 1, 0).unwrap();
    assert!(matches!(state, InitState::Op(_, _)));
    (state, user, configs)
}

#[test]
fn an_image_too_short_for_a_device_is_refused_for_want_of_room() {
    let (mut state, mut user, configs) = in_op();
    if let InitState::Op(_, ctx) = &mut state {
        // Inputs at 0..12, outputs at 12..20: neither fits in 10 bytes.
        ctx.send_bytes.truncate(10);
    }
    let mut out = Vec::new();
    let cyclic = PduHeader { command_code: 12, index: 0, command_raw: 0 };
    let answer: Vec<u8> = (0..10).collect();
    assert_eq!(
        state.update(&answer, 3, &cyclic, None, None, 1, &configs, &mut user, &mut out),
        Err(Error::Capacity)
    );
    assert!(out.is_empty());
    assert!(user.inputs.is_empty());
    match &state {
        InitState::Op(_, ctx) => assert_eq!(ctx.send_bytes, answer),
        _ => panic!("the ladder left Op"),
    }
    let other = header(4, 0x1000, 0x0130);
    assert_eq!(
        state.update(&[8, 0], 1, &other, Some(0), None, 1, &configs, &mut user, &mut out),
        Err(Error::Capacity)
    );
    assert!(out.is_empty());
    assert_eq!(user.answers, 0);
    match &state {
        InitState::Op(_, ctx) => assert_eq!(ctx.send_bytes, answer),
        _ => panic!("the ladder left Op"),
    }
}

#[test]
fn a_cycle_needs_the_inputs_in_the_image_and_an_answer_only_the_outputs() {
    let (mut state, mut user, _) = in_op();
    if let InitState::Op(op, ctx) = &mut state {
        // The device's inputs are put beyond the image; its outputs stay within.
        op.subdev_mut(0).unwrap().device.config.io.input = PdiSegment { start: 20, end: 32 };
        let mut out = Vec::new();
        let cyclic = PduHeader { command_code: 12, index: 0, command_raw: 0 };
        assert_eq!(
            op.update(&[7; 20], &cyclic, None, None, &mut user, ctx, &mut out),
            Err(Error::Capacity)
        );
        assert_eq!(ctx.send_bytes, vec![7; 20]);
        assert!(out.is_empty());
        let other = header(4, 0x1000, 0x0130);
        assert_eq!(op.update(&[8, 0], &other, None, Some(0), &mut user, ctx, &mut out), Ok(None));
        assert_eq!(user.answers, 1);
        assert_eq!(ctx.send_bytes, vec![7; 20]);
    } else {
        panic!("the ladder did not reach Op");
    }
}

#[test]
fn a_restart_sends_the_counting_broadcast_behind_the_cyclic_pdu() {
    let (mut state, mut user, configs) = in_op();
    user.restart = true;
    let mut out = vec![Request { pdu: Pdu::ClearEeprom { address: 9 }, index: None, identifier: None }];
    let cyclic = PduHeader { command_code: 12, index: 0, command_raw: 0 };
    assert_eq!(
        state.update(&[0; 20], 3, &cyclic, None, None, 1, &configs, &mut user, &mut out),
        Ok(())
    );
    assert!(matches!(state, InitState::Reset(_)));
    assert_eq!(out.len(), 3);
    assert_eq!(out[0].pdu, Pdu::ClearEeprom { address: 9 });
    assert_eq!(out[1], Request { pdu: Pdu::RxTx, index: None, identifier: None });
    assert_eq!(out[2], Request { pdu: Pdu::CountSubdevices, index: None, identifier: None });
}

#[test]
fn an_answer_outside_the_cycle_leaves_the_image_outside_the_outputs_as_it_was() {
    let (mut state, mut user, configs) = in_op();
    let before = match &state {
        InitState::Op(_, ctx) => ctx.send_bytes.clone(),
        _ => panic!("the ladder did not reach Op"),
    };
    let mut out = Vec::new();
    let other = header(4, 0x1000, 0x0130);
    assert_eq!(
        state.update(&[8, 0], 1, &other, Some(0), Some(5), 1, &configs, &mut user, &mut out),
        Ok(())
    );
    assert_eq!(user.answers, 1);
    assert!(out.is_empty());
    match &state {
        InitState::Op(_, ctx) => {
            assert_eq!(ctx.send_bytes.len(), before.len());
            assert_eq!(&ctx.send_bytes[..12], &before[..12]);
        },
        _ => panic!("the ladder left Op"),
    }
}
