//! The init stage: give every sub-device a station address, wait for the
//! segment to rest in `Init`, then read what each device is from its
//! registers and its EEPROM.

use crate::eeprom::{zeroed, RangeReader};
use crate::error::{Error, SubDeviceState};
use crate::name::NameState;
use crate::queue::{DeviceQueue, Slot, Work, MAX_SUBDEVICES};
use crate::request::{failed, lemma_sent_both, lemma_sent_nothing, one, quiet, send, Pdu, Request,
    SiiOwner, Step};
use crate::subdevice::{MailboxSetup, SubDevice, SubDeviceConfig};
use crate::wire::{read_u16, spec_read_u16, AlControl, PduHeader, Ports, SubDeviceIdentity,
    SupportFlags, CMD_APWR, CMD_BRD, CMD_FPRD, CMD_FPWR, REG_DL_STATUS, REG_SII_CONTROL,
    REG_SII_DATA, REG_STATION_ALIAS, REG_SUPPORT_FLAGS};
use vstd::prelude::*;

verus! {

/// Station address of the first sub-device; the others follow in ring order.
pub const BASE_SUBDEVICE_ADDRESS: u16 = 0x1000;

/// EEPROM word address of the identity record.
pub const SII_IDENTITY_START: u16 = 0x0008;

/// Tag of the PDUs that read the identity record.
pub const TAG_IDENTITY: u8 = 1;

/// Tag of the PDUs that search the name.
pub const TAG_NAME: u8 = 2;

/// What is known of a device while it is being identified.
#[derive(Clone, Copy, Debug)]
pub struct DeviceProperties {
    pub identity: Option<SubDeviceIdentity>,
    pub flags: Option<SupportFlags>,
    pub alias_address: Option<u16>,
    pub ports: Option<Ports>,
    pub identity_state: RangeReader<16>,
    pub name_state: NameState,
    pub complete_access: bool,
}

#[derive(Clone, Copy, Debug)]
pub enum SubdevInitState {
    /// The EEPROM control is being cleared.
    ClearEeprom,
    /// The EEPROM is being handed to the main device.
    SetEeprom,
    /// Registers and EEPROM are being read.
    DeviceProperties(DeviceProperties),
}

impl DeviceProperties {
    /// Whether everything is known.
    pub open spec fn spec_complete(self) -> bool {
        self.identity is Some && self.name_state is Name && self.flags is Some
            && self.alias_address is Some && self.ports is Some
    }

    /// The record of `device` filled in with what was read.
    pub open spec fn spec_record(self, device: SubDevice) -> SubDevice {
        SubDevice {
            alias_address: self.alias_address->0,
            identity: self.identity->0,
            name: self.name_state->Name_0,
            flags: self.flags->0,
            ports: self.ports->0,
            config: SubDeviceConfig {
                mailbox: MailboxSetup {
                    complete_access: self.complete_access,
                    ..device.config.mailbox
                },
                ..device.config
            },
            ..device
        }
    }

    /// One answer applied to the reads. The register in the answer's header
    /// tells the reads apart; the EEPROM's registers serve two readers, which
    /// the tag tells apart: the identity record and the search for the name,
    /// which begins when the identity is known. The result is what is known
    /// afterwards and what was sent.
    pub open spec fn spec_answer(
        self,
        data: Seq<u8>,
        header: PduHeader,
        configured_addr: u16,
        idx: u16,
        identifier: Option<u8>,
    ) -> Result<(DeviceProperties, Seq<Request>), Error> {
        let register = header.spec_register();
        if register == REG_SUPPORT_FLAGS {
            match SupportFlags::spec_decode(data) {
                Err(e) => Err(e),
                Ok(flags) => Ok((DeviceProperties { flags: Some(flags), ..self }, seq![])),
            }
        } else if register == REG_STATION_ALIAS {
            match spec_read_u16(data, 0) {
                Err(e) => Err(e),
                Ok(alias) => Ok((DeviceProperties { alias_address: Some(alias), ..self }, seq![])),
            }
        } else if register == REG_DL_STATUS {
            match Ports::spec_from_dl_status(data) {
                Err(e) => Err(e),
                Ok(ports) => Ok((DeviceProperties { ports: Some(ports), ..self }, seq![])),
            }
        } else if register == REG_SII_CONTROL || register == REG_SII_DATA {
            if identifier == Some(TAG_IDENTITY) {
                let inner = self.identity_state.spec_update(data, configured_addr, idx);
                match inner.result {
                    Err(e) => Err(e),
                    Ok(false) => Ok(
                        (DeviceProperties { identity_state: inner.next, ..self }, inner.sent),
                    ),
                    Ok(true) => match SubDeviceIdentity::spec_decode(inner.next.buffer@) {
                        Err(e) => Err(e),
                        Ok(identity) => {
                            let name = self.name_state.spec_start(configured_addr, idx);
                            Ok(
                                (
                                    DeviceProperties {
                                        identity: Some(identity),
                                        identity_state: inner.next,
                                        name_state: name.next,
                                        ..self
                                    },
                                    name.sent,
                                ),
                            )
                        },
                    },
                }
            } else if identifier == Some(TAG_NAME) {
                let inner = self.name_state.spec_update(
                    data,
                    configured_addr,
                    idx,
                    self.complete_access,
                );
                match inner.result {
                    Err(e) => Err(e),
                    Ok(_) => Ok(
                        (
                            DeviceProperties {
                                name_state: inner.next.0,
                                complete_access: inner.next.1,
                                ..self
                            },
                            inner.sent,
                        ),
                    ),
                }
            } else {
                Err(Error::WireCodec)
            }
        } else {
            Err(Error::WireCodec)
        }
    }

    fn answer(
        &mut self,
        received: &[u8],
        header: &PduHeader,
        configured_addr: u16,
        idx: u16,
        identifier: Option<u8>,
        out: &mut Vec<Request>,
    ) -> (r: Result<(), Error>)
        ensures
            match old(self).spec_answer(received@, *header, configured_addr, idx, identifier) {
                Err(e) => r == Err::<(), Error>(e) && *final(self) == *old(self) && final(out)@
                    == old(out)@,
                Ok((next, sent)) => r is Ok && *final(self) == next && final(out)@ == old(out)@
                    + sent,
            },
    {
        proof {
            lemma_sent_nothing(out@);
        }
        let register = header.register();
        if register == REG_SUPPORT_FLAGS {
            self.flags = Some(SupportFlags::decode(received)?);
        } else if register == REG_STATION_ALIAS {
            self.alias_address = Some(read_u16(received, 0)?);
        } else if register == REG_DL_STATUS {
            self.ports = Some(Ports::from_dl_status(received)?);
        } else if register == REG_SII_CONTROL || register == REG_SII_DATA {
            match identifier {
                Some(TAG_IDENTITY) => {
                    let mut reader = self.identity_state;
                    let mut sent: Vec<Request> = Vec::new();
                    if reader.update(received, configured_addr, idx, &mut sent)? {
                        let identity = SubDeviceIdentity::decode(
                            vstd::array::array_as_slice(&reader.buffer),
                        )?;
                        self.identity = Some(identity);
                        self.identity_state = reader;
                        self.name_state.start(configured_addr, idx, out);
                    } else {
                        self.identity_state = reader;
                        out.append(&mut sent);
                    }
                },
                Some(TAG_NAME) => {
                    let mut name = self.name_state;
                    let mut complete_access = self.complete_access;
                    let _ = name.update(received, configured_addr, idx, &mut complete_access, out)?;
                    self.name_state = name;
                    self.complete_access = complete_access;
                },
                _ => {
                    return Err(Error::WireCodec);
                },
            }
        } else {
            return Err(Error::WireCodec);
        }
        Ok(())
    }
}

/// The reads that begin the identification of a device.
pub open spec fn property_reads(configured_addr: u16, idx: u16) -> Seq<Request> {
    one(
        Pdu::ReadRegister { address: configured_addr, register: REG_SUPPORT_FLAGS },
        Some(idx),
        None,
    ) + one(
        Pdu::ReadRegister { address: configured_addr, register: REG_STATION_ALIAS },
        Some(idx),
        None,
    ) + one(Pdu::ReadRegister { address: configured_addr, register: REG_DL_STATUS }, Some(idx), None)
        + NameState::spec_range::<16>(SII_IDENTITY_START, 16, TAG_IDENTITY).spec_start(
        configured_addr,
        idx,
    ).sent
}

impl Slot {
    /// A slot for a device that was just given the address `configured_addr`.
    pub open spec fn spec_new(configured_addr: u16, idx: u16) -> Slot {
        Slot {
            device: SubDevice::spec_new(configured_addr, idx),
            work: Work::Init(SubdevInitState::ClearEeprom),
        }
    }

    /// The PDU that begins the identification of the device.
    pub open spec fn spec_init_start(self, idx: u16) -> Seq<Request> {
        one(Pdu::ClearEeprom { address: self.device.configured_address }, Some(idx), None)
    }

    /// One answer applied to the identification of the device; `true` when
    /// the record is complete.
    ///
    /// The EEPROM control is cleared, the EEPROM is handed to the main
    /// device, then three registers and the identity record are read at once
    /// and the name is searched. When all of it is known the record is filled
    /// in and the slot comes to rest.
    pub open spec fn spec_init_update(
        self,
        data: Seq<u8>,
        header: PduHeader,
        idx: u16,
        identifier: Option<u8>,
    ) -> Step<Slot, bool> {
        let address = self.device.configured_address;
        match self.work {
            Work::Init(SubdevInitState::ClearEeprom) => if header.command_code != CMD_FPWR {
                failed(self, Error::WireCodec)
            } else {
                Step {
                    next: Slot { work: Work::Init(SubdevInitState::SetEeprom), ..self },
                    sent: one(Pdu::SetEeprom { address, owner: SiiOwner::Master }, Some(idx), None),
                    result: Ok(false),
                }
            },
            Work::Init(SubdevInitState::SetEeprom) => if header.command_code != CMD_FPWR {
                failed(self, Error::WireCodec)
            } else {
                Step {
                    next: Slot {
                        work: Work::Init(
                            SubdevInitState::DeviceProperties(
                                DeviceProperties {
                                    identity: None,
                                    flags: None,
                                    alias_address: None,
                                    ports: None,
                                    identity_state: NameState::spec_range::<16>(
                                        SII_IDENTITY_START,
                                        16,
                                        TAG_IDENTITY,
                                    ).spec_start(address, idx).next,
                                    name_state: NameState::spec_new(TAG_NAME),
                                    complete_access: false,
                                },
                            ),
                        ),
                        ..self
                    },
                    sent: property_reads(address, idx),
                    result: Ok(false),
                }
            },
            Work::Init(SubdevInitState::DeviceProperties(known)) => if header.command_code
                != CMD_FPRD && header.command_code != CMD_FPWR {
                failed(self, Error::WireCodec)
            } else {
                match known.spec_answer(data, header, address, idx, identifier) {
                    Err(e) => failed(self, e),
                    Ok((next, sent)) => if next.spec_complete() {
                        Step {
                            next: Slot { device: next.spec_record(self.device), work: Work::Idle },
                            sent,
                            result: Ok(true),
                        }
                    } else {
                        Step {
                            next: Slot {
                                work: Work::Init(SubdevInitState::DeviceProperties(next)),
                                ..self
                            },
                            sent,
                            result: Ok(false),
                        }
                    },
                }
            },
            _ => failed(self, Error::WireCodec),
        }
    }

    pub fn init_update(
        &mut self,
        received: &[u8],
        header: &PduHeader,
        idx: u16,
        identifier: Option<u8>,
        out: &mut Vec<Request>,
    ) -> (r: Result<bool, Error>)
        ensures
            ({
                let step = old(self).spec_init_update(received@, *header, idx, identifier);
                &&& *final(self) == step.next
                &&& final(out)@ == old(out)@ + step.sent
                &&& r == step.result
            }),
    {
        proof {
            lemma_sent_nothing(out@);
        }
        let address = self.device.configured_address;
        match self.work {
            Work::Init(SubdevInitState::ClearEeprom) => {
                if header.command_code != CMD_FPWR {
                    return Err(Error::WireCodec);
                }
                send(out, Pdu::SetEeprom { address, owner: SiiOwner::Master }, Some(idx), None);
                self.work = Work::Init(SubdevInitState::SetEeprom);
                Ok(false)
            },
            Work::Init(SubdevInitState::SetEeprom) => {
                if header.command_code != CMD_FPWR {
                    return Err(Error::WireCodec);
                }
                send(out, Pdu::ReadRegister { address, register: REG_SUPPORT_FLAGS }, Some(idx), None);
                send(out, Pdu::ReadRegister { address, register: REG_STATION_ALIAS }, Some(idx), None);
                send(out, Pdu::ReadRegister { address, register: REG_DL_STATUS }, Some(idx), None);
                let mut identity_state = RangeReader::<16>::new(
                    SII_IDENTITY_START,
                    16,
                    zeroed::<16>(),
                    TAG_IDENTITY,
                );
                let _ = identity_state.start(address, idx, out);
                self.work = Work::Init(
                    SubdevInitState::DeviceProperties(
                        DeviceProperties {
                            identity: None,
                            flags: None,
                            alias_address: None,
                            ports: None,
                            identity_state,
                            name_state: NameState::new(TAG_NAME),
                            complete_access: false,
                        },
                    ),
                );
                assert(out@ =~= old(out)@ + property_reads(address, idx));
                Ok(false)
            },
            Work::Init(SubdevInitState::DeviceProperties(known)) => {
                if header.command_code != CMD_FPRD && header.command_code != CMD_FPWR {
                    return Err(Error::WireCodec);
                }
                let mut next = known;
                next.answer(received, header, address, idx, identifier, out)?;
                match (next.identity, next.name_state, next.flags, next.alias_address, next.ports) {
                    (Some(identity), NameState::Name(name), Some(flags), Some(alias), Some(ports)) => {
                        self.device.alias_address = alias;
                        self.device.identity = identity;
                        self.device.name = name;
                        self.device.flags = flags;
                        self.device.ports = ports;
                        self.device.config.mailbox.complete_access = next.complete_access;
                        self.work = Work::Idle;
                        Ok(true)
                    },
                    _ => {
                        self.work = Work::Init(SubdevInitState::DeviceProperties(next));
                        Ok(false)
                    },
                }
            },
            _ => Err(Error::WireCodec),
        }
    }
}

#[derive(Clone, Copy, Debug, PartialEq, Eq, Structural)]
pub enum InitPhase {
    /// Addresses are being assigned; counts the answers.
    ConfigureAddresses(u16),
    /// The segment is asked whether it rests in `Init`.
    SyncInit,
    /// The devices are being identified; counts the complete ones.
    ConfigureSubdevices(u16),
}

pub struct Init {
    pub devices: DeviceQueue,
    pub state: InitPhase,
}

/// The stage as a value.
pub struct InitModel {
    pub devices: Seq<Slot>,
    pub state: InitPhase,
}

impl View for Init {
    type V = InitModel;

    open spec fn view(&self) -> InitModel {
        InitModel { devices: self.devices@, state: self.state }
    }
}

/// The slots of a segment of `n` devices whose addresses are being assigned.
pub open spec fn initial_slots(n: int) -> Seq<Slot> {
    Seq::new(n as nat, |i: int| Slot::spec_new((BASE_SUBDEVICE_ADDRESS + i) as u16, i as u16))
}

/// The PDUs that assign the addresses of `n` devices.
pub open spec fn address_requests(n: int) -> Seq<Request> {
    Seq::new(
        n as nat,
        |i: int|
            Request {
                pdu: Pdu::ConfigureAddress {
                    position: i as u16,
                    address: (BASE_SUBDEVICE_ADDRESS + i) as u16,
                },
                index: Some(i as u16),
                identifier: None,
            },
    )
}

/// The PDU that begins the identification of the device at position `at`,
/// if there is one.
pub open spec fn init_start(slots: Seq<Slot>, at: int) -> Seq<Request> {
    if 0 <= at < slots.len() {
        slots[at].spec_init_start(at as u16)
    } else {
        seq![]
    }
}

impl InitModel {
    /// One answer applied to the stage; `true` when every device is
    /// identified.
    ///
    /// - Every answer to an address assignment is counted; the last one asks
    ///   the segment for its state.
    /// - The answer to that must report `Init`; it starts the identification
    ///   of the first device.
    /// - Every other answer belongs to the device that its index names; when
    ///   a device is identified, the identification of the next device in
    ///   ring order is begun.
    pub open spec fn spec_update(
        self,
        data: Seq<u8>,
        header: PduHeader,
        idx: Option<u16>,
        identifier: Option<u8>,
    ) -> Step<InitModel, bool> {
        let len = self.devices.len() as int;
        match self.state {
            InitPhase::ConfigureAddresses(n) => if header.command_code != CMD_APWR || n
                == u16::MAX {
                failed(self, Error::WireCodec)
            } else if n + 1 != len {
                quiet(
                    InitModel { state: InitPhase::ConfigureAddresses((n + 1) as u16), ..self },
                    false,
                )
            } else {
                Step {
                    next: InitModel { state: InitPhase::SyncInit, ..self },
                    sent: one(Pdu::WaitForState { state: SubDeviceState::Init }, None, None),
                    result: Ok(false),
                }
            },
            InitPhase::SyncInit => if header.command_code != CMD_BRD {
                failed(self, Error::WireCodec)
            } else {
                match AlControl::spec_decode(data) {
                    Err(e) => failed(self, e),
                    Ok(al) => if al.state != SubDeviceState::Init {
                        failed(
                            self,
                            Error::StateTransition { target: SubDeviceState::Init, actual: al.state },
                        )
                    } else {
                        Step {
                            next: InitModel { state: InitPhase::ConfigureSubdevices(0), ..self },
                            sent: init_start(self.devices, 0),
                            result: Ok(false),
                        }
                    },
                }
            },
            InitPhase::ConfigureSubdevices(n) => if idx is None || idx->0 >= len || n == u16::MAX {
                failed(self, Error::WireCodec)
            } else {
                let inner = self.devices[idx->0 as int].spec_init_update(
                    data,
                    header,
                    idx->0,
                    identifier,
                );
                match inner.result {
                    Err(e) => failed(self, e),
                    Ok(false) => Step {
                        next: InitModel {
                            devices: self.devices.update(idx->0 as int, inner.next),
                            ..self
                        },
                        sent: inner.sent,
                        result: Ok(false),
                    },
                    Ok(true) => Step {
                        next: InitModel {
                            devices: self.devices.update(idx->0 as int, inner.next),
                            state: InitPhase::ConfigureSubdevices((n + 1) as u16),
                        },
                        sent: inner.sent + init_start(
                            self.devices.update(idx->0 as int, inner.next),
                            n + 1,
                        ),
                        result: Ok(n + 1 >= len),
                    },
                }
            },
        }
    }
}

impl Init {
    /// Begins the stage for a segment of `subdev_count` devices: every
    /// device is given its address, in ring order. More devices than the
    /// queue holds are refused, and nothing is sent.
    pub fn start_new(subdev_count: u16, out: &mut Vec<Request>) -> (r: Result<Init, Error>)
        ensures
            subdev_count > MAX_SUBDEVICES ==> (r matches Err(e) && e == Error::Capacity
                && final(out)@ == old(out)@),
            subdev_count <= MAX_SUBDEVICES ==> (r matches Ok(init) && init@ == (InitModel {
                devices: initial_slots(subdev_count as int),
                state: InitPhase::ConfigureAddresses(0),
            }) && final(out)@ == old(out)@ + address_requests(subdev_count as int)),
    {
        if subdev_count as usize > MAX_SUBDEVICES {
            return Err(Error::Capacity);
        }
        let mut devices = DeviceQueue::new();
        let mut i: u16 = 0;
        proof {
            assert(devices@ =~= initial_slots(0));
            assert(out@ =~= old(out)@ + address_requests(0));
        }
        while i < subdev_count
            invariant
                i <= subdev_count <= MAX_SUBDEVICES,
                devices@ == initial_slots(i as int),
                out@ == old(out)@ + address_requests(i as int),
            decreases subdev_count - i,
        {
            let address = BASE_SUBDEVICE_ADDRESS + i;
            send(out, Pdu::ConfigureAddress { position: i, address }, Some(i), None);
            let slot = Slot {
                device: SubDevice::new(address, i),
                work: Work::Init(SubdevInitState::ClearEeprom),
            };
            let _ = devices.push_back(slot);
            i = i + 1;
            proof {
                assert(devices@ =~= initial_slots(i as int));
                assert(out@ =~= old(out)@ + address_requests(i as int));
            }
        }
        Ok(Init { devices, state: InitPhase::ConfigureAddresses(0) })
    }

    /// Applies one answer; `Some(devices)` when every device is identified.
    /// The stage then keeps no devices.
    pub fn update(
        &mut self,
        received: &[u8],
        header: &PduHeader,
        idx: Option<u16>,
        identifier: Option<u8>,
        out: &mut Vec<Request>,
    ) -> (r: Result<Option<DeviceQueue>, Error>)
        ensures
            ({
                let step = old(self)@.spec_update(received@, *header, idx, identifier);
                &&& final(out)@ == old(out)@ + step.sent
                &&& match step.result {
                    Err(e) => r matches Err(f) && f == e && final(self)@ == old(self)@,
                    Ok(false) => r matches Ok(None) && final(self)@ == step.next,
                    Ok(true) => r matches Ok(Some(devices)) && devices@ == step.next.devices
                        && final(self)@ == (InitModel { devices: Seq::empty(), ..step.next }),
                }
            }),
    {
        proof {
            lemma_sent_nothing(out@);
        }
        let len = self.devices.count();
        match self.state {
            InitPhase::ConfigureAddresses(n) => {
                if header.command_code != CMD_APWR || n == u16::MAX {
                    return Err(Error::WireCodec);
                }
                if (n + 1) as usize != len {
                    self.state = InitPhase::ConfigureAddresses(n + 1);
                } else {
                    send(out, Pdu::WaitForState { state: SubDeviceState::Init }, None, None);
                    self.state = InitPhase::SyncInit;
                }
                Ok(None)
            },
            InitPhase::SyncInit => {
                if header.command_code != CMD_BRD {
                    return Err(Error::WireCodec);
                }
                let al = AlControl::decode(received)?;
                if al.state != SubDeviceState::Init {
                    return Err(
                        Error::StateTransition { target: SubDeviceState::Init, actual: al.state },
                    );
                }
                match self.devices.device(0) {
                    Some(first) => {
                        send(out, Pdu::ClearEeprom { address: first.configured_address }, Some(0), None);
                    },
                    None => {},
                }
                self.state = InitPhase::ConfigureSubdevices(0);
                Ok(None)
            },
            InitPhase::ConfigureSubdevices(n) => {
                let at = match idx {
                    Some(i) => i,
                    None => {
                        return Err(Error::WireCodec);
                    },
                };
                if n == u16::MAX {
                    return Err(Error::WireCodec);
                }
                let mut slot = match self.devices.slot(at as usize) {
                    Some(s) => s,
                    None => {
                        return Err(Error::WireCodec);
                    },
                };
                let ghost sent = old(self)@.devices[at as int].spec_init_update(
                    received@,
                    *header,
                    at,
                    identifier,
                ).sent;
                let complete = slot.init_update(received, header, at, identifier, out)?;
                self.devices.put(at as usize, slot);
                if !complete {
                    return Ok(None);
                }
                self.state = InitPhase::ConfigureSubdevices(n + 1);
                match self.devices.device((n + 1) as usize) {
                    Some(next) => {
                        send(
                            out,
                            Pdu::ClearEeprom { address: next.configured_address },
                            Some(n + 1),
                            None,
                        );
                        proof {
                            lemma_sent_both(old(out)@, sent, init_start(self.devices@, n + 1));
                        }
                        Ok(None)
                    },
                    None => {
                        proof {
                            lemma_sent_both(old(out)@, sent, Seq::empty());
                        }
                        Ok(Some(self.devices.take()))
                    },
                }
            },
        }
    }
}

} // verus!
