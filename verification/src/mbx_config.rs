//! The mailbox-config stage: for one device after the other, read the sync
//! managers and the default mailbox layout from the EEPROM, program the
//! mailbox sync managers, move the device to `PreOp`, and read the
//! sync-manager types from its object dictionary.

use crate::eeprom::{zeroed, CategoryIter, RangeReader};
use crate::error::{Error, SubDeviceState};
use crate::list::{lemma_array_of, BoundedList};
use crate::name::NameState;
use crate::queue::{DeviceQueue, Slot, Work};
use crate::request::{failed, lemma_sent_both, lemma_sent_nothing, one, quiet, send, Pdu, Request,
    SiiOwner, Step, SubIndex};
use crate::sdo::SdoRead;
use crate::state_transition::Transition;
use crate::subdevice::{Mailbox, MailboxSetup, SubDevice, SubDeviceConfig};
use crate::wire::{CategoryType, DefaultMailbox, PduHeader, SyncManager, SyncManagerType,
    PROTOCOL_COE};
use vstd::prelude::*;
use vstd::slice::slice_subrange;

verus! {

/// EEPROM word address of the default mailbox layout.
pub const SII_DEFAULT_MAILBOX_START: u16 = 0x0018;

/// Number of bytes read of the default mailbox layout.
pub const DEFAULT_MAILBOX_LEN: u16 = 26;

/// Object index of the sync-manager types in a device's object dictionary.
pub const SM_TYPE_ADDRESS: u16 = 0x1c00;

/// The sync managers of one device, in the order of its EEPROM.
pub type SmList = BoundedList<SyncManager, 8>;

/// Programs the mailbox sync managers of one device, one at a time.
#[derive(Clone, Copy, Debug)]
pub struct SyncManagerMbxConfig {
    pub default_mbx: DefaultMailbox,
    pub read_mbx: Option<Mailbox>,
    pub write_mbx: Option<Mailbox>,
    pub managers: SmList,
    /// Position of the sync manager that is looked at next.
    pub next: usize,
}

/// Whether a sync manager guards a mailbox.
pub open spec fn is_mailbox(sm: SyncManager) -> bool {
    sm.spec_usage_type() == SyncManagerType::MailboxWrite || sm.spec_usage_type()
        == SyncManagerType::MailboxRead
}

/// Position of the first mailbox sync manager at or behind `from`.
pub open spec fn next_mailbox(managers: Seq<SyncManager>, from: int) -> Option<int>
    decreases managers.len() - from,
{
    if from < 0 || from >= managers.len() {
        None
    } else if is_mailbox(managers[from]) {
        Some(from)
    } else {
        next_mailbox(managers, from + 1)
    }
}

impl SyncManagerMbxConfig {
    pub open spec fn spec_new(managers: SmList, default_mbx: DefaultMailbox) -> Self {
        SyncManagerMbxConfig { default_mbx, read_mbx: None, write_mbx: None, managers, next: 0 }
    }

    pub fn new(managers: SmList, default_mbx: DefaultMailbox) -> (c: Self)
        ensures
            c == Self::spec_new(managers, default_mbx),
    {
        SyncManagerMbxConfig { default_mbx, read_mbx: None, write_mbx: None, managers, next: 0 }
    }

    /// One step of the programming: the next mailbox sync manager, if there
    /// is one, is programmed with the size that the default layout gives for
    /// its direction, and is remembered as the device's write or read
    /// mailbox. `true` when there is none left.
    pub open spec fn spec_update(self, configured_addr: u16, idx: u16) -> Step<Self, bool> {
        match next_mailbox(self.managers@, self.next as int) {
            None => quiet(SyncManagerMbxConfig { next: self.managers@.len() as usize, ..self }, true),
            Some(at) => {
                let sm = self.managers@[at];
                let write = sm.spec_usage_type() == SyncManagerType::MailboxWrite;
                let len = if write {
                    self.default_mbx.subdevice_receive_size
                } else {
                    self.default_mbx.subdevice_send_size
                };
                let mailbox = Mailbox { address: sm.start_addr, len, sync_manager: at as u8 };
                Step {
                    next: SyncManagerMbxConfig {
                        next: (at + 1) as usize,
                        write_mbx: if write {
                            Some(mailbox)
                        } else {
                            self.write_mbx
                        },
                        read_mbx: if write {
                            self.read_mbx
                        } else {
                            Some(mailbox)
                        },
                        ..self
                    },
                    sent: one(
                        Pdu::WriteSmConfig {
                            address: configured_addr,
                            index: at as u8,
                            sync_manager: sm,
                            length: len,
                        },
                        Some(idx),
                        None,
                    ),
                    result: Ok(false),
                }
            },
        }
    }

    pub fn update(&mut self, configured_addr: u16, idx: u16, out: &mut Vec<Request>) -> (done: bool)
        ensures
            ({
                let step = old(self).spec_update(configured_addr, idx);
                &&& *final(self) == step.next
                &&& final(out)@ == old(out)@ + step.sent
                &&& step.result == Ok::<bool, Error>(done)
            }),
    {
        proof {
            lemma_sent_nothing(out@);
        }
        let n = self.managers.len();
        let mut at = self.next;
        while at < n
            invariant
                n == self.managers@.len(),
                n <= 8,
                *self == *old(self),
                out@ == old(out)@,
                next_mailbox(self.managers@, self.next as int) == next_mailbox(
                    self.managers@,
                    at as int,
                ),
            decreases n - at,
        {
            let sm = self.managers.get(at).unwrap();
            let usage = sm.usage_type();
            if usage == SyncManagerType::MailboxWrite || usage == SyncManagerType::MailboxRead {
                let write = usage == SyncManagerType::MailboxWrite;
                let len = if write {
                    self.default_mbx.subdevice_receive_size
                } else {
                    self.default_mbx.subdevice_send_size
                };
                send(
                    out,
                    Pdu::WriteSmConfig {
                        address: configured_addr,
                        index: at as u8,
                        sync_manager: sm,
                        length: len,
                    },
                    Some(idx),
                    None,
                );
                let mailbox = Mailbox { address: sm.start_addr, len, sync_manager: at as u8 };
                if write {
                    self.write_mbx = Some(mailbox);
                } else {
                    self.read_mbx = Some(mailbox);
                }
                self.next = at + 1;
                return false;
            }
            at = at + 1;
        }
        self.next = n;
        true
    }
}

#[derive(Clone, Copy, Debug)]
pub enum MailboxConfigState {
    /// The EEPROM is being handed to the main device.
    SetEepromMaster,
    /// The sync-manager records are being read.
    SyncManagers(CategoryIter<8>, SmList),
    /// The default mailbox layout is being read.
    GetMailboxConfig(SmList, RangeReader<26>),
    /// The mailbox sync managers are being programmed.
    ConfigureMailboxSms(SyncManagerMbxConfig),
    /// The EEPROM is being handed back to the device.
    SetEepromPdi,
    /// The device is being moved to `PreOp`.
    PreOpTransition(Transition),
    /// The sync-manager types are being read over CoE.
    CoeSyncManagers(SdoRead),
    /// The EEPROM is being handed to the main device again.
    ResetEepromMaster,
}

/// The hand-over of a device's EEPROM.
pub open spec fn eeprom_owner(address: u16, owner: SiiOwner, idx: u16) -> Seq<Request> {
    one(Pdu::SetEeprom { address, owner }, Some(idx), None)
}

/// The first `len` of `bytes`, at most sixteen, as the list of sync-manager
/// types that a record keeps.
pub open spec fn spec_types(bytes: Seq<u8>) -> ([u8; 16], u8) {
    let n = if bytes.len() > 16 {
        16
    } else {
        bytes.len() as int
    };
    (
        crate::list::array_of(
            Seq::new(
                16,
                |i: int|
                    if i < n {
                        bytes[i]
                    } else {
                        0u8
                    },
            ),
        ),
        n as u8,
    )
}

fn copy_types(bytes: &[u8]) -> (r: ([u8; 16], u8))
    ensures
        r == spec_types(bytes@),
{
    let n: usize = if bytes.len() > 16 {
        16
    } else {
        bytes.len()
    };
    let mut types = zeroed::<16>();
    let mut i: usize = 0;
    assert(types@ =~= Seq::new(16, |j: int| 0u8)) by {
        crate::eeprom::lemma_zeros_view::<16>();
    }
    while i < n
        invariant
            i <= n <= 16,
            n <= bytes@.len(),
            types@ == Seq::new(
                16,
                |j: int|
                    if j < i {
                        bytes@[j]
                    } else {
                        0u8
                    },
            ),
        decreases n - i,
    {
        types[i] = bytes[i];
        i = i + 1;
        assert(types@ =~= Seq::new(
            16,
            |j: int|
                if j < i {
                    bytes@[j]
                } else {
                    0u8
                },
        ));
    }
    proof {
        lemma_array_of(types);
    }
    (types, n as u8)
}

impl Slot {
    /// The device's mailbox configuration after its mailbox sync managers
    /// were programmed.
    pub open spec fn spec_with_mailboxes(self, cfg: SyncManagerMbxConfig) -> SubDevice {
        SubDevice {
            config: SubDeviceConfig {
                mailbox: MailboxSetup {
                    has_coe: cfg.default_mbx.supported_protocols & PROTOCOL_COE != 0 && (
                    cfg.read_mbx matches Some(m) && m.len > 0),
                    read: cfg.read_mbx,
                    write: cfg.write_mbx,
                    supported_protocols: cfg.default_mbx.supported_protocols,
                    ..self.device.config.mailbox
                },
                ..self.device.config
            },
            ..self.device
        }
    }

    /// What follows the programming of the mailbox sync managers: the
    /// mailboxes are recorded and the EEPROM is handed back to the device.
    pub open spec fn spec_mailboxes_done(self, cfg: SyncManagerMbxConfig, idx: u16) -> Step<
        Slot,
        bool,
    > {
        Step {
            next: Slot {
                device: self.spec_with_mailboxes(cfg),
                work: Work::Mailbox(MailboxConfigState::SetEepromPdi),
            },
            sent: eeprom_owner(self.device.configured_address, SiiOwner::Pdi, idx),
            result: Ok(false),
        }
    }

    /// Whether the sync-manager types can be read from the device: it speaks
    /// CoE with complete access and has both mailboxes.
    pub open spec fn spec_reads_types(self) -> bool {
        let mailbox = self.device.config.mailbox;
        mailbox.has_coe && mailbox.complete_access && mailbox.write is Some && mailbox.read is Some
    }

    /// One answer applied to the set-up of the device's mailboxes; `true`
    /// when the set-up is complete.
    pub open spec fn spec_mailbox_update(
        self,
        data: Seq<u8>,
        header: PduHeader,
        idx: u16,
        identifier: Option<u8>,
    ) -> Step<Slot, bool> {
        let address = self.device.configured_address;
        match self.work {
            Work::Mailbox(MailboxConfigState::SetEepromMaster) => {
                let st = CategoryIter::<8>::Categories(
                    crate::eeprom::CategoryReader::spec_new(CategoryType::SyncManager, 0),
                ).spec_start(address, idx);
                Step {
                    next: Slot {
                        work: Work::Mailbox(
                            MailboxConfigState::SyncManagers(st.next, SmList::spec_new(SyncManager::spec_empty())),
                        ),
                        ..self
                    },
                    sent: st.sent,
                    result: Ok(false),
                }
            },
            Work::Mailbox(MailboxConfigState::SyncManagers(iter, collected)) => {
                let inner = iter.spec_update(data, address, idx);
                match inner.result {
                    Err(e) => failed(self, e),
                    Ok(None) => Step {
                        next: Slot {
                            work: Work::Mailbox(
                                MailboxConfigState::SyncManagers(inner.next, collected),
                            ),
                            ..self
                        },
                        sent: inner.sent,
                        result: Ok(false),
                    },
                    Ok(Some(more)) => match inner.next {
                        CategoryIter::Categories(_) => failed(self, Error::WireCodec),
                        CategoryIter::Category(reader, _) => match SyncManager::spec_decode(
                            reader.buffer@,
                        ) {
                            Err(e) => failed(self, e),
                            Ok(sm) => if collected.spec_full() {
                                failed(self, Error::Capacity)
                            } else if more {
                                Step {
                                    next: Slot {
                                        work: Work::Mailbox(
                                            MailboxConfigState::SyncManagers(
                                                inner.next,
                                                collected.spec_push(sm),
                                            ),
                                        ),
                                        ..self
                                    },
                                    sent: inner.sent,
                                    result: Ok(false),
                                }
                            } else {
                                let st = NameState::spec_range::<26>(
                                    SII_DEFAULT_MAILBOX_START,
                                    DEFAULT_MAILBOX_LEN,
                                    0,
                                ).spec_start(address, idx);
                                Step {
                                    next: Slot {
                                        work: Work::Mailbox(
                                            MailboxConfigState::GetMailboxConfig(
                                                collected.spec_push(sm),
                                                st.next,
                                            ),
                                        ),
                                        ..self
                                    },
                                    sent: inner.sent + st.sent,
                                    result: Ok(false),
                                }
                            },
                        },
                    },
                }
            },
            Work::Mailbox(MailboxConfigState::GetMailboxConfig(managers, reader)) => {
                let inner = reader.spec_update(data, address, idx);
                match inner.result {
                    Err(e) => failed(self, e),
                    Ok(false) => Step {
                        next: Slot {
                            work: Work::Mailbox(
                                MailboxConfigState::GetMailboxConfig(managers, inner.next),
                            ),
                            ..self
                        },
                        sent: inner.sent,
                        result: Ok(false),
                    },
                    Ok(true) => match DefaultMailbox::spec_decode(inner.next.buffer@) {
                        Err(e) => failed(self, e),
                        Ok(layout) => {
                            let first = SyncManagerMbxConfig::spec_new(managers, layout).spec_update(
                                address,
                                idx,
                            );
                            if first.result == Ok::<bool, Error>(true) {
                                self.spec_mailboxes_done(first.next, idx)
                            } else {
                                Step {
                                    next: Slot {
                                        work: Work::Mailbox(
                                            MailboxConfigState::ConfigureMailboxSms(first.next),
                                        ),
                                        ..self
                                    },
                                    sent: first.sent,
                                    result: Ok(false),
                                }
                            }
                        },
                    },
                }
            },
            Work::Mailbox(MailboxConfigState::ConfigureMailboxSms(cfg)) => {
                let inner = cfg.spec_update(address, idx);
                if inner.result == Ok::<bool, Error>(true) {
                    self.spec_mailboxes_done(inner.next, idx)
                } else {
                    Step {
                        next: Slot {
                            work: Work::Mailbox(MailboxConfigState::ConfigureMailboxSms(inner.next)),
                            ..self
                        },
                        sent: inner.sent,
                        result: Ok(false),
                    }
                }
            },
            Work::Mailbox(MailboxConfigState::SetEepromPdi) => Step {
                next: Slot {
                    work: Work::Mailbox(
                        MailboxConfigState::PreOpTransition(
                            Transition {
                                requested: SubDeviceState::PreOp,
                                state: crate::state_transition::TransitionState::Transition,
                            },
                        ),
                    ),
                    ..self
                },
                sent: Transition {
                    requested: SubDeviceState::PreOp,
                    state: crate::state_transition::TransitionState::Transition,
                }.spec_start(address, idx),
                result: Ok(false),
            },
            Work::Mailbox(MailboxConfigState::PreOpTransition(transition)) => {
                let inner = transition.spec_update(data, address, idx);
                match inner.result {
                    Err(e) => failed(self, e),
                    Ok(false) => Step {
                        next: Slot {
                            work: Work::Mailbox(MailboxConfigState::PreOpTransition(inner.next)),
                            ..self
                        },
                        sent: inner.sent,
                        result: Ok(false),
                    },
                    Ok(true) => if self.spec_reads_types() {
                        let read = SdoRead::spec_new(
                            self.device.mailbox_counter,
                            SM_TYPE_ADDRESS,
                            SubIndex::Complete,
                        );
                        Step {
                            next: Slot {
                                device: SubDevice {
                                    mailbox_counter: SubDevice::next_counter(
                                        self.device.mailbox_counter,
                                    ),
                                    ..self.device
                                },
                                work: Work::Mailbox(MailboxConfigState::CoeSyncManagers(read)),
                            },
                            sent: read.inner.spec_start(
                                self.device.config.mailbox.write->0,
                                self.device.config.mailbox.read->0,
                                address,
                                identifier,
                                idx,
                            ),
                            result: Ok(false),
                        }
                    } else {
                        Step {
                            next: Slot {
                                work: Work::Mailbox(MailboxConfigState::ResetEepromMaster),
                                ..self
                            },
                            sent: eeprom_owner(address, SiiOwner::Master, idx),
                            result: Ok(false),
                        }
                    },
                }
            },
            Work::Mailbox(MailboxConfigState::CoeSyncManagers(read)) => {
                let mailbox = self.device.config.mailbox;
                if mailbox.write is None || mailbox.read is None {
                    failed(self, Error::WireCodec)
                } else {
                    let inner = read.spec_update(
                        data,
                        mailbox.write->0,
                        mailbox.read->0,
                        address,
                        identifier,
                        idx,
                    );
                    match inner.result {
                        Err(e) => failed(self, e),
                        Ok(None) => Step {
                            next: Slot {
                                work: Work::Mailbox(MailboxConfigState::CoeSyncManagers(inner.next)),
                                ..self
                            },
                            sent: inner.sent,
                            result: Ok(false),
                        },
                        Ok(Some(place)) => {
                            let types = spec_types(crate::sdo::payload_bytes(data, place));
                            Step {
                                next: Slot {
                                    device: SubDevice {
                                        config: SubDeviceConfig {
                                            mailbox: MailboxSetup {
                                                coe_sync_manager_types: types.0,
                                                coe_sync_manager_count: types.1,
                                                ..mailbox
                                            },
                                            ..self.device.config
                                        },
                                        ..self.device
                                    },
                                    work: Work::Mailbox(MailboxConfigState::ResetEepromMaster),
                                },
                                sent: eeprom_owner(address, SiiOwner::Master, idx),
                                result: Ok(false),
                            }
                        },
                    }
                }
            },
            Work::Mailbox(MailboxConfigState::ResetEepromMaster) => quiet(
                Slot { work: Work::Idle, ..self },
                true,
            ),
            _ => failed(self, Error::WireCodec),
        }
    }

    fn mailboxes_done(&mut self, cfg: &SyncManagerMbxConfig, idx: u16, out: &mut Vec<Request>)
        ensures
            *final(self) == old(self).spec_mailboxes_done(*cfg, idx).next,
            final(out)@ == old(out)@ + old(self).spec_mailboxes_done(*cfg, idx).sent,
    {
        let has_read = match cfg.read_mbx {
            Some(m) => m.len > 0,
            None => false,
        };
        self.device.config.mailbox.has_coe = cfg.default_mbx.supported_protocols & PROTOCOL_COE != 0
            && has_read;
        self.device.config.mailbox.read = cfg.read_mbx;
        self.device.config.mailbox.write = cfg.write_mbx;
        self.device.config.mailbox.supported_protocols = cfg.default_mbx.supported_protocols;
        send(
            out,
            Pdu::SetEeprom { address: self.device.configured_address, owner: SiiOwner::Pdi },
            Some(idx),
            None,
        );
        self.work = Work::Mailbox(MailboxConfigState::SetEepromPdi);
    }

    pub fn mailbox_update(
        &mut self,
        received: &[u8],
        header: &PduHeader,
        idx: u16,
        identifier: Option<u8>,
        out: &mut Vec<Request>,
    ) -> (r: Result<bool, Error>)
        ensures
            ({
                let step = old(self).spec_mailbox_update(received@, *header, idx, identifier);
                &&& *final(self) == step.next
                &&& final(out)@ == old(out)@ + step.sent
                &&& r == step.result
            }),
    {
        proof {
            lemma_sent_nothing(out@);
        }
        let address = self.device.configured_address;
        match self.work {
            Work::Mailbox(MailboxConfigState::SetEepromMaster) => {
                let mut iter = CategoryIter::<8>::new(CategoryType::SyncManager, 0);
                let _ = iter.start(address, idx, out);
                self.work = Work::Mailbox(
                    MailboxConfigState::SyncManagers(iter, SmList::new(SyncManager::empty())),
                );
                Ok(false)
            },
            Work::Mailbox(MailboxConfigState::SyncManagers(iter, collected)) => {
                let mut walk = iter;
                let mut list = collected;
                let mut sent: Vec<Request> = Vec::new();
                let more = match walk.update(received, address, idx, &mut sent)? {
                    None => {
                        out.append(&mut sent);
                        self.work = Work::Mailbox(MailboxConfigState::SyncManagers(walk, list));
                        return Ok(false);
                    },
                    Some(more) => more,
                };
                let sm = match walk.buffer() {
                    None => {
                        return Err(Error::WireCodec);
                    },
                    Some(buffer) => SyncManager::decode(vstd::array::array_as_slice(buffer))?,
                };
                list.push(sm)?;
                out.append(&mut sent);
                if more {
                    self.work = Work::Mailbox(MailboxConfigState::SyncManagers(walk, list));
                } else {
                    let mut reader = RangeReader::<26>::new(
                        SII_DEFAULT_MAILBOX_START,
                        DEFAULT_MAILBOX_LEN,
                        zeroed::<26>(),
                        0,
                    );
                    let _ = reader.start(address, idx, out);
                    proof {
                        lemma_sent_both(
                            old(out)@,
                            iter.spec_update(received@, address, idx).sent,
                            NameState::spec_range::<26>(
                                SII_DEFAULT_MAILBOX_START,
                                DEFAULT_MAILBOX_LEN,
                                0,
                            ).spec_start(address, idx).sent,
                        );
                    }
                    self.work = Work::Mailbox(MailboxConfigState::GetMailboxConfig(list, reader));
                }
                Ok(false)
            },
            Work::Mailbox(MailboxConfigState::GetMailboxConfig(managers, reader)) => {
                let mut range = reader;
                if !range.update(received, address, idx, out)? {
                    self.work = Work::Mailbox(MailboxConfigState::GetMailboxConfig(managers, range));
                    return Ok(false);
                }
                let layout = DefaultMailbox::decode(vstd::array::array_as_slice(&range.buffer))?;
                let mut cfg = SyncManagerMbxConfig::new(managers, layout);
                if cfg.update(address, idx, out) {
                    self.mailboxes_done(&cfg, idx, out);
                } else {
                    self.work = Work::Mailbox(MailboxConfigState::ConfigureMailboxSms(cfg));
                }
                Ok(false)
            },
            Work::Mailbox(MailboxConfigState::ConfigureMailboxSms(cfg)) => {
                let mut next = cfg;
                if next.update(address, idx, out) {
                    self.mailboxes_done(&next, idx, out);
                } else {
                    self.work = Work::Mailbox(MailboxConfigState::ConfigureMailboxSms(next));
                }
                Ok(false)
            },
            Work::Mailbox(MailboxConfigState::SetEepromPdi) => {
                let transition = Transition::new(SubDeviceState::PreOp);
                transition.start(address, idx, out);
                self.work = Work::Mailbox(MailboxConfigState::PreOpTransition(transition));
                Ok(false)
            },
            Work::Mailbox(MailboxConfigState::PreOpTransition(transition)) => {
                let mut next = transition;
                if !next.update(received, address, idx, out)? {
                    self.work = Work::Mailbox(MailboxConfigState::PreOpTransition(next));
                    return Ok(false);
                }
                let mailbox = self.device.config.mailbox;
                match (mailbox.has_coe && mailbox.complete_access, mailbox.write, mailbox.read) {
                    (true, Some(write_mbx), Some(read_mbx)) => {
                        let counter = self.device.mailbox_counter();
                        let read = SdoRead::new(counter, SM_TYPE_ADDRESS, SubIndex::Complete);
                        read.start(&write_mbx, &read_mbx, address, identifier, idx, out);
                        self.work = Work::Mailbox(MailboxConfigState::CoeSyncManagers(read));
                    },
                    _ => {
                        send(
                            out,
                            Pdu::SetEeprom { address, owner: SiiOwner::Master },
                            Some(idx),
                            None,
                        );
                        self.work = Work::Mailbox(MailboxConfigState::ResetEepromMaster);
                    },
                }
                Ok(false)
            },
            Work::Mailbox(MailboxConfigState::CoeSyncManagers(read)) => {
                let mailbox = self.device.config.mailbox;
                let (write_mbx, read_mbx) = match (mailbox.write, mailbox.read) {
                    (Some(w), Some(r)) => (w, r),
                    _ => {
                        return Err(Error::WireCodec);
                    },
                };
                let mut next = read;
                match next.update(received, &write_mbx, &read_mbx, address, identifier, idx, out)? {
                    None => {
                        self.work = Work::Mailbox(MailboxConfigState::CoeSyncManagers(next));
                    },
                    Some((at, len)) => {
                        let (types, count) = copy_types(slice_subrange(received, at, at + len));
                        self.device.config.mailbox.coe_sync_manager_types = types;
                        self.device.config.mailbox.coe_sync_manager_count = count;
                        send(
                            out,
                            Pdu::SetEeprom { address, owner: SiiOwner::Master },
                            Some(idx),
                            None,
                        );
                        self.work = Work::Mailbox(MailboxConfigState::ResetEepromMaster);
                    },
                }
                Ok(false)
            },
            Work::Mailbox(MailboxConfigState::ResetEepromMaster) => {
                self.work = Work::Idle;
                Ok(true)
            },
            _ => Err(Error::WireCodec),
        }
    }
}

/// The stage: the devices and the number of those whose mailboxes are set up.
pub struct MailboxConfig {
    pub devices: DeviceQueue,
    pub transition_idx: u16,
}

/// The stage as a value.
pub struct MailboxConfigModel {
    pub devices: Seq<Slot>,
    pub transition_idx: u16,
}

impl View for MailboxConfig {
    type V = MailboxConfigModel;

    open spec fn view(&self) -> MailboxConfigModel {
        MailboxConfigModel { devices: self.devices@, transition_idx: self.transition_idx }
    }
}

/// The PDU that begins the set-up of the device at position `at`, if there
/// is one.
pub open spec fn mailbox_start(slots: Seq<Slot>, at: int) -> Seq<Request> {
    if 0 <= at < slots.len() {
        eeprom_owner(slots[at].device.configured_address, SiiOwner::Master, at as u16)
    } else {
        seq![]
    }
}

impl MailboxConfigModel {
    /// The stage at its beginning: every device awaits its set-up.
    pub open spec fn spec_start_new(devices: Seq<Slot>) -> MailboxConfigModel {
        MailboxConfigModel {
            devices: crate::queue::with_work(
                devices,
                Work::Mailbox(MailboxConfigState::SetEepromMaster),
            ),
            transition_idx: 0,
        }
    }

    /// One answer applied to the stage; `true` when the mailboxes of all
    /// devices are set up. The answer belongs to the device that its index
    /// names. When the set-up of a device is complete the next device in
    /// ring order is begun.
    pub open spec fn spec_update(
        self,
        data: Seq<u8>,
        header: PduHeader,
        identifier: Option<u8>,
        idx: Option<u16>,
    ) -> Step<MailboxConfigModel, bool> {
        let len = self.devices.len() as int;
        if idx is None || idx->0 >= len || self.transition_idx >= len {
            failed(self, Error::WireCodec)
        } else {
            let inner = self.devices[idx->0 as int].spec_mailbox_update(
                data,
                header,
                idx->0,
                identifier,
            );
            let devices = self.devices.update(idx->0 as int, inner.next);
            match inner.result {
                Err(e) => failed(self, e),
                Ok(false) => Step {
                    next: MailboxConfigModel { devices, ..self },
                    sent: inner.sent,
                    result: Ok(false),
                },
                Ok(true) => Step {
                    next: MailboxConfigModel {
                        devices,
                        transition_idx: (self.transition_idx + 1) as u16,
                    },
                    sent: inner.sent + mailbox_start(devices, self.transition_idx + 1),
                    result: Ok(self.transition_idx + 1 == len),
                },
            }
        }
    }
}

impl MailboxConfig {
    /// Begins the stage with the set-up of the first device.
    pub fn start_new(devices: DeviceQueue, out: &mut Vec<Request>) -> (stage: Self)
        ensures
            stage@ == MailboxConfigModel::spec_start_new(devices@),
            final(out)@ == old(out)@ + mailbox_start(devices@, 0),
    {
        proof {
            lemma_sent_nothing(out@);
        }
        let mut devices = devices;
        devices.set_all_work(Work::Mailbox(MailboxConfigState::SetEepromMaster));
        match devices.device(0) {
            Some(first) => {
                send(
                    out,
                    Pdu::SetEeprom { address: first.configured_address, owner: SiiOwner::Master },
                    Some(0),
                    None,
                );
            },
            None => {},
        }
        MailboxConfig { devices, transition_idx: 0 }
    }

    /// Applies one answer; `Some(devices)` when the mailboxes of all devices
    /// are set up. The stage then keeps no devices.
    pub fn update(
        &mut self,
        received: &[u8],
        header: &PduHeader,
        identifier: Option<u8>,
        idx: Option<u16>,
        out: &mut Vec<Request>,
    ) -> (r: Result<Option<DeviceQueue>, Error>)
        ensures
            ({
                let step = old(self)@.spec_update(received@, *header, identifier, idx);
                &&& final(out)@ == old(out)@ + step.sent
                &&& match step.result {
                    Err(e) => r matches Err(f) && f == e && final(self)@ == old(self)@,
                    Ok(false) => r matches Ok(None) && final(self)@ == step.next,
                    Ok(true) => r matches Ok(Some(devices)) && devices@ == step.next.devices
                        && final(self)@ == (MailboxConfigModel {
                        devices: Seq::empty(),
                        ..step.next
                    }),
                }
            }),
    {
        proof {
            lemma_sent_nothing(out@);
        }
        let len = self.devices.count();
        let at = match idx {
            Some(i) => i,
            None => {
                return Err(Error::WireCodec);
            },
        };
        if self.transition_idx as usize >= len {
            return Err(Error::WireCodec);
        }
        let mut slot = match self.devices.slot(at as usize) {
            Some(s) => s,
            None => {
                return Err(Error::WireCodec);
            },
        };
        let complete = slot.mailbox_update(received, header, at, identifier, out)?;
        self.devices.put(at as usize, slot);
        if !complete {
            return Ok(None);
        }
        let ghost sent = old(self)@.devices[at as int].spec_mailbox_update(
            received@,
            *header,
            at,
            identifier,
        ).sent;
        self.transition_idx = self.transition_idx + 1;
        match self.devices.device(self.transition_idx as usize) {
            Some(next) => {
                send(
                    out,
                    Pdu::SetEeprom { address: next.configured_address, owner: SiiOwner::Master },
                    Some(self.transition_idx),
                    None,
                );
                proof {
                    lemma_sent_both(
                        old(out)@,
                        sent,
                        mailbox_start(self.devices@, self.transition_idx as int),
                    );
                }
                Ok(None)
            },
            None => {
                proof {
                    lemma_sent_both(old(out)@, sent, Seq::empty());
                }
                Ok(Some(self.devices.take()))
            },
        }
    }
}

} // verus!
