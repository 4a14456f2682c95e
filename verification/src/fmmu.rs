//! Programs the FMMUs of one device: the sync managers and FMMU usages are
//! read from the EEPROM; for each direction the process-data sync manager is
//! programmed and an FMMU maps it into the next free bytes of the process
//! image.

use crate::eeprom::{CategoryIter, CategoryReader};
use crate::error::Error;
use crate::list::BoundedList;
use crate::mbx::{role, spec_role, spec_tag_for, tag_for, TAG_FIRST, TAG_SECOND};
use crate::mbx_config::SmList;
use crate::pdo::{PdoConfig, PdoMapping};
use crate::pdo_config::{direction_tag, spec_direction_tag, spec_tag_direction, tag_direction,
    TAG_INPUT, TAG_OUTPUT};
use crate::request::{failed, lemma_sent_both, lemma_sent_nothing, one, quiet, send, Pdu, Request,
    Step};
use crate::subdevice::{IoRanges, PdiSegment, SubDevice, SubDeviceConfig};
use crate::wire::{CategoryType, Fmmu, FmmuUsage, SyncManager, SyncManagerType};
use vstd::prelude::*;

verus! {

/// The FMMU usages of one device, in the order of its EEPROM.
pub type UsageList = BoundedList<FmmuUsage, 16>;

/// What is to be mapped for one direction of a device.
#[derive(Clone, Copy, Debug, PartialEq, Eq, Structural)]
pub struct FmmuMapping {
    pub sync_manager: SyncManager,
    pub sync_manager_index: u8,
    pub fmmu_index: u8,
    /// Bytes of process data of the direction.
    pub length: u16,
}

/// The sync-manager usage of a direction.
pub open spec fn spec_process_data(output: bool) -> SyncManagerType {
    if output {
        SyncManagerType::ProcessDataWrite
    } else {
        SyncManagerType::ProcessDataRead
    }
}

/// The FMMU usage of a direction.
pub open spec fn spec_usage(output: bool) -> FmmuUsage {
    if output {
        FmmuUsage::Outputs
    } else {
        FmmuUsage::Inputs
    }
}

/// Position of the first sync manager at or behind `from` that is used as
/// `usage`.
pub open spec fn first_sync_manager(
    managers: Seq<SyncManager>,
    usage: SyncManagerType,
    from: int,
) -> Option<int>
    decreases managers.len() - from,
{
    if from < 0 || from >= managers.len() {
        None
    } else if managers[from].spec_usage_type() == usage {
        Some(from)
    } else {
        first_sync_manager(managers, usage, from + 1)
    }
}

/// Position of the first FMMU at or behind `from` that is meant for `usage`.
pub open spec fn first_fmmu(fmmus: Seq<FmmuUsage>, usage: FmmuUsage, from: int) -> Option<int>
    decreases fmmus.len() - from,
{
    if from < 0 || from >= fmmus.len() {
        None
    } else if fmmus[from] == usage {
        Some(from)
    } else {
        first_fmmu(fmmus, usage, from + 1)
    }
}

/// Sum of the byte lengths of the first `n` PDOs.
pub open spec fn mappings_len(mappings: Seq<PdoMapping>, n: int) -> int
    decreases n,
{
    if n <= 0 {
        0
    } else {
        mappings_len(mappings, n - 1) + mappings[n - 1].spec_len_bytes()
    }
}

impl FmmuMapping {
    /// The plan for one direction. A direction without PDOs needs none.
    /// Otherwise all PDOs of the direction go through the first sync manager
    /// used for process data of that direction and the first FMMU meant for
    /// it, with their lengths added up. A device that lacks either is
    /// refused, and so is a sum beyond what a length field holds.
    pub open spec fn spec_from_config(
        config: PdoConfig,
        output: bool,
        sync_managers: Seq<SyncManager>,
        fmmus: Seq<FmmuUsage>,
    ) -> Result<Option<FmmuMapping>, Error> {
        let mappings = config.spec_direction(output);
        let total = mappings_len(mappings, mappings.len() as int);
        if mappings.len() == 0 {
            Ok(None)
        } else {
            match (
                first_sync_manager(sync_managers, spec_process_data(output), 0),
                first_fmmu(fmmus, spec_usage(output), 0),
            ) {
                (Some(sm), Some(fmmu)) => if total > u16::MAX {
                    Err(Error::Capacity)
                } else {
                    Ok(
                        Some(
                            FmmuMapping {
                                sync_manager: sync_managers[sm],
                                sync_manager_index: sm as u8,
                                fmmu_index: fmmu as u8,
                                length: total as u16,
                            },
                        ),
                    )
                },
                _ => Err(Error::WireCodec),
            }
        }
    }

    pub fn from_config(
        config: &PdoConfig,
        output: bool,
        sync_managers: &SmList,
        fmmus: &UsageList,
    ) -> (r: Result<Option<FmmuMapping>, Error>)
        ensures
            r == Self::spec_from_config(*config, output, sync_managers@, fmmus@),
    {
        let count = config.count(output) as usize;
        if count == 0 {
            return Ok(None);
        }
        let wanted = if output {
            SyncManagerType::ProcessDataWrite
        } else {
            SyncManagerType::ProcessDataRead
        };
        let usage = if output {
            FmmuUsage::Outputs
        } else {
            FmmuUsage::Inputs
        };
        let mut sm_at: Option<usize> = None;
        let mut i: usize = 0;
        let n = sync_managers.len();
        while i < n && sm_at.is_none()
            invariant
                i <= n,
                n == sync_managers@.len(),
                n <= 8,
                sm_at is None ==> first_sync_manager(sync_managers@, wanted, 0)
                    == first_sync_manager(sync_managers@, wanted, i as int),
                sm_at is Some ==> first_sync_manager(sync_managers@, wanted, 0) == Some(
                    sm_at->0 as int,
                ) && sm_at->0 < n,
            decreases n - i + (if sm_at is None { 1int } else { 0int }),
        {
            let sm = sync_managers.get(i).unwrap();
            if sm.usage_type() == wanted {
                sm_at = Some(i);
            } else {
                i = i + 1;
            }
        }
        let mut fmmu_at: Option<usize> = None;
        let mut j: usize = 0;
        let m = fmmus.len();
        while j < m && fmmu_at.is_none()
            invariant
                j <= m,
                m == fmmus@.len(),
                m <= 16,
                fmmu_at is None ==> first_fmmu(fmmus@, usage, 0) == first_fmmu(
                    fmmus@,
                    usage,
                    j as int,
                ),
                fmmu_at is Some ==> first_fmmu(fmmus@, usage, 0) == Some(fmmu_at->0 as int)
                    && fmmu_at->0 < m,
            decreases m - j + (if fmmu_at is None { 1int } else { 0int }),
        {
            let f = fmmus.get(j).unwrap();
            if f == usage {
                fmmu_at = Some(j);
            } else {
                j = j + 1;
            }
        }
        let (sm, fmmu) = match (sm_at, fmmu_at) {
            (Some(s), Some(f)) => (s, f),
            _ => {
                return Err(Error::WireCodec);
            },
        };
        let mut total: u32 = 0;
        let mut k: usize = 0;
        while k < count
            invariant
                k <= count,
                count == config.spec_direction(output).len(),
                count <= 254,
                total == mappings_len(config.spec_direction(output), k as int),
                total <= 8128 * k,
            decreases count - k,
        {
            let mapping = config.mapping(output, k).unwrap();
            proof {
                crate::pdo::lemma_objects_len_bound(
                    mapping.spec_objects(),
                    mapping.spec_objects().len() as int,
                );
            }
            let _ = mapping.count();
            total = total + mapping.len_bytes() as u32;
            k = k + 1;
        }
        if total > u16::MAX as u32 {
            return Err(Error::Capacity);
        }
        Ok(
            Some(
                FmmuMapping {
                    sync_manager: sync_managers.get(sm).unwrap(),
                    sync_manager_index: sm as u8,
                    fmmu_index: fmmu as u8,
                    length: total as u16,
                },
            ),
        )
    }
}

/// The programming of one FMMU entry.
#[derive(Clone, Copy, Debug, PartialEq, Eq, Structural)]
pub enum FmmuConfig {
    /// The entry is being read.
    ReadFmmu { fmmu_idx: u8, sm_type: SyncManagerType, sm_length_bytes: u16, sm_physical_start_addr: u16 },
    /// The entry is being written.
    WriteConfig(Fmmu, u16, u8),
    /// The entry is being read back.
    CheckFmmu(PdiSegment),
}

/// The read of an FMMU entry.
pub open spec fn fmmu_read(address: u16, index: u8, idx: u16, identifier: Option<u8>) -> Seq<
    Request,
> {
    one(Pdu::ReadFmmu { address, index }, Some(idx), identifier)
}

impl FmmuConfig {
    pub open spec fn spec_new(
        fmmu_idx: u8,
        desired_type: SyncManagerType,
        length_bytes: u16,
        physical_start_address: u16,
    ) -> FmmuConfig {
        FmmuConfig::ReadFmmu {
            fmmu_idx,
            sm_type: desired_type,
            sm_length_bytes: length_bytes,
            sm_physical_start_addr: physical_start_address,
        }
    }

    pub fn new(
        fmmu_idx: u8,
        desired_type: SyncManagerType,
        length_bytes: u16,
        physical_start_address: u16,
    ) -> (f: FmmuConfig)
        ensures
            f == Self::spec_new(fmmu_idx, desired_type, length_bytes, physical_start_address),
    {
        FmmuConfig::ReadFmmu {
            fmmu_idx,
            sm_type: desired_type,
            sm_length_bytes: length_bytes,
            sm_physical_start_addr: physical_start_address,
        }
    }

    /// What `start` sends: the read of the entry, before anything else was
    /// done.
    pub open spec fn spec_start(self, configured_addr: u16, identifier: Option<u8>, idx: u16) -> Seq<
        Request,
    > {
        match self {
            FmmuConfig::ReadFmmu { fmmu_idx, .. } => fmmu_read(
                configured_addr,
                fmmu_idx,
                idx,
                identifier,
            ),
            _ => seq![],
        }
    }

    pub fn start(
        &self,
        configured_addr: u16,
        identifier: Option<u8>,
        idx: u16,
        out: &mut Vec<Request>,
    )
        ensures
            final(out)@ == old(out)@ + self.spec_start(configured_addr, identifier, idx),
    {
        proof {
            lemma_sent_nothing(out@);
        }
        match self {
            FmmuConfig::ReadFmmu { fmmu_idx, .. } => {
                send(
                    out,
                    Pdu::ReadFmmu { address: configured_addr, index: *fmmu_idx },
                    Some(idx),
                    identifier,
                );
            },
            _ => {},
        }
    }

    /// The entry to write, given the entry `current` that the device holds:
    /// an enabled entry grows by the sync manager's length; otherwise a fresh
    /// entry maps the sync manager's memory to the bytes from `pdi_offset`
    /// on, readable for inputs and writable for outputs.
    pub open spec fn spec_entry(
        current: Fmmu,
        sm_type: SyncManagerType,
        sm_length_bytes: u16,
        sm_physical_start_addr: u16,
        pdi_offset: u32,
    ) -> Result<Fmmu, Error> {
        if current.enable {
            if current.length_bytes + sm_length_bytes > u16::MAX {
                Err(Error::Capacity)
            } else {
                Ok(
                    Fmmu {
                        length_bytes: (current.length_bytes + sm_length_bytes) as u16,
                        ..current
                    },
                )
            }
        } else {
            Ok(
                Fmmu {
                    logical_start_address: pdi_offset,
                    length_bytes: sm_length_bytes,
                    logical_start_bit: 0,
                    logical_end_bit: 7,
                    physical_start_address: sm_physical_start_addr,
                    physical_start_bit: 0,
                    read_enable: sm_type == SyncManagerType::ProcessDataRead,
                    write_enable: sm_type == SyncManagerType::ProcessDataWrite,
                    enable: true,
                },
            )
        }
    }

    /// One answer applied to the programming, together with the offset of
    /// the next free byte of the process image. The entry is read, written
    /// and read back. The answer to the write claims the bytes: the device's
    /// segment begins at the offset, which moves on by the length. The
    /// answer to the read-back ends the programming with that segment.
    pub open spec fn spec_update(
        self,
        data: Seq<u8>,
        configured_addr: u16,
        identifier: Option<u8>,
        idx: u16,
        pdi_offset: u32,
    ) -> Step<(FmmuConfig, u32), Option<PdiSegment>> {
        match self {
            FmmuConfig::ReadFmmu { fmmu_idx, sm_type, sm_length_bytes, sm_physical_start_addr } => {
                match Fmmu::spec_decode(data) {
                    Err(e) => failed((self, pdi_offset), e),
                    Ok(current) => match Self::spec_entry(
                        current,
                        sm_type,
                        sm_length_bytes,
                        sm_physical_start_addr,
                        pdi_offset,
                    ) {
                        Err(e) => failed((self, pdi_offset), e),
                        Ok(fmmu) => Step {
                            next: (
                                FmmuConfig::WriteConfig(fmmu, sm_length_bytes, fmmu_idx),
                                pdi_offset,
                            ),
                            sent: one(
                                Pdu::WriteFmmu { address: configured_addr, index: fmmu_idx, fmmu },
                                Some(idx),
                                identifier,
                            ),
                            result: Ok(None),
                        },
                    },
                }
            },
            FmmuConfig::WriteConfig(_, len, fmmu_idx) => if pdi_offset + len > u32::MAX {
                failed((self, pdi_offset), Error::Capacity)
            } else {
                Step {
                    next: (
                        FmmuConfig::CheckFmmu(
                            PdiSegment { start: pdi_offset, end: (pdi_offset + len) as u32 },
                        ),
                        (pdi_offset + len) as u32,
                    ),
                    sent: fmmu_read(configured_addr, fmmu_idx, idx, identifier),
                    result: Ok(None),
                }
            },
            FmmuConfig::CheckFmmu(segment) => match Fmmu::spec_decode(data) {
                Err(e) => failed((self, pdi_offset), e),
                Ok(_) => quiet((self, pdi_offset), Some(segment)),
            },
        }
    }

    pub fn update(
        &mut self,
        received: &[u8],
        configured_addr: u16,
        identifier: Option<u8>,
        idx: u16,
        pdi_offset: &mut u32,
        out: &mut Vec<Request>,
    ) -> (r: Result<Option<PdiSegment>, Error>)
        ensures
            ({
                let step = old(self).spec_update(
                    received@,
                    configured_addr,
                    identifier,
                    idx,
                    *old(pdi_offset),
                );
                &&& (*final(self), *final(pdi_offset)) == step.next
                &&& final(out)@ == old(out)@ + step.sent
                &&& r == step.result
            }),
    {
        proof {
            lemma_sent_nothing(out@);
        }
        match *self {
            FmmuConfig::ReadFmmu { fmmu_idx, sm_type, sm_length_bytes, sm_physical_start_addr } => {
                let current = Fmmu::decode(received)?;
                let fmmu = if current.enable {
                    if sm_length_bytes > u16::MAX - current.length_bytes {
                        return Err(Error::Capacity);
                    }
                    Fmmu { length_bytes: current.length_bytes + sm_length_bytes, ..current }
                } else {
                    Fmmu {
                        logical_start_address: *pdi_offset,
                        length_bytes: sm_length_bytes,
                        logical_start_bit: 0,
                        logical_end_bit: 7,
                        physical_start_address: sm_physical_start_addr,
                        physical_start_bit: 0,
                        read_enable: sm_type == SyncManagerType::ProcessDataRead,
                        write_enable: sm_type == SyncManagerType::ProcessDataWrite,
                        enable: true,
                    }
                };
                send(
                    out,
                    Pdu::WriteFmmu { address: configured_addr, index: fmmu_idx, fmmu },
                    Some(idx),
                    identifier,
                );
                *self = FmmuConfig::WriteConfig(fmmu, sm_length_bytes, fmmu_idx);
                Ok(None)
            },
            FmmuConfig::WriteConfig(_, len, fmmu_idx) => {
                let start = *pdi_offset;
                if len as u32 > u32::MAX - start {
                    return Err(Error::Capacity);
                }
                *pdi_offset = start + len as u32;
                send(
                    out,
                    Pdu::ReadFmmu { address: configured_addr, index: fmmu_idx },
                    Some(idx),
                    identifier,
                );
                *self = FmmuConfig::CheckFmmu(PdiSegment { start, end: start + len as u32 });
                Ok(None)
            },
            FmmuConfig::CheckFmmu(segment) => {
                let _ = Fmmu::decode(received)?;
                Ok(Some(segment))
            },
        }
    }
}

/// The programming of one direction of one device: the sync-manager channel
/// and the FMMU entry, side by side.
#[derive(Clone, Copy, Debug, PartialEq, Eq, Structural)]
pub struct ConfigureFmmu {
    pub receive_sync_manager: bool,
    pub receive_fmmu: bool,
    pub fmmu: FmmuConfig,
}

/// The device with the segment of one direction set.
pub open spec fn with_segment(device: SubDevice, output: bool, segment: PdiSegment) -> SubDevice {
    SubDevice {
        config: SubDeviceConfig {
            io: if output {
                IoRanges { output: segment, ..device.config.io }
            } else {
                IoRanges { input: segment, ..device.config.io }
            },
            ..device.config
        },
        ..device
    }
}

impl ConfigureFmmu {
    pub open spec fn spec_from_fmmu(fmmu: FmmuConfig) -> ConfigureFmmu {
        ConfigureFmmu { receive_sync_manager: false, receive_fmmu: false, fmmu }
    }

    /// The programming of `mapping` at its beginning.
    pub open spec fn spec_new(mapping: FmmuMapping, output: bool) -> ConfigureFmmu {
        Self::spec_from_fmmu(
            FmmuConfig::spec_new(
                mapping.fmmu_index,
                spec_process_data(output),
                mapping.length,
                mapping.sync_manager.start_addr,
            ),
        )
    }

    /// What the beginning sends: the write of the sync-manager channel and
    /// the read of the FMMU entry, each under its own role and both under the
    /// tag of the direction.
    pub open spec fn spec_start(mapping: FmmuMapping, output: bool, configured_addr: u16, idx: u16) -> Seq<
        Request,
    > {
        one(
            Pdu::WriteSmConfig {
                address: configured_addr,
                index: mapping.sync_manager_index,
                sync_manager: mapping.sync_manager,
                length: mapping.length,
            },
            Some(idx),
            Some(spec_tag_for(TAG_FIRST, Some(spec_direction_tag(output)))),
        ) + fmmu_read(
            configured_addr,
            mapping.fmmu_index,
            idx,
            Some(spec_tag_for(TAG_SECOND, Some(spec_direction_tag(output)))),
        )
    }

    /// Creates the programming of `mapping` and sends its first PDUs.
    pub fn start_new(
        mapping: &FmmuMapping,
        output: bool,
        configured_addr: u16,
        idx: u16,
        out: &mut Vec<Request>,
    ) -> (c: ConfigureFmmu)
        ensures
            c == Self::spec_new(*mapping, output),
            final(out)@ == old(out)@ + Self::spec_start(*mapping, output, configured_addr, idx),
    {
        let direction = Some(direction_tag(output));
        send(
            out,
            Pdu::WriteSmConfig {
                address: configured_addr,
                index: mapping.sync_manager_index,
                sync_manager: mapping.sync_manager,
                length: mapping.length,
            },
            Some(idx),
            Some(tag_for(TAG_FIRST, direction)),
        );
        let sm_type = if output {
            SyncManagerType::ProcessDataWrite
        } else {
            SyncManagerType::ProcessDataRead
        };
        let fmmu = FmmuConfig::new(
            mapping.fmmu_index,
            sm_type,
            mapping.length,
            mapping.sync_manager.start_addr,
        );
        let ghost first = out@;
        fmmu.start(configured_addr, Some(tag_for(TAG_SECOND, direction)), idx, out);
        proof {
            lemma_sent_both(
                old(out)@,
                one(
                    Pdu::WriteSmConfig {
                        address: configured_addr,
                        index: mapping.sync_manager_index,
                        sync_manager: mapping.sync_manager,
                        length: mapping.length,
                    },
                    Some(idx),
                    Some(spec_tag_for(TAG_FIRST, Some(spec_direction_tag(output)))),
                ),
                fmmu_read(
                    configured_addr,
                    mapping.fmmu_index,
                    idx,
                    Some(spec_tag_for(TAG_SECOND, Some(spec_direction_tag(output)))),
                ),
            );
        }
        ConfigureFmmu { receive_sync_manager: false, receive_fmmu: false, fmmu }
    }

    /// One answer applied to the programming, together with the device and
    /// the offset of the next free byte; `true` when both the sync-manager
    /// channel and the FMMU entry are done. The role in the tag tells the
    /// acknowledgement of the channel write from the answers of the FMMU
    /// entry; when the entry is done, its segment is recorded in the device.
    pub open spec fn spec_update(
        self,
        device: SubDevice,
        data: Seq<u8>,
        identifier: Option<u8>,
        idx: u16,
        pdi_offset: u32,
        output: bool,
    ) -> Step<(ConfigureFmmu, SubDevice, u32), bool> {
        let same = (self, device, pdi_offset);
        match identifier {
            None => failed(same, Error::WireCodec),
            Some(tag) => if spec_role(tag) == TAG_FIRST {
                quiet(
                    (ConfigureFmmu { receive_sync_manager: true, ..self }, device, pdi_offset),
                    self.receive_fmmu,
                )
            } else if spec_role(tag) == TAG_SECOND {
                let inner = self.fmmu.spec_update(
                    data,
                    device.configured_address,
                    identifier,
                    idx,
                    pdi_offset,
                );
                match inner.result {
                    Err(e) => failed(same, e),
                    Ok(None) => Step {
                        next: (ConfigureFmmu { fmmu: inner.next.0, ..self }, device, inner.next.1),
                        sent: inner.sent,
                        result: Ok(false),
                    },
                    Ok(Some(segment)) => Step {
                        next: (
                            ConfigureFmmu { fmmu: inner.next.0, receive_fmmu: true, ..self },
                            with_segment(device, output, segment),
                            inner.next.1,
                        ),
                        sent: inner.sent,
                        result: Ok(self.receive_sync_manager),
                    },
                }
            } else {
                failed(same, Error::WireCodec)
            },
        }
    }

    pub fn update(
        &mut self,
        subdev: &mut SubDevice,
        received: &[u8],
        identifier: Option<u8>,
        idx: u16,
        pdi_offset: &mut u32,
        output: bool,
        out: &mut Vec<Request>,
    ) -> (r: Result<bool, Error>)
        ensures
            ({
                let step = old(self).spec_update(
                    *old(subdev),
                    received@,
                    identifier,
                    idx,
                    *old(pdi_offset),
                    output,
                );
                &&& (*final(self), *final(subdev), *final(pdi_offset)) == step.next
                &&& final(out)@ == old(out)@ + step.sent
                &&& r == step.result
            }),
    {
        proof {
            lemma_sent_nothing(out@);
        }
        let tag = match identifier {
            Some(t) => t,
            None => {
                return Err(Error::WireCodec);
            },
        };
        if role(tag) == TAG_FIRST {
            self.receive_sync_manager = true;
            Ok(self.receive_fmmu)
        } else if role(tag) == TAG_SECOND {
            let mut fmmu = self.fmmu;
            let done = fmmu.update(
                received,
                subdev.configured_address,
                identifier,
                idx,
                pdi_offset,
                out,
            )?;
            self.fmmu = fmmu;
            match done {
                None => Ok(false),
                Some(segment) => {
                    if output {
                        subdev.config.io.output = segment;
                    } else {
                        subdev.config.io.input = segment;
                    }
                    self.receive_fmmu = true;
                    Ok(self.receive_sync_manager)
                },
            }
        } else {
            Err(Error::WireCodec)
        }
    }
}

/// Which direction of a device has just been programmed.
#[derive(Clone, Copy, Debug, PartialEq, Eq, Structural)]
pub enum Pass {
    Input,
    Output,
}

/// The FMMU programming of one device.
#[derive(Clone, Copy, Debug)]
pub enum ConfigureFmmus {
    /// The sync-manager records are being read.
    SyncManagers(CategoryIter<8>, SmList),
    /// The FMMU usages are being read.
    Mappings(SmList, CategoryIter<1>, UsageList),
    /// The plans of both directions are known; at most one is under way.
    Configure {
        input: Option<FmmuMapping>,
        output: Option<FmmuMapping>,
        current_input: Option<ConfigureFmmu>,
        current_output: Option<ConfigureFmmu>,
    },
}

impl ConfigureFmmus {
    pub open spec fn spec_new() -> ConfigureFmmus {
        ConfigureFmmus::SyncManagers(
            CategoryIter::Categories(CategoryReader::spec_new(CategoryType::SyncManager, 0)),
            SmList::spec_new(SyncManager::spec_empty()),
        )
    }

    pub fn new() -> (c: ConfigureFmmus)
        ensures
            c == Self::spec_new(),
    {
        ConfigureFmmus::SyncManagers(
            CategoryIter::new(CategoryType::SyncManager, 0),
            SmList::new(SyncManager::empty()),
        )
    }

    /// Starting the programming: the walk over the sync-manager records
    /// begins. On a programming that is past that point nothing happens.
    pub open spec fn spec_start(self, configured_addr: u16, idx: u16) -> Step<ConfigureFmmus, ()> {
        match self {
            ConfigureFmmus::SyncManagers(iter, collected) => {
                let st = iter.spec_start(configured_addr, idx);
                Step {
                    next: ConfigureFmmus::SyncManagers(st.next, collected),
                    sent: st.sent,
                    result: Ok(()),
                }
            },
            _ => quiet(self, ()),
        }
    }

    pub fn start(&mut self, configured_addr: u16, idx: u16, out: &mut Vec<Request>)
        ensures
            *final(self) == old(self).spec_start(configured_addr, idx).next,
            final(out)@ == old(out)@ + old(self).spec_start(configured_addr, idx).sent,
    {
        proof {
            lemma_sent_nothing(out@);
        }
        match self {
            ConfigureFmmus::SyncManagers(iter, _) => {
                let mut sent: Vec<Request> = Vec::new();
                let mut walk = *iter;
                match walk.start(configured_addr, idx, &mut sent) {
                    Ok(()) => {
                        *iter = walk;
                        out.append(&mut sent);
                    },
                    Err(_) => {},
                }
            },
            _ => {},
        }
    }

    /// Starting the output direction: the programming of the output plan
    /// begins, and `true` is returned; `false` where the device has no
    /// outputs. Before the plans are known this is an error.
    pub open spec fn spec_start_output(self, configured_addr: u16, idx: u16) -> Step<
        ConfigureFmmus,
        bool,
    > {
        match self {
            ConfigureFmmus::Configure { input, output, current_input, current_output } => match output {
                None => quiet(self, false),
                Some(mapping) => Step {
                    next: ConfigureFmmus::Configure {
                        input,
                        output,
                        current_input,
                        current_output: Some(ConfigureFmmu::spec_new(mapping, true)),
                    },
                    sent: ConfigureFmmu::spec_start(mapping, true, configured_addr, idx),
                    result: Ok(true),
                },
            },
            _ => failed(self, Error::WireCodec),
        }
    }

    pub fn start_output(&mut self, configured_addr: u16, idx: u16, out: &mut Vec<Request>) -> (r:
        Result<bool, Error>)
        ensures
            ({
                let step = old(self).spec_start_output(configured_addr, idx);
                &&& *final(self) == step.next
                &&& final(out)@ == old(out)@ + step.sent
                &&& r == step.result
            }),
    {
        proof {
            lemma_sent_nothing(out@);
        }
        match *self {
            ConfigureFmmus::Configure { input, output, current_input, current_output } => match output {
                None => Ok(false),
                Some(mapping) => {
                    let started = ConfigureFmmu::start_new(&mapping, true, configured_addr, idx, out);
                    *self = ConfigureFmmus::Configure {
                        input,
                        output,
                        current_input,
                        current_output: Some(started),
                    };
                    Ok(true)
                },
            },
            _ => Err(Error::WireCodec),
        }
    }

    /// What follows the last FMMU usage record: the plans of both directions
    /// are made, and the input plan is begun. A device without inputs reports
    /// its input direction as programmed at once.
    pub open spec fn spec_plan(
        device: SubDevice,
        config: PdoConfig,
        managers: Seq<SyncManager>,
        usages: Seq<FmmuUsage>,
        idx: u16,
        pdi_offset: u32,
    ) -> Result<Step<(ConfigureFmmus, SubDevice, u32), Option<Pass>>, Error> {
        match (
            FmmuMapping::spec_from_config(config, false, managers, usages),
            FmmuMapping::spec_from_config(config, true, managers, usages),
        ) {
            (Ok(input), Ok(output)) => Ok(
                match input {
                    None => quiet(
                        (
                            ConfigureFmmus::Configure {
                                input,
                                output,
                                current_input: None,
                                current_output: None,
                            },
                            device,
                            pdi_offset,
                        ),
                        Some(Pass::Input),
                    ),
                    Some(mapping) => Step {
                        next: (
                            ConfigureFmmus::Configure {
                                input,
                                output,
                                current_input: Some(ConfigureFmmu::spec_new(mapping, false)),
                                current_output: None,
                            },
                            device,
                            pdi_offset,
                        ),
                        sent: ConfigureFmmu::spec_start(
                            mapping,
                            false,
                            device.configured_address,
                            idx,
                        ),
                        result: Ok(None),
                    },
                },
            ),
            (Err(e), _) => Err(e),
            (_, Err(e)) => Err(e),
        }
    }

    /// One answer applied to the programming of the device, together with
    /// the device and the offset of the next free byte of the process image.
    /// The result names the direction that has just been programmed, if one
    /// has.
    ///
    /// First the sync-manager records and the FMMU usages are read from the
    /// EEPROM, record by record; a device that has none of either is refused.
    /// Then the plans are made. From then on the direction in the tag routes
    /// the answer to the programming of that direction.
    pub open spec fn spec_update(
        self,
        device: SubDevice,
        data: Seq<u8>,
        config: PdoConfig,
        identifier: Option<u8>,
        idx: u16,
        pdi_offset: u32,
    ) -> Step<(ConfigureFmmus, SubDevice, u32), Option<Pass>> {
        let same = (self, device, pdi_offset);
        let address = device.configured_address;
        match self {
            ConfigureFmmus::SyncManagers(iter, collected) => {
                let inner = iter.spec_update(data, address, idx);
                match inner.result {
                    Err(e) => failed(same, e),
                    Ok(None) => Step {
                        next: (
                            ConfigureFmmus::SyncManagers(inner.next, collected),
                            device,
                            pdi_offset,
                        ),
                        sent: inner.sent,
                        result: Ok(None),
                    },
                    Ok(Some(more)) => match inner.next {
                        CategoryIter::Categories(_) => failed(same, Error::WireCodec),
                        CategoryIter::Category(reader, _) => match SyncManager::spec_decode(
                            reader.buffer@,
                        ) {
                            Err(e) => failed(same, e),
                            Ok(sm) => if collected.spec_full() {
                                failed(same, Error::Capacity)
                            } else if more {
                                Step {
                                    next: (
                                        ConfigureFmmus::SyncManagers(
                                            inner.next,
                                            collected.spec_push(sm),
                                        ),
                                        device,
                                        pdi_offset,
                                    ),
                                    sent: inner.sent,
                                    result: Ok(None),
                                }
                            } else {
                                let st = CategoryIter::<1>::Categories(
                                    CategoryReader::spec_new(CategoryType::Fmmu, 0),
                                ).spec_start(address, idx);
                                Step {
                                    next: (
                                        ConfigureFmmus::Mappings(
                                            collected.spec_push(sm),
                                            st.next,
                                            UsageList::spec_new(FmmuUsage::Unused),
                                        ),
                                        device,
                                        pdi_offset,
                                    ),
                                    sent: inner.sent + st.sent,
                                    result: Ok(None),
                                }
                            },
                        },
                    },
                }
            },
            ConfigureFmmus::Mappings(managers, iter, collected) => {
                let inner = iter.spec_update(data, address, idx);
                match inner.result {
                    Err(e) => failed(same, e),
                    Ok(None) => Step {
                        next: (
                            ConfigureFmmus::Mappings(managers, inner.next, collected),
                            device,
                            pdi_offset,
                        ),
                        sent: inner.sent,
                        result: Ok(None),
                    },
                    Ok(Some(more)) => match inner.next {
                        CategoryIter::Categories(_) => failed(same, Error::WireCodec),
                        CategoryIter::Category(reader, _) => match FmmuUsage::spec_decode(
                            reader.buffer@,
                        ) {
                            Err(e) => failed(same, e),
                            Ok(usage) => if collected.spec_full() {
                                failed(same, Error::Capacity)
                            } else if more {
                                Step {
                                    next: (
                                        ConfigureFmmus::Mappings(
                                            managers,
                                            inner.next,
                                            collected.spec_push(usage),
                                        ),
                                        device,
                                        pdi_offset,
                                    ),
                                    sent: inner.sent,
                                    result: Ok(None),
                                }
                            } else {
                                match Self::spec_plan(
                                    device,
                                    config,
                                    managers@,
                                    collected.spec_push(usage)@,
                                    idx,
                                    pdi_offset,
                                ) {
                                    Err(e) => failed(same, e),
                                    Ok(planned) => Step { sent: inner.sent + planned.sent, ..planned },
                                }
                            },
                        },
                    },
                }
            },
            ConfigureFmmus::Configure { input, output, current_input, current_output } => {
                if identifier is None {
                    failed(same, Error::WireCodec)
                } else if spec_tag_direction(identifier->0) == TAG_INPUT && current_input is Some {
                    let inner = current_input->0.spec_update(
                        device,
                        data,
                        identifier,
                        idx,
                        pdi_offset,
                        false,
                    );
                    match inner.result {
                        Err(e) => failed(same, e),
                        Ok(done) => Step {
                            next: (
                                ConfigureFmmus::Configure {
                                    input,
                                    output,
                                    current_input: if done {
                                        None
                                    } else {
                                        Some(inner.next.0)
                                    },
                                    current_output,
                                },
                                inner.next.1,
                                inner.next.2,
                            ),
                            sent: inner.sent,
                            result: Ok(
                                if done {
                                    Some(Pass::Input)
                                } else {
                                    None
                                },
                            ),
                        },
                    }
                } else if spec_tag_direction(identifier->0) == TAG_OUTPUT && current_output is Some {
                    let inner = current_output->0.spec_update(
                        device,
                        data,
                        identifier,
                        idx,
                        pdi_offset,
                        true,
                    );
                    match inner.result {
                        Err(e) => failed(same, e),
                        Ok(done) => Step {
                            next: (
                                ConfigureFmmus::Configure {
                                    input,
                                    output,
                                    current_input,
                                    current_output: if done {
                                        None
                                    } else {
                                        Some(inner.next.0)
                                    },
                                },
                                inner.next.1,
                                inner.next.2,
                            ),
                            sent: inner.sent,
                            result: Ok(
                                if done {
                                    Some(Pass::Output)
                                } else {
                                    None
                                },
                            ),
                        },
                    }
                } else {
                    failed(same, Error::WireCodec)
                }
            },
        }
    }

    pub fn update(
        &mut self,
        subdev: &mut SubDevice,
        received: &[u8],
        config: &PdoConfig,
        identifier: Option<u8>,
        idx: u16,
        pdi_offset: &mut u32,
        out: &mut Vec<Request>,
    ) -> (r: Result<Option<Pass>, Error>)
        ensures
            ({
                let step = old(self).spec_update(
                    *old(subdev),
                    received@,
                    *config,
                    identifier,
                    idx,
                    *old(pdi_offset),
                );
                &&& (*final(self), *final(subdev), *final(pdi_offset)) == step.next
                &&& final(out)@ == old(out)@ + step.sent
                &&& r == step.result
            }),
    {
        proof {
            lemma_sent_nothing(out@);
        }
        let address = subdev.configured_address;
        match *self {
            ConfigureFmmus::SyncManagers(iter, collected) => {
                let mut walk = iter;
                let mut list = collected;
                let mut sent: Vec<Request> = Vec::new();
                let more = match walk.update(received, address, idx, &mut sent)? {
                    None => {
                        out.append(&mut sent);
                        *self = ConfigureFmmus::SyncManagers(walk, list);
                        return Ok(None);
                    },
                    Some(more) => more,
                };
                let sm = match walk.buffer() {
                    None => {
                        return Err(Error::WireCodec);
                    },
                    Some(buffer) => SyncManager::decode(vstd::array::array_as_slice(buffer))?,
                };
                list.push(sm)?;
                out.append(&mut sent);
                if more {
                    *self = ConfigureFmmus::SyncManagers(walk, list);
                } else {
                    let mut usages = CategoryIter::<1>::new(CategoryType::Fmmu, 0);
                    let _ = usages.start(address, idx, out);
                    proof {
                        lemma_sent_both(
                            old(out)@,
                            iter.spec_update(received@, address, idx).sent,
                            CategoryIter::<1>::Categories(
                                CategoryReader::spec_new(CategoryType::Fmmu, 0),
                            ).spec_start(address, idx).sent,
                        );
                    }
                    *self = ConfigureFmmus::Mappings(list, usages, UsageList::new(FmmuUsage::Unused));
                }
                Ok(None)
            },
            ConfigureFmmus::Mappings(managers, iter, collected) => {
                let mut walk = iter;
                let mut list = collected;
                let mut sent: Vec<Request> = Vec::new();
                let more = match walk.update(received, address, idx, &mut sent)? {
                    None => {
                        out.append(&mut sent);
                        *self = ConfigureFmmus::Mappings(managers, walk, list);
                        return Ok(None);
                    },
                    Some(more) => more,
                };
                let usage = match walk.buffer() {
                    None => {
                        return Err(Error::WireCodec);
                    },
                    Some(buffer) => FmmuUsage::decode(vstd::array::array_as_slice(buffer))?,
                };
                list.push(usage)?;
                if more {
                    out.append(&mut sent);
                    *self = ConfigureFmmus::Mappings(managers, walk, list);
                    return Ok(None);
                }
                let input = FmmuMapping::from_config(config, false, &managers, &list)?;
                let output = FmmuMapping::from_config(config, true, &managers, &list)?;
                out.append(&mut sent);
                match input {
                    None => {
                        *self = ConfigureFmmus::Configure {
                            input,
                            output,
                            current_input: None,
                            current_output: None,
                        };
                        proof {
                            lemma_sent_both(
                                old(out)@,
                                iter.spec_update(received@, address, idx).sent,
                                Seq::empty(),
                            );
                        }
                        Ok(Some(Pass::Input))
                    },
                    Some(mapping) => {
                        let started = ConfigureFmmu::start_new(&mapping, false, address, idx, out);
                        *self = ConfigureFmmus::Configure {
                            input,
                            output,
                            current_input: Some(started),
                            current_output: None,
                        };
                        proof {
                            lemma_sent_both(
                                old(out)@,
                                iter.spec_update(received@, address, idx).sent,
                                ConfigureFmmu::spec_start(mapping, false, address, idx),
                            );
                        }
                        Ok(None)
                    },
                }
            },
            ConfigureFmmus::Configure { input, output, current_input, current_output } => {
                let tag = match identifier {
                    Some(t) => t,
                    None => {
                        return Err(Error::WireCodec);
                    },
                };
                let direction = tag_direction(tag);
                match (direction, current_input, current_output) {
                    (TAG_INPUT, Some(current), _) => {
                        let mut programming = current;
                        let done = programming.update(
                            subdev,
                            received,
                            identifier,
                            idx,
                            pdi_offset,
                            false,
                            out,
                        )?;
                        *self = ConfigureFmmus::Configure {
                            input,
                            output,
                            current_input: if done {
                                None
                            } else {
                                Some(programming)
                            },
                            current_output,
                        };
                        Ok(
                            if done {
                                Some(Pass::Input)
                            } else {
                                None
                            },
                        )
                    },
                    (TAG_OUTPUT, _, Some(current)) => {
                        let mut programming = current;
                        let done = programming.update(
                            subdev,
                            received,
                            identifier,
                            idx,
                            pdi_offset,
                            true,
                            out,
                        )?;
                        *self = ConfigureFmmus::Configure {
                            input,
                            output,
                            current_input,
                            current_output: if done {
                                None
                            } else {
                                Some(programming)
                            },
                        };
                        Ok(
                            if done {
                                Some(Pass::Output)
                            } else {
                                None
                            },
                        )
                    },
                    _ => Err(Error::WireCodec),
                }
            },
        }
    }
}

} // verus!
