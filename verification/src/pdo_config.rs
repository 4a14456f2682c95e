//! Writes a device's PDO layout into its object dictionary over CoE: every
//! PDO is cleared, filled entry by entry and given its count; then the PDO
//! assignment of the input sync manager and of the output sync manager are
//! written in the same way.

use crate::error::Error;
use crate::mbx::{caller_tag, spec_caller_tag};
use crate::pdo::{PdoConfig, PdoMapping, MAX_ENTRIES};
use crate::request::{failed, lemma_sent_both, lemma_sent_nothing, Request, Step, SubIndex};
use crate::sdo::{SdoValue, SdoWrite};
use crate::subdevice::{Mailbox, SubDevice};
use vstd::prelude::*;

verus! {

/// Object that holds the PDO assignment of the input sync manager; the one of
/// the output sync manager follows it.
pub const SM_ASSIGNMENT_BASE: u16 = 0x1c12;

/// Caller's tag of the input direction.
pub const TAG_INPUT: u8 = 1;

/// Caller's tag of the output direction.
pub const TAG_OUTPUT: u8 = 2;

/// The caller's tag of a direction.
pub open spec fn spec_direction_tag(output: bool) -> u8 {
    if output {
        TAG_OUTPUT
    } else {
        TAG_INPUT
    }
}

pub fn direction_tag(output: bool) -> (t: u8)
    ensures
        t == spec_direction_tag(output),
{
    if output {
        TAG_OUTPUT
    } else {
        TAG_INPUT
    }
}

/// The direction that a reply tag names in the two bits above the mailbox
/// layer's.
pub open spec fn spec_tag_direction(tag: u8) -> u8 {
    (tag >> 2) & 0b11
}

pub fn tag_direction(tag: u8) -> (d: u8)
    ensures
        d == spec_tag_direction(tag),
{
    (tag >> 2) & 0b11
}

/// The list of values that is written into the sub-indices of one object.
pub enum Entries<'a> {
    /// The objects of a PDO, as 32-bit words.
    Objects(&'a PdoMapping),
    /// The indices of the PDOs of one direction, as 16-bit words.
    Assignments(&'a PdoConfig, bool),
}

impl<'a> View for Entries<'a> {
    type V = Seq<SdoValue>;

    open spec fn view(&self) -> Seq<SdoValue> {
        match *self {
            Entries::Objects(mapping) => Seq::new(
                mapping.spec_objects().len(),
                |i: int| SdoValue::U32(mapping.spec_objects()[i].0),
            ),
            Entries::Assignments(config, output) => Seq::new(
                config.spec_direction(output).len(),
                |i: int| SdoValue::U16(config.spec_direction(output)[i].spec_index()),
            ),
        }
    }
}

impl<'a> Entries<'a> {
    pub fn count(&self) -> (n: u8)
        ensures
            n == self@.len(),
            self@.len() <= MAX_ENTRIES,
    {
        match self {
            Entries::Objects(mapping) => mapping.count(),
            Entries::Assignments(config, output) => config.count(*output),
        }
    }

    pub fn get(&self, at: usize) -> (r: Option<SdoValue>)
        ensures
            r == (if at < self@.len() {
                Some(self@[at as int])
            } else {
                None
            }),
    {
        match self {
            Entries::Objects(mapping) => match mapping.object(at) {
                Some(o) => Some(SdoValue::U32(o.0)),
                None => None,
            },
            Entries::Assignments(config, output) => match config.mapping(*output, at) {
                Some(m) => Some(SdoValue::U16(m.index())),
                None => None,
            },
        }
    }
}

#[derive(Clone, Copy, Debug, PartialEq, Eq)]
pub enum PdoMapState {
    /// Sub-index 0 is being set to 0.
    Clear(SdoWrite),
    /// The entry at this position is being written.
    MapEntry(SdoWrite, u8),
    /// Sub-index 0 is being set to the number of entries.
    SetCount(SdoWrite),
}

/// Writes a list of entries into one object.
#[derive(Clone, Copy, Debug, PartialEq, Eq)]
pub struct PdoMap {
    pub index: u16,
    pub state: PdoMapState,
}

/// A device after it gave out a mailbox counter.
pub open spec fn counted(device: SubDevice) -> SubDevice {
    SubDevice { mailbox_counter: SubDevice::next_counter(device.mailbox_counter), ..device }
}

impl PdoMap {
    /// The writer for the object `index`, about to clear it.
    pub open spec fn spec_new(device: SubDevice, index: u16) -> (PdoMap, SubDevice) {
        (
            PdoMap {
                index,
                state: PdoMapState::Clear(
                    SdoWrite::spec_new(
                        device.mailbox_counter,
                        index,
                        SubIndex::Index(0),
                        SdoValue::U8(0),
                    ),
                ),
            },
            counted(device),
        )
    }

    pub fn new(device: &mut SubDevice, index: u16) -> (m: PdoMap)
        ensures
            (m, *final(device)) == Self::spec_new(*old(device), index),
    {
        PdoMap {
            index,
            state: PdoMapState::Clear(
                SdoWrite::new(device, index, SubIndex::Index(0), SdoValue::U8(0)),
            ),
        }
    }

    /// What `start` sends: the beginning of the clearing write.
    pub open spec fn spec_start(
        self,
        write_mbx: Mailbox,
        read_mbx: Mailbox,
        configured_addr: u16,
        identifier: Option<u8>,
        idx: u16,
    ) -> Seq<Request> {
        match self.state {
            PdoMapState::Clear(w) => w.inner.spec_start(
                write_mbx,
                read_mbx,
                configured_addr,
                identifier,
                idx,
            ),
            _ => seq![],
        }
    }

    /// Begins the writing; `identifier` is the caller's own tag.
    pub fn start(
        &self,
        write_mbx: &Mailbox,
        read_mbx: &Mailbox,
        configured_addr: u16,
        identifier: Option<u8>,
        idx: u16,
        out: &mut Vec<Request>,
    )
        ensures
            final(out)@ == old(out)@ + self.spec_start(
                *write_mbx,
                *read_mbx,
                configured_addr,
                identifier,
                idx,
            ),
    {
        proof {
            lemma_sent_nothing(out@);
        }
        match &self.state {
            PdoMapState::Clear(w) => w.start(write_mbx, read_mbx, configured_addr, identifier, idx, out),
            _ => {},
        }
    }

    /// The write that follows a confirmed one, for an object of `entries`:
    /// after the clearing write the first entry, after an entry the next one,
    /// after the last entry the count. `None` where nothing follows: after
    /// the count, and after the clearing of an object without entries.
    pub open spec fn spec_following(self, entries: Seq<SdoValue>) -> Option<
        (SubIndex, SdoValue, PdoMapState),
    > {
        let placeholder = SdoWrite::spec_new(0, 0, SubIndex::Index(0), SdoValue::U8(0));
        match self.state {
            PdoMapState::Clear(_) => if entries.len() == 0 {
                None
            } else {
                Some((SubIndex::Index(1), entries[0], PdoMapState::MapEntry(placeholder, 0)))
            },
            PdoMapState::MapEntry(_, at) => if at + 1 < entries.len() {
                Some(
                    (
                        SubIndex::Index((at + 2) as u8),
                        entries[at + 1],
                        PdoMapState::MapEntry(placeholder, (at + 1) as u8),
                    ),
                )
            } else {
                Some(
                    (
                        SubIndex::Index(0),
                        SdoValue::U8(entries.len() as u8),
                        PdoMapState::SetCount(placeholder),
                    ),
                )
            },
            PdoMapState::SetCount(_) => None,
        }
    }

    /// The state `shape` with `write` as its write.
    pub open spec fn spec_with_write(shape: PdoMapState, write: SdoWrite) -> PdoMapState {
        match shape {
            PdoMapState::Clear(_) => PdoMapState::Clear(write),
            PdoMapState::MapEntry(_, at) => PdoMapState::MapEntry(write, at),
            PdoMapState::SetCount(_) => PdoMapState::SetCount(write),
        }
    }

    /// The write that is under way.
    pub open spec fn spec_write(self) -> SdoWrite {
        match self.state {
            PdoMapState::Clear(w) => w,
            PdoMapState::MapEntry(w, _) => w,
            PdoMapState::SetCount(w) => w,
        }
    }

    /// One answer applied to the writing of `entries` into the object;
    /// `true` when the object is written. The answer moves the write that is
    /// under way; when the device has confirmed it, the following write is
    /// begun, with the device's next mailbox counter and under the caller's
    /// tag that the answer carries.
    pub open spec fn spec_update(
        self,
        device: SubDevice,
        data: Seq<u8>,
        entries: Seq<SdoValue>,
        write_mbx: Mailbox,
        read_mbx: Mailbox,
        identifier: Option<u8>,
        idx: u16,
    ) -> Step<(PdoMap, SubDevice), bool> {
        let address = device.configured_address;
        let inner = self.spec_write().spec_update(
            data,
            write_mbx,
            read_mbx,
            address,
            identifier,
            idx,
        );
        {
            match inner.result {
                Err(e) => failed((self, device), e),
                Ok(false) => Step {
                    next: (
                        PdoMap { state: Self::spec_with_write(self.state, inner.next), ..self },
                        device,
                    ),
                    sent: inner.sent,
                    result: Ok(false),
                },
                Ok(true) => match self.spec_following(entries) {
                    None => Step {
                        next: (
                            PdoMap { state: Self::spec_with_write(self.state, inner.next), ..self },
                            device,
                        ),
                        sent: inner.sent,
                        result: Ok(true),
                    },
                    Some((sub_index, value, shape)) => {
                        let write = SdoWrite::spec_new(
                            device.mailbox_counter,
                            self.index,
                            sub_index,
                            value,
                        );
                        Step {
                            next: (
                                PdoMap { state: Self::spec_with_write(shape, write), ..self },
                                counted(device),
                            ),
                            sent: inner.sent + write.inner.spec_start(
                                write_mbx,
                                read_mbx,
                                address,
                                match identifier {
                                    Some(tag) => Some(spec_caller_tag(tag)),
                                    None => None,
                                },
                                idx,
                            ),
                            result: Ok(false),
                        }
                    },
                },
            }
        }
    }

    pub fn update(
        &mut self,
        device: &mut SubDevice,
        received: &[u8],
        entries: &Entries,
        write_mbx: &Mailbox,
        read_mbx: &Mailbox,
        identifier: Option<u8>,
        idx: u16,
        out: &mut Vec<Request>,
    ) -> (r: Result<bool, Error>)
        ensures
            ({
                let step = old(self).spec_update(
                    *old(device),
                    received@,
                    entries@,
                    *write_mbx,
                    *read_mbx,
                    identifier,
                    idx,
                );
                &&& (*final(self), *final(device)) == step.next
                &&& final(out)@ == old(out)@ + step.sent
                &&& r == step.result
            }),
    {
        proof {
            lemma_sent_nothing(out@);
        }
        let address = device.configured_address;
        let count = entries.count();
        let mut write = match self.state {
            PdoMapState::Clear(w) => w,
            PdoMapState::MapEntry(w, _) => w,
            PdoMapState::SetCount(w) => w,
        };
        let ghost inner = write.spec_update(
            received@,
            *write_mbx,
            *read_mbx,
            address,
            identifier,
            idx,
        );
        let confirmed = write.update(received, write_mbx, read_mbx, address, identifier, idx, out)?;
        let following: Option<(SubIndex, SdoValue, PdoMapState)> = if !confirmed {
            None
        } else {
            match self.state {
                PdoMapState::Clear(_) => match entries.get(0) {
                    Some(first) => Some((SubIndex::Index(1), first, PdoMapState::MapEntry(write, 0))),
                    None => None,
                },
                PdoMapState::MapEntry(_, at) => match entries.get(at as usize + 1) {
                    Some(entry) => Some(
                        (SubIndex::Index(at + 2), entry, PdoMapState::MapEntry(write, at + 1)),
                    ),
                    None => Some(
                        (SubIndex::Index(0), SdoValue::U8(count), PdoMapState::SetCount(write)),
                    ),
                },
                PdoMapState::SetCount(_) => None,
            }
        };
        match following {
            None => {
                self.state = match self.state {
                    PdoMapState::Clear(_) => PdoMapState::Clear(write),
                    PdoMapState::MapEntry(_, at) => PdoMapState::MapEntry(write, at),
                    PdoMapState::SetCount(_) => PdoMapState::SetCount(write),
                };
                Ok(confirmed)
            },
            Some((sub_index, value, shape)) => {
                let next = SdoWrite::new(device, self.index, sub_index, value);
                let caller = match identifier {
                    Some(tag) => Some(caller_tag(tag)),
                    None => None,
                };
                next.start(write_mbx, read_mbx, address, caller, idx, out);
                self.state = match shape {
                    PdoMapState::Clear(_) => PdoMapState::Clear(next),
                    PdoMapState::MapEntry(_, at) => PdoMapState::MapEntry(next, at),
                    PdoMapState::SetCount(_) => PdoMapState::SetCount(next),
                };
                proof {
                    lemma_sent_both(
                        old(out)@,
                        inner.sent,
                        next.inner.spec_start(*write_mbx, *read_mbx, address, caller, idx),
                    );
                }
                Ok(false)
            },
        }
    }
}

/// What a device's PDO configuration is working on.
#[derive(Clone, Copy, Debug, PartialEq, Eq)]
pub enum PdoConfigState {
    /// The PDO at position `at` of one direction is being written.
    Sdo { output: bool, at: u8, map: PdoMap },
    /// The PDO assignment of one direction's sync manager is being written.
    SyncManagers { output: bool, map: PdoMap },
    /// Everything is written.
    Done,
}

/// A position in the sequence of objects to write, without the writer.
#[derive(Clone, Copy, Debug, PartialEq, Eq, Structural)]
pub enum PdoWork {
    Pdo { output: bool, at: u8 },
    Assignment { output: bool },
    Done,
}

/// The first assignment to write: the input sync manager's if the layout has
/// inputs, else the output sync manager's if it has outputs.
pub open spec fn spec_first_assignment(config: PdoConfig) -> PdoWork {
    if config.spec_inputs().len() > 0 {
        PdoWork::Assignment { output: false }
    } else if config.spec_outputs().len() > 0 {
        PdoWork::Assignment { output: true }
    } else {
        PdoWork::Done
    }
}

/// The first object to write: the first input PDO, else the first output
/// PDO; a layout without PDOs leaves nothing to write.
pub open spec fn spec_first(config: PdoConfig) -> PdoWork {
    if config.spec_inputs().len() > 0 {
        PdoWork::Pdo { output: false, at: 0 }
    } else if config.spec_outputs().len() > 0 {
        PdoWork::Pdo { output: true, at: 0 }
    } else {
        PdoWork::Done
    }
}

/// The object to write after `work`: the PDOs of the inputs in order, then
/// those of the outputs, then the assignment of the input sync manager, then
/// that of the output sync manager.
pub open spec fn spec_after(config: PdoConfig, work: PdoWork) -> PdoWork {
    match work {
        PdoWork::Pdo { output, at } => if at + 1 < config.spec_direction(output).len() {
            PdoWork::Pdo { output, at: (at + 1) as u8 }
        } else if !output && config.spec_outputs().len() > 0 {
            PdoWork::Pdo { output: true, at: 0 }
        } else {
            spec_first_assignment(config)
        },
        PdoWork::Assignment { output } => if !output && config.spec_outputs().len() > 0 {
            PdoWork::Assignment { output: true }
        } else {
            PdoWork::Done
        },
        PdoWork::Done => PdoWork::Done,
    }
}

/// Whether `work` names an object of the layout.
pub open spec fn spec_in_range(config: PdoConfig, work: PdoWork) -> bool {
    match work {
        PdoWork::Pdo { output, at } => at < config.spec_direction(output).len(),
        _ => true,
    }
}

/// Index of the object that `work` writes.
pub open spec fn spec_object_index(config: PdoConfig, work: PdoWork) -> u16 {
    match work {
        PdoWork::Pdo { output, at } => config.spec_direction(output)[at as int].spec_index(),
        PdoWork::Assignment { output } => if output {
            (SM_ASSIGNMENT_BASE + 1) as u16
        } else {
            SM_ASSIGNMENT_BASE
        },
        PdoWork::Done => 0,
    }
}

/// The entries that `work` writes into its object.
pub open spec fn spec_entries(config: PdoConfig, work: PdoWork) -> Seq<SdoValue> {
    match work {
        PdoWork::Pdo { output, at } => (Entries::Objects(&config.spec_direction(output)[at as int]))@,
        PdoWork::Assignment { output } => (Entries::Assignments(&config, output))@,
        PdoWork::Done => seq![],
    }
}

/// The direction that `work` belongs to.
pub open spec fn spec_work_output(work: PdoWork) -> bool {
    match work {
        PdoWork::Pdo { output, .. } => output,
        PdoWork::Assignment { output } => output,
        PdoWork::Done => false,
    }
}

impl PdoConfigState {
    /// The position that the state is at.
    pub open spec fn spec_work(self) -> PdoWork {
        match self {
            PdoConfigState::Sdo { output, at, .. } => PdoWork::Pdo { output, at },
            PdoConfigState::SyncManagers { output, .. } => PdoWork::Assignment { output },
            PdoConfigState::Done => PdoWork::Done,
        }
    }

    /// The state at position `work` with the writer `map`.
    pub open spec fn spec_at(work: PdoWork, map: PdoMap) -> PdoConfigState {
        match work {
            PdoWork::Pdo { output, at } => PdoConfigState::Sdo { output, at, map },
            PdoWork::Assignment { output } => PdoConfigState::SyncManagers { output, map },
            PdoWork::Done => PdoConfigState::Done,
        }
    }

    /// The writer of the state.
    pub open spec fn spec_map(self) -> PdoMap {
        match self {
            PdoConfigState::Sdo { map, .. } => map,
            PdoConfigState::SyncManagers { map, .. } => map,
            PdoConfigState::Done => PdoMap::spec_new(SubDevice::spec_new(0, 0), 0).0,
        }
    }

    /// The state that begins `work`, with a fresh writer for its object, and
    /// the device after it gave out the counter for the first write.
    pub open spec fn spec_begin(device: SubDevice, config: PdoConfig, work: PdoWork) -> (
        PdoConfigState,
        SubDevice,
    ) {
        if work == PdoWork::Done {
            (PdoConfigState::Done, device)
        } else {
            let begun = PdoMap::spec_new(device, spec_object_index(config, work));
            (Self::spec_at(work, begun.0), begun.1)
        }
    }

    /// What the beginning of the state's work sends.
    pub open spec fn spec_begin_sent(
        self,
        write_mbx: Mailbox,
        read_mbx: Mailbox,
        configured_addr: u16,
        idx: u16,
    ) -> Seq<Request> {
        if self == PdoConfigState::Done {
            seq![]
        } else {
            self.spec_map().spec_start(
                write_mbx,
                read_mbx,
                configured_addr,
                Some(spec_direction_tag(spec_work_output(self.spec_work()))),
                idx,
            )
        }
    }
}

fn first_assignment(config: &PdoConfig) -> (w: PdoWork)
    ensures
        w == spec_first_assignment(*config),
{
    if config.count(false) > 0 {
        PdoWork::Assignment { output: false }
    } else if config.count(true) > 0 {
        PdoWork::Assignment { output: true }
    } else {
        PdoWork::Done
    }
}

fn first(config: &PdoConfig) -> (w: PdoWork)
    ensures
        w == spec_first(*config),
{
    if config.count(false) > 0 {
        PdoWork::Pdo { output: false, at: 0 }
    } else if config.count(true) > 0 {
        PdoWork::Pdo { output: true, at: 0 }
    } else {
        PdoWork::Done
    }
}

fn after(config: &PdoConfig, work: PdoWork) -> (w: PdoWork)
    ensures
        w == spec_after(*config, work),
{
    match work {
        PdoWork::Pdo { output, at } => {
            if (at as usize) + 1 < config.count(output) as usize {
                PdoWork::Pdo { output, at: at + 1 }
            } else if !output && config.count(true) > 0 {
                PdoWork::Pdo { output: true, at: 0 }
            } else {
                first_assignment(config)
            }
        },
        PdoWork::Assignment { output } => {
            if !output && config.count(true) > 0 {
                PdoWork::Assignment { output: true }
            } else {
                PdoWork::Done
            }
        },
        PdoWork::Done => PdoWork::Done,
    }
}

fn begin(device: &mut SubDevice, config: &PdoConfig, work: PdoWork) -> (s: PdoConfigState)
    requires
        spec_in_range(*config, work),
    ensures
        (s, *final(device)) == PdoConfigState::spec_begin(*old(device), *config, work),
{
    match work {
        PdoWork::Done => PdoConfigState::Done,
        PdoWork::Pdo { output, at } => {
            let index = config.mapping(output, at as usize).unwrap().index();
            PdoConfigState::Sdo { output, at, map: PdoMap::new(device, index) }
        },
        PdoWork::Assignment { output } => {
            let index = if output {
                SM_ASSIGNMENT_BASE + 1
            } else {
                SM_ASSIGNMENT_BASE
            };
            PdoConfigState::SyncManagers { output, map: PdoMap::new(device, index) }
        },
    }
}

/// The position after a position of the layout is a position of the layout.
pub proof fn lemma_after_in_range(config: PdoConfig, work: PdoWork)
    ensures
        spec_in_range(config, spec_after(config, work)),
        spec_in_range(config, spec_first(config)),
{
}

/// The PDO configuration of one device.
#[derive(Clone, Copy, Debug, PartialEq, Eq)]
pub struct PdoMappingConfig {
    pub state: PdoConfigState,
}

impl PdoMappingConfig {
    /// The configuration at its beginning, and the device after it gave out
    /// the counter for the first write.
    pub open spec fn spec_new(config: PdoConfig, device: SubDevice) -> (PdoMappingConfig, SubDevice) {
        let begun = PdoConfigState::spec_begin(device, config, spec_first(config));
        (PdoMappingConfig { state: begun.0 }, begun.1)
    }

    pub fn new(config: &PdoConfig, subdev: &mut SubDevice) -> (c: Self)
        ensures
            (c, *final(subdev)) == Self::spec_new(*config, *old(subdev)),
    {
        let work = first(config);
        PdoMappingConfig { state: begin(subdev, config, work) }
    }

    /// Whether nothing is left to write.
    pub fn is_done(&self) -> (d: bool)
        ensures
            d == (self.state == PdoConfigState::Done),
    {
        match self.state {
            PdoConfigState::Done => true,
            _ => false,
        }
    }

    /// Sends the beginning of the first write.
    pub fn start(
        &self,
        write_mbx: &Mailbox,
        read_mbx: &Mailbox,
        configured_addr: u16,
        idx: u16,
        out: &mut Vec<Request>,
    )
        ensures
            final(out)@ == old(out)@ + self.state.spec_begin_sent(
                *write_mbx,
                *read_mbx,
                configured_addr,
                idx,
            ),
    {
        proof {
            lemma_sent_nothing(out@);
        }
        match &self.state {
            PdoConfigState::Sdo { output, map, .. } => map.start(
                write_mbx,
                read_mbx,
                configured_addr,
                Some(direction_tag(*output)),
                idx,
                out,
            ),
            PdoConfigState::SyncManagers { output, map } => map.start(
                write_mbx,
                read_mbx,
                configured_addr,
                Some(direction_tag(*output)),
                idx,
                out,
            ),
            PdoConfigState::Done => {},
        }
    }

    /// One answer applied to the configuration; `true` when the whole layout
    /// is written. The answer must carry the tag of the direction that is
    /// being written. It moves the writer of the current object; when that
    /// object is written the next one is begun.
    pub open spec fn spec_update(
        self,
        device: SubDevice,
        data: Seq<u8>,
        config: PdoConfig,
        write_mbx: Mailbox,
        read_mbx: Mailbox,
        identifier: Option<u8>,
        idx: u16,
    ) -> Step<(PdoMappingConfig, SubDevice), bool> {
        let work = self.state.spec_work();
        if work == PdoWork::Done || identifier is None || spec_tag_direction(identifier->0)
            != spec_direction_tag(spec_work_output(work)) || !spec_in_range(config, work) {
            failed((self, device), Error::WireCodec)
        } else {
            let inner = self.state.spec_map().spec_update(
                device,
                data,
                spec_entries(config, work),
                write_mbx,
                read_mbx,
                identifier,
                idx,
            );
            match inner.result {
                Err(e) => failed((self, device), e),
                Ok(false) => Step {
                    next: (
                        PdoMappingConfig { state: PdoConfigState::spec_at(work, inner.next.0) },
                        inner.next.1,
                    ),
                    sent: inner.sent,
                    result: Ok(false),
                },
                Ok(true) => {
                    let begun = PdoConfigState::spec_begin(
                        inner.next.1,
                        config,
                        spec_after(config, work),
                    );
                    Step {
                        next: (PdoMappingConfig { state: begun.0 }, begun.1),
                        sent: inner.sent + begun.0.spec_begin_sent(
                            write_mbx,
                            read_mbx,
                            device.configured_address,
                            idx,
                        ),
                        result: Ok(begun.0 == PdoConfigState::Done),
                    }
                },
            }
        }
    }

    pub fn update(
        &mut self,
        subdev: &mut SubDevice,
        received: &[u8],
        config: &PdoConfig,
        write_mbx: &Mailbox,
        read_mbx: &Mailbox,
        identifier: Option<u8>,
        idx: u16,
        out: &mut Vec<Request>,
    ) -> (r: Result<bool, Error>)
        ensures
            ({
                let step = old(self).spec_update(
                    *old(subdev),
                    received@,
                    *config,
                    *write_mbx,
                    *read_mbx,
                    identifier,
                    idx,
                );
                &&& (*final(self), *final(subdev)) == step.next
                &&& final(out)@ == old(out)@ + step.sent
                &&& r == step.result
            }),
    {
        proof {
            lemma_sent_nothing(out@);
        }
        let tag = match identifier {
            Some(t) => t,
            None => {
                return Err(Error::WireCodec);
            },
        };
        let (work, mut map) = match self.state {
            PdoConfigState::Sdo { output, at, map } => (PdoWork::Pdo { output, at }, map),
            PdoConfigState::SyncManagers { output, map } => (PdoWork::Assignment { output }, map),
            PdoConfigState::Done => {
                return Err(Error::WireCodec);
            },
        };
        let output = match work {
            PdoWork::Pdo { output, .. } => output,
            PdoWork::Assignment { output } => output,
            PdoWork::Done => false,
        };
        if tag_direction(tag) != direction_tag(output) {
            return Err(Error::WireCodec);
        }
        let entries = match work {
            PdoWork::Pdo { output, at } => match config.mapping(output, at as usize) {
                Some(mapping) => Entries::Objects(mapping),
                None => {
                    return Err(Error::WireCodec);
                },
            },
            _ => Entries::Assignments(config, output),
        };
        let ghost inner = map.spec_update(
            *old(subdev),
            received@,
            entries@,
            *write_mbx,
            *read_mbx,
            identifier,
            idx,
        );
        let address = subdev.configured_address;
        let written = map.update(subdev, received, &entries, write_mbx, read_mbx, identifier, idx, out)?;
        if !written {
            self.state = match work {
                PdoWork::Pdo { output, at } => PdoConfigState::Sdo { output, at, map },
                _ => PdoConfigState::SyncManagers { output, map },
            };
            return Ok(false);
        }
        let next = after(config, work);
        proof {
            lemma_after_in_range(*config, work);
        }
        self.state = begin(subdev, config, next);
        self.start(write_mbx, read_mbx, address, idx, out);
        proof {
            lemma_sent_both(
                old(out)@,
                inner.sent,
                self.state.spec_begin_sent(*write_mbx, *read_mbx, address, idx),
            );
        }
        Ok(self.is_done())
    }
}

} // verus!
