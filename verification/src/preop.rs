//! The pre-operational stage. In a first pass over the devices, in ring
//! order, each device's PDO layout is written over CoE and its inputs are
//! mapped into the process image. In a second pass each device's outputs are
//! mapped behind all inputs. In a third pass each device is moved to
//! `SafeOp`.

use crate::error::{Error, SubDeviceState};
use crate::fmmu::{ConfigureFmmus, Pass};
use crate::pdo::PdoConfig;
use crate::pdo_config::{PdoConfigState, PdoMappingConfig};
use crate::queue::{DeviceQueue, Slot, Work};
use crate::request::{failed, lemma_sent_both, lemma_sent_nothing, quiet, Request, Step};
use crate::state_transition::{Transition, TransitionState};
use crate::subdevice::{IoRanges, PdiSegment, SubDevice, SubDeviceConfig};
use vstd::prelude::*;

verus! {

/// Where the inputs and the outputs end in the process image: the inputs
/// fill `[0, input_end)`, the outputs `[input_end, output_end)`.
#[derive(Clone, Copy, Debug)]
pub struct SendRecvIo {
    input_end: usize,
    output_end: usize,
}

impl SendRecvIo {
    #[verifier::type_invariant]
    spec fn inv(self) -> bool {
        self.input_end <= self.output_end
    }

    pub closed spec fn spec_input_end(self) -> usize {
        self.input_end
    }

    pub closed spec fn spec_output_end(self) -> usize {
        self.output_end
    }

    /// The layout with the given ends; `None` where the outputs would end
    /// before the inputs do.
    pub fn new(input_end: usize, output_end: usize) -> (r: Option<SendRecvIo>)
        ensures
            input_end <= output_end ==> (r matches Some(io) && io.spec_input_end() == input_end
                && io.spec_output_end() == output_end),
            input_end > output_end ==> r is None,
    {
        if input_end <= output_end {
            Some(SendRecvIo { input_end, output_end })
        } else {
            None
        }
    }

    /// The layout with the given ends, the second of which is not in front
    /// of the first.
    pub(crate) fn ordered(input_end: u32, output_end: u32) -> (io: SendRecvIo)
        requires
            input_end <= output_end,
        ensures
            io.spec_input_end() == input_end,
            io.spec_output_end() == output_end,
    {
        SendRecvIo { input_end: input_end as usize, output_end: output_end as usize }
    }

    /// Number of output bytes.
    pub fn output_len(&self) -> (n: usize)
        ensures
            n == self.spec_output_end() - self.spec_input_end(),
            self.spec_input_end() <= self.spec_output_end(),
    {
        proof {
            use_type_invariant(self);
        }
        self.output_end - self.input_end
    }

    /// Number of input bytes.
    pub fn input_len(&self) -> (n: usize)
        ensures
            n == self.spec_input_end(),
            self.spec_input_end() <= self.spec_output_end(),
    {
        proof {
            use_type_invariant(self);
        }
        self.input_end
    }
}

/// What the stage is doing for one device.
#[derive(Clone, Copy, Debug)]
pub enum PreOpConfigState {
    /// The PDO layout is being written.
    Pdos(PdoMappingConfig),
    /// FMMUs are being programmed.
    Fmmus(ConfigureFmmus),
    /// The device is being moved to `SafeOp`.
    SafeOpTransition(Transition),
}

/// The pass that a device has just completed.
#[derive(Clone, Copy, Debug, PartialEq, Eq, Structural)]
pub enum Progress {
    Input,
    Output,
    SafeOp,
}

/// The pass that the FMMU programming reports, as the stage counts it.
pub open spec fn spec_progress(pass: Option<Pass>) -> Option<Progress> {
    match pass {
        None => None,
        Some(Pass::Input) => Some(Progress::Input),
        Some(Pass::Output) => Some(Progress::Output),
    }
}

/// The transition to `SafeOp` at its beginning.
pub open spec fn to_safe_op() -> Transition {
    Transition { requested: SubDeviceState::SafeOp, state: TransitionState::Transition }
}

impl Slot {
    /// Beginning the first pass for the device: the first write of its PDO
    /// layout, or, for a device without PDOs, the FMMU programming. Writing
    /// the layout takes both mailboxes.
    pub open spec fn spec_preop_start(self, config: PdoConfig, idx: u16) -> Step<Slot, ()> {
        let address = self.device.configured_address;
        let mailbox = self.device.config.mailbox;
        let pdos = PdoMappingConfig::spec_new(config, self.device);
        if pdos.0.state == PdoConfigState::Done {
            let st = ConfigureFmmus::spec_new().spec_start(address, idx);
            Step {
                next: Slot { work: Work::PreOp(PreOpConfigState::Fmmus(st.next)), ..self },
                sent: st.sent,
                result: Ok(()),
            }
        } else if mailbox.write is None || mailbox.read is None {
            failed(self, Error::WireCodec)
        } else {
            Step {
                next: Slot { device: pdos.1, work: Work::PreOp(PreOpConfigState::Pdos(pdos.0)) },
                sent: pdos.0.state.spec_begin_sent(mailbox.write->0, mailbox.read->0, address, idx),
                result: Ok(()),
            }
        }
    }

    pub fn preop_start(&mut self, config: &PdoConfig, idx: u16, out: &mut Vec<Request>) -> (r: Result<
        (),
        Error,
    >)
        ensures
            ({
                let step = old(self).spec_preop_start(*config, idx);
                &&& *final(self) == step.next
                &&& final(out)@ == old(out)@ + step.sent
                &&& r == step.result
            }),
    {
        proof {
            lemma_sent_nothing(out@);
        }
        let address = self.device.configured_address;
        let mut device = self.device;
        let pdos = PdoMappingConfig::new(config, &mut device);
        if pdos.is_done() {
            let mut fmmus = ConfigureFmmus::new();
            fmmus.start(address, idx, out);
            self.work = Work::PreOp(PreOpConfigState::Fmmus(fmmus));
            return Ok(());
        }
        match (device.config.mailbox.write, device.config.mailbox.read) {
            (Some(write_mbx), Some(read_mbx)) => {
                pdos.start(&write_mbx, &read_mbx, address, idx, out);
                self.device = device;
                self.work = Work::PreOp(PreOpConfigState::Pdos(pdos));
                Ok(())
            },
            _ => Err(Error::WireCodec),
        }
    }

    /// Beginning the second pass for the device: the programming of its
    /// outputs is begun, and `true` is returned; `false`, and nothing is
    /// done, where the device has no outputs.
    pub open spec fn spec_preop_start_output(self, idx: u16) -> Step<Slot, bool> {
        let address = self.device.configured_address;
        match self.work {
            Work::PreOp(PreOpConfigState::Fmmus(fmmus)) => {
                let st = fmmus.spec_start_output(address, idx);
                match st.result {
                    Err(e) => failed(self, e),
                    Ok(started) => Step {
                        next: Slot { work: Work::PreOp(PreOpConfigState::Fmmus(st.next)), ..self },
                        sent: st.sent,
                        result: Ok(started),
                    },
                }
            },
            _ => failed(self, Error::WireCodec),
        }
    }

    pub fn preop_start_output(&mut self, idx: u16, out: &mut Vec<Request>) -> (r: Result<
        bool,
        Error,
    >)
        ensures
            ({
                let step = old(self).spec_preop_start_output(idx);
                &&& *final(self) == step.next
                &&& final(out)@ == old(out)@ + step.sent
                &&& r == step.result
            }),
    {
        proof {
            lemma_sent_nothing(out@);
        }
        let address = self.device.configured_address;
        match self.work {
            Work::PreOp(PreOpConfigState::Fmmus(fmmus)) => {
                let mut programming = fmmus;
                let started = programming.start_output(address, idx, out)?;
                self.work = Work::PreOp(PreOpConfigState::Fmmus(programming));
                Ok(started)
            },
            _ => Err(Error::WireCodec),
        }
    }

    /// Beginning the third pass for the device, whose FMMUs are programmed:
    /// the move to `SafeOp` is requested.
    pub open spec fn spec_preop_start_safeop(self, idx: u16) -> Step<Slot, ()> {
        match self.work {
            Work::PreOp(PreOpConfigState::Fmmus(ConfigureFmmus::Configure { .. })) => Step {
                next: Slot {
                    work: Work::PreOp(PreOpConfigState::SafeOpTransition(to_safe_op())),
                    ..self
                },
                sent: to_safe_op().spec_start(self.device.configured_address, idx),
                result: Ok(()),
            },
            _ => failed(self, Error::WireCodec),
        }
    }

    pub fn preop_start_safeop(&mut self, idx: u16, out: &mut Vec<Request>) -> (r: Result<(), Error>)
        ensures
            ({
                let step = old(self).spec_preop_start_safeop(idx);
                &&& *final(self) == step.next
                &&& final(out)@ == old(out)@ + step.sent
                &&& r == step.result
            }),
    {
        proof {
            lemma_sent_nothing(out@);
        }
        match self.work {
            Work::PreOp(PreOpConfigState::Fmmus(ConfigureFmmus::Configure { .. })) => {
                let transition = Transition::new(SubDeviceState::SafeOp);
                transition.start(self.device.configured_address, idx, out);
                self.work = Work::PreOp(PreOpConfigState::SafeOpTransition(transition));
                Ok(())
            },
            _ => Err(Error::WireCodec),
        }
    }

    /// One answer applied to the device's part of the stage, together with
    /// the offset of the next free byte of the process image. The result
    /// names the pass that the device has just completed, if it has.
    ///
    /// The PDO layout is written; then the FMMU programming reads the EEPROM
    /// and maps the inputs, which completes the first pass. In the second
    /// pass the outputs are mapped. In the third pass the device is moved to
    /// `SafeOp`.
    pub open spec fn spec_preop_update(
        self,
        data: Seq<u8>,
        config: PdoConfig,
        identifier: Option<u8>,
        idx: u16,
        pdi_offset: u32,
    ) -> Step<(Slot, u32), Option<Progress>> {
        let same = (self, pdi_offset);
        let address = self.device.configured_address;
        let mailbox = self.device.config.mailbox;
        match self.work {
            Work::PreOp(PreOpConfigState::Pdos(pdos)) => if mailbox.write is None || mailbox.read
                is None {
                failed(same, Error::WireCodec)
            } else {
                let inner = pdos.spec_update(
                    self.device,
                    data,
                    config,
                    mailbox.write->0,
                    mailbox.read->0,
                    identifier,
                    idx,
                );
                match inner.result {
                    Err(e) => failed(same, e),
                    Ok(false) => Step {
                        next: (
                            Slot {
                                device: inner.next.1,
                                work: Work::PreOp(PreOpConfigState::Pdos(inner.next.0)),
                            },
                            pdi_offset,
                        ),
                        sent: inner.sent,
                        result: Ok(None),
                    },
                    Ok(true) => {
                        let st = ConfigureFmmus::spec_new().spec_start(address, idx);
                        Step {
                            next: (
                                Slot {
                                    device: inner.next.1,
                                    work: Work::PreOp(PreOpConfigState::Fmmus(st.next)),
                                },
                                pdi_offset,
                            ),
                            sent: inner.sent + st.sent,
                            result: Ok(None),
                        }
                    },
                }
            },
            Work::PreOp(PreOpConfigState::Fmmus(fmmus)) => {
                let inner = fmmus.spec_update(
                    self.device,
                    data,
                    config,
                    identifier,
                    idx,
                    pdi_offset,
                );
                match inner.result {
                    Err(e) => failed(same, e),
                    Ok(pass) => Step {
                        next: (
                            Slot {
                                device: inner.next.1,
                                work: Work::PreOp(PreOpConfigState::Fmmus(inner.next.0)),
                            },
                            inner.next.2,
                        ),
                        sent: inner.sent,
                        result: Ok(spec_progress(pass)),
                    },
                }
            },
            Work::PreOp(PreOpConfigState::SafeOpTransition(transition)) => {
                let inner = transition.spec_update(data, address, idx);
                match inner.result {
                    Err(e) => failed(same, e),
                    Ok(false) => Step {
                        next: (
                            Slot {
                                work: Work::PreOp(PreOpConfigState::SafeOpTransition(inner.next)),
                                ..self
                            },
                            pdi_offset,
                        ),
                        sent: inner.sent,
                        result: Ok(None),
                    },
                    Ok(true) => Step {
                        next: (Slot { work: Work::Idle, ..self }, pdi_offset),
                        sent: inner.sent,
                        result: Ok(Some(Progress::SafeOp)),
                    },
                }
            },
            _ => failed(same, Error::WireCodec),
        }
    }

    pub fn preop_update(
        &mut self,
        received: &[u8],
        config: &PdoConfig,
        identifier: Option<u8>,
        idx: u16,
        pdi_offset: &mut u32,
        out: &mut Vec<Request>,
    ) -> (r: Result<Option<Progress>, Error>)
        ensures
            ({
                let step = old(self).spec_preop_update(
                    received@,
                    *config,
                    identifier,
                    idx,
                    *old(pdi_offset),
                );
                &&& (*final(self), *final(pdi_offset)) == step.next
                &&& final(out)@ == old(out)@ + step.sent
                &&& r == step.result
            }),
    {
        proof {
            lemma_sent_nothing(out@);
        }
        let address = self.device.configured_address;
        match self.work {
            Work::PreOp(PreOpConfigState::Pdos(pdos)) => {
                let (write_mbx, read_mbx) = match (
                    self.device.config.mailbox.write,
                    self.device.config.mailbox.read,
                ) {
                    (Some(w), Some(r)) => (w, r),
                    _ => {
                        return Err(Error::WireCodec);
                    },
                };
                let mut writing = pdos;
                let mut device = self.device;
                let ghost inner = pdos.spec_update(
                    self.device,
                    received@,
                    *config,
                    write_mbx,
                    read_mbx,
                    identifier,
                    idx,
                );
                let written = writing.update(
                    &mut device,
                    received,
                    config,
                    &write_mbx,
                    &read_mbx,
                    identifier,
                    idx,
                    out,
                )?;
                self.device = device;
                if !written {
                    self.work = Work::PreOp(PreOpConfigState::Pdos(writing));
                } else {
                    let mut fmmus = ConfigureFmmus::new();
                    fmmus.start(address, idx, out);
                    proof {
                        lemma_sent_both(
                            old(out)@,
                            inner.sent,
                            ConfigureFmmus::spec_new().spec_start(address, idx).sent,
                        );
                    }
                    self.work = Work::PreOp(PreOpConfigState::Fmmus(fmmus));
                }
                Ok(None)
            },
            Work::PreOp(PreOpConfigState::Fmmus(fmmus)) => {
                let mut programming = fmmus;
                let mut device = self.device;
                let pass = programming.update(
                    &mut device,
                    received,
                    config,
                    identifier,
                    idx,
                    pdi_offset,
                    out,
                )?;
                self.device = device;
                self.work = Work::PreOp(PreOpConfigState::Fmmus(programming));
                Ok(
                    match pass {
                        None => None,
                        Some(Pass::Input) => Some(Progress::Input),
                        Some(Pass::Output) => Some(Progress::Output),
                    },
                )
            },
            Work::PreOp(PreOpConfigState::SafeOpTransition(transition)) => {
                let mut moving = transition;
                if moving.update(received, address, idx, out)? {
                    self.work = Work::Idle;
                    Ok(Some(Progress::SafeOp))
                } else {
                    self.work = Work::PreOp(PreOpConfigState::SafeOpTransition(moving));
                    Ok(None)
                }
            },
            _ => Err(Error::WireCodec),
        }
    }
}

pub struct PreOp {
    pub devices: DeviceQueue,
    /// Position of the device whose first pass is under way.
    pub configured_input_idx: u16,
    /// Position of the device whose second pass is under way.
    pub configured_output_idx: u16,
    /// Position of the device whose third pass is under way.
    pub configured_safeop_idx: u16,
    /// Offset of the next free byte of the process image.
    pub pdi_offset: u32,
    /// Where the inputs end, once the first pass is over.
    pub input_end: Option<u32>,
    /// Where the outputs end, once the second pass is over.
    pub output_end: Option<u32>,
}

/// The stage as a value.
pub struct PreOpModel {
    pub devices: Seq<Slot>,
    pub configured_input_idx: u16,
    pub configured_output_idx: u16,
    pub configured_safeop_idx: u16,
    pub pdi_offset: u32,
    pub input_end: Option<u32>,
    pub output_end: Option<u32>,
}

impl View for PreOp {
    type V = PreOpModel;

    open spec fn view(&self) -> PreOpModel {
        PreOpModel {
            devices: self.devices@,
            configured_input_idx: self.configured_input_idx,
            configured_output_idx: self.configured_output_idx,
            configured_safeop_idx: self.configured_safeop_idx,
            pdi_offset: self.pdi_offset,
            input_end: self.input_end,
            output_end: self.output_end,
        }
    }
}

/// A device without a place in the process image and without work.
pub open spec fn unmapped(slot: Slot) -> Slot {
    Slot {
        device: SubDevice {
            config: SubDeviceConfig {
                io: IoRanges {
                    input: PdiSegment { start: 0, end: 0 },
                    output: PdiSegment { start: 0, end: 0 },
                },
                ..slot.device.config
            },
            ..slot.device
        },
        work: Work::Idle,
    }
}

/// The devices, none of them with a place in the process image.
pub open spec fn all_unmapped(slots: Seq<Slot>) -> Seq<Slot> {
    Seq::new(slots.len(), |i: int| unmapped(slots[i]))
}

/// Position of the first device at or behind `from` whose second pass does
/// not pass it by: a device with outputs, or one that cannot begin them. The
/// number of devices where there is none.
pub open spec fn next_output(devices: Seq<Slot>, from: int) -> int
    decreases devices.len() - from,
{
    if from < 0 || from >= devices.len() {
        devices.len() as int
    } else if devices[from].spec_preop_start_output(from as u16).result == Ok::<bool, Error>(false) {
        next_output(devices, from + 1)
    } else {
        from
    }
}

pub proof fn lemma_next_output(devices: Seq<Slot>, from: int)
    requires
        0 <= from,
    ensures
        from <= next_output(devices, from) || next_output(devices, from) == devices.len(),
        next_output(devices, from) <= devices.len(),
        next_output(devices, from) < devices.len() ==> devices[next_output(
            devices,
            from,
        )].spec_preop_start_output(next_output(devices, from) as u16).result != Ok::<bool, Error>(
            false,
        ),
    decreases devices.len() - from,
{
    if from < devices.len() && devices[from].spec_preop_start_output(from as u16).result == Ok::<
        bool,
        Error,
    >(false) {
        lemma_next_output(devices, from + 1);
    }
}

impl PreOpModel {
    /// The stage at its beginning: no device has a place in the process
    /// image, and the first device begins its first pass. One PDO layout per
    /// device is needed.
    pub open spec fn spec_start_new(devices: Seq<Slot>, configs: Seq<PdoConfig>) -> Step<
        PreOpModel,
        (),
    > {
        let fresh = PreOpModel {
            devices: all_unmapped(devices),
            configured_input_idx: 0,
            configured_output_idx: 0,
            configured_safeop_idx: 0,
            pdi_offset: 0,
            input_end: None,
            output_end: None,
        };
        if configs.len() != devices.len() {
            failed(fresh, Error::Capacity)
        } else if devices.len() == 0 {
            quiet(fresh, ())
        } else {
            let st = fresh.devices[0].spec_preop_start(configs[0], 0);
            match st.result {
                Err(e) => failed(fresh, e),
                Ok(_) => Step {
                    next: PreOpModel { devices: fresh.devices.update(0, st.next), ..fresh },
                    sent: st.sent,
                    result: Ok(()),
                },
            }
        }
    }

    /// Beginning the second pass with the first device from `from` on that
    /// has outputs; where there is none, the outputs end at the current
    /// offset and the first device begins its third pass. `self` holds the
    /// devices and the offset as the last step left them.
    pub open spec fn spec_begin_outputs(self, from: int) -> Step<PreOpModel, Option<(u32, u32)>> {
        let len = self.devices.len() as int;
        let target = next_output(self.devices, from);
        if target < len {
            let st = self.devices[target].spec_preop_start_output(target as u16);
            match st.result {
                Err(e) => failed(self, e),
                Ok(_) => Step {
                    next: PreOpModel {
                        devices: self.devices.update(target, st.next),
                        configured_output_idx: target as u16,
                        ..self
                    },
                    sent: st.sent,
                    result: Ok(None),
                },
            }
        } else {
            let st = self.devices[0].spec_preop_start_safeop(0);
            match st.result {
                Err(e) => failed(self, e),
                Ok(_) => Step {
                    next: PreOpModel {
                        devices: self.devices.update(0, st.next),
                        configured_output_idx: len as u16,
                        configured_safeop_idx: 0,
                        output_end: Some(self.pdi_offset),
                        ..self
                    },
                    sent: st.sent,
                    result: Ok(None),
                },
            }
        }
    }

    /// What follows when the device at work has completed a pass, the
    /// devices and the offset being as that device's step left them.
    ///
    /// After the first pass of a device the next device begins its first
    /// pass; after the last, the inputs end at the current offset and the
    /// second pass begins. After the second pass of a device the next device
    /// that has outputs begins its second pass; after the last, the outputs
    /// end at the current offset and the third pass begins. After the third
    /// pass of a device the next device begins its third pass; after the
    /// last, the stage is over and the result is where the inputs and the
    /// outputs end. A pass that is reported out of turn is an error.
    pub open spec fn spec_pass_done(
        self,
        progress: Progress,
        devices: Seq<Slot>,
        pdi_offset: u32,
        configs: Seq<PdoConfig>,
    ) -> Step<PreOpModel, Option<(u32, u32)>> {
        let len = self.devices.len() as int;
        let moved = PreOpModel { devices, pdi_offset, ..self };
        let then = match progress {
            Progress::Input => if self.input_end is Some || self.configured_input_idx >= len {
                failed(moved, Error::WireCodec)
            } else if self.configured_input_idx + 1 < len {
                let at = self.configured_input_idx + 1;
                let st = devices[at].spec_preop_start(configs[at], at as u16);
                match st.result {
                    Err(e) => failed(moved, e),
                    Ok(_) => Step {
                        next: PreOpModel {
                            devices: devices.update(at, st.next),
                            configured_input_idx: at as u16,
                            ..moved
                        },
                        sent: st.sent,
                        result: Ok(None),
                    },
                }
            } else {
                (PreOpModel {
                    configured_input_idx: len as u16,
                    input_end: Some(pdi_offset),
                    ..moved
                }).spec_begin_outputs(0)
            },
            Progress::Output => if self.input_end is None || self.output_end is Some
                || self.configured_output_idx >= len || self.input_end->0 > pdi_offset {
                failed(moved, Error::WireCodec)
            } else {
                moved.spec_begin_outputs(self.configured_output_idx + 1)
            },
            Progress::SafeOp => if self.input_end is None || self.output_end is None
                || self.configured_safeop_idx >= len || self.input_end->0 > self.output_end->0 {
                failed(moved, Error::WireCodec)
            } else if self.configured_safeop_idx + 1 < len {
                let at = self.configured_safeop_idx + 1;
                let st = devices[at].spec_preop_start_safeop(at as u16);
                match st.result {
                    Err(e) => failed(moved, e),
                    Ok(_) => Step {
                        next: PreOpModel {
                            devices: devices.update(at, st.next),
                            configured_safeop_idx: at as u16,
                            ..moved
                        },
                        sent: st.sent,
                        result: Ok(None),
                    },
                }
            } else {
                quiet(
                    PreOpModel { configured_safeop_idx: len as u16, ..moved },
                    Some((self.input_end->0, self.output_end->0)),
                )
            },
        };
        match then.result {
            Err(e) => failed(self, e),
            Ok(_) => then,
        }
    }

    /// One answer applied to the stage. The answer belongs to the device
    /// that its index names; when it completes a pass of that device, the
    /// stage moves on as [`Self::spec_pass_done`] says. The result is where
    /// the inputs and the outputs end, once every device is in `SafeOp`.
    pub open spec fn spec_update(
        self,
        data: Seq<u8>,
        identifier: Option<u8>,
        idx: Option<u16>,
        configs: Seq<PdoConfig>,
    ) -> Step<PreOpModel, Option<(u32, u32)>> {
        let len = self.devices.len() as int;
        if configs.len() != len {
            failed(self, Error::Capacity)
        } else if idx is None || idx->0 >= len {
            failed(self, Error::WireCodec)
        } else {
            let at = idx->0 as int;
            let inner = self.devices[at].spec_preop_update(
                data,
                configs[at],
                identifier,
                idx->0,
                self.pdi_offset,
            );
            let devices = self.devices.update(at, inner.next.0);
            match inner.result {
                Err(e) => failed(self, e),
                Ok(None) => Step {
                    next: PreOpModel { devices, pdi_offset: inner.next.1, ..self },
                    sent: inner.sent,
                    result: Ok(None),
                },
                Ok(Some(progress)) => {
                    let then = self.spec_pass_done(progress, devices, inner.next.1, configs);
                    match then.result {
                        Err(e) => failed(self, e),
                        Ok(_) => Step { sent: inner.sent + then.sent, ..then },
                    }
                },
            }
        }
    }
}

impl DeviceQueue {
    /// Takes every device out of the process image and out of work.
    pub fn unmap_all(&mut self)
        ensures
            final(self)@ == all_unmapped(old(self)@),
    {
        let n = self.count();
        let mut i: usize = 0;
        while i < n
            invariant
                i <= n,
                n == old(self)@.len(),
                self@.len() == n,
                forall|j: int| 0 <= j < i ==> self@[j] == unmapped(old(self)@[j]),
                forall|j: int| i <= j < n ==> self@[j] == old(self)@[j],
            decreases n - i,
        {
            let mut slot = self.slot(i).unwrap();
            slot.device.config.io.input = PdiSegment::empty();
            slot.device.config.io.output = PdiSegment::empty();
            slot.work = Work::Idle;
            self.put(i, slot);
            i = i + 1;
        }
        assert(self@ =~= all_unmapped(old(self)@));
    }
}

impl PreOp {
    /// Begins the stage; `configs` holds the PDO layout of each device, in
    /// ring order.
    pub fn start_new(devices: DeviceQueue, configs: &Vec<PdoConfig>, out: &mut Vec<Request>) -> (r:
        Result<PreOp, Error>)
        ensures
            ({
                let step = PreOpModel::spec_start_new(devices@, configs@);
                &&& final(out)@ == old(out)@ + step.sent
                &&& match step.result {
                    Err(e) => r matches Err(f) && f == e,
                    Ok(_) => r matches Ok(stage) && stage@ == step.next && stage@.wf(),
                }
            }),
    {
        let mut devices = devices;
        let _ = devices.count();
        proof {
            lemma_sent_nothing(out@);
            crate::layout::law_preop_begins_laid_out(devices@, configs@);
        }
        if configs.len() != devices.count() {
            return Err(Error::Capacity);
        }
        devices.unmap_all();
        match devices.slot(0) {
            None => {},
            Some(first) => {
                let mut slot = first;
                slot.preop_start(&configs[0], 0, out)?;
                devices.put(0, slot);
            },
        }
        Ok(
            PreOp {
                devices,
                configured_input_idx: 0,
                configured_output_idx: 0,
                configured_safeop_idx: 0,
                pdi_offset: 0,
                input_end: None,
                output_end: None,
            },
        )
    }

    /// Begins the second pass from the device at `from` on; see
    /// [`PreOpModel::spec_begin_outputs`].
    fn begin_outputs(&mut self, from: usize, sent: &mut Vec<Request>) -> (r: Result<(), Error>)
        requires
            old(self).devices@.len() > 0,
        ensures
            ({
                let then = old(self)@.spec_begin_outputs(from as int);
                &&& final(sent)@ == old(sent)@ + then.sent
                &&& final(self)@ == then.next
                &&& match then.result {
                    Err(e) => r == Err::<(), Error>(e),
                    Ok(_) => r is Ok,
                }
            }),
    {
        proof {
            lemma_sent_nothing(sent@);
        }
        let len = self.devices.count();
        let mut at = from;
        while at < len
            invariant
                from <= at,
                len == self.devices@.len(),
                len <= 16,
                *self == *old(self),
                sent@ == old(sent)@,
                next_output(self.devices@, from as int) == next_output(self.devices@, at as int),
            decreases len - at,
        {
            let mut slot = self.devices.slot(at).unwrap();
            let mut asked: Vec<Request> = Vec::new();
            match slot.preop_start_output(at as u16, &mut asked) {
                Ok(false) => {},
                Ok(true) => {
                    self.devices.put(at, slot);
                    self.configured_output_idx = at as u16;
                    sent.append(&mut asked);
                    return Ok(());
                },
                Err(e) => {
                    return Err(e);
                },
            }
            at = at + 1;
        }
        let mut first = self.devices.slot(0).unwrap();
        first.preop_start_safeop(0, sent)?;
        self.devices.put(0, first);
        self.configured_output_idx = len as u16;
        self.configured_safeop_idx = 0;
        self.output_end = Some(self.pdi_offset);
        Ok(())
    }

    /// Moves the stage on when the device at `at`, whose slot is now
    /// `slot`, has completed a pass; where the inputs and the outputs end,
    /// when the stage is over.
    fn pass_done(
        &mut self,
        progress: Progress,
        at: u16,
        slot: Slot,
        pdi_offset: u32,
        configs: &Vec<PdoConfig>,
        sent: &mut Vec<Request>,
    ) -> (r: Result<Option<(u32, u32)>, Error>)
        requires
            at < old(self).devices@.len(),
            configs@.len() == old(self).devices@.len(),
        ensures
            ({
                let then = old(self)@.spec_pass_done(
                    progress,
                    old(self)@.devices.update(at as int, slot),
                    pdi_offset,
                    configs@,
                );
                &&& final(sent)@ == old(sent)@ + then.sent
                &&& match then.result {
                    Err(e) => r == Err::<Option<(u32, u32)>, Error>(e) && final(self)@ == old(
                        self,
                    )@,
                    Ok(io) => r == Ok::<Option<(u32, u32)>, Error>(io) && final(self)@ == then.next
                        && (io matches Some(ends) ==> ends.0 <= ends.1),
                }
            }),
    {
        proof {
            lemma_sent_nothing(sent@);
        }
        let len = self.devices.count();
        let mut asked: Vec<Request> = Vec::new();
        let mut moved = PreOp {
            devices: self.devices.take(),
            configured_input_idx: self.configured_input_idx,
            configured_output_idx: self.configured_output_idx,
            configured_safeop_idx: self.configured_safeop_idx,
            pdi_offset,
            input_end: self.input_end,
            output_end: self.output_end,
        };
        let restore = moved.devices.slot(at as usize).unwrap();
        moved.devices.put(at as usize, slot);
        let outcome: Result<Option<(u32, u32)>, Error> = match progress {
            Progress::Input => {
                if moved.input_end.is_some() || moved.configured_input_idx as usize >= len {
                    Err(Error::WireCodec)
                } else if (moved.configured_input_idx as usize) + 1 < len {
                    let next = moved.configured_input_idx + 1;
                    let mut begun = moved.devices.slot(next as usize).unwrap();
                    match begun.preop_start(&configs[next as usize], next, &mut asked) {
                        Ok(()) => {
                            moved.devices.put(next as usize, begun);
                            moved.configured_input_idx = next;
                            Ok(None)
                        },
                        Err(e) => Err(e),
                    }
                } else {
                    moved.configured_input_idx = len as u16;
                    moved.input_end = Some(pdi_offset);
                    match moved.begin_outputs(0, &mut asked) {
                        Ok(()) => Ok(None),
                        Err(e) => Err(e),
                    }
                }
            },
            Progress::Output => {
                let in_turn = match (moved.input_end, moved.output_end) {
                    (Some(end), None) => end <= pdi_offset,
                    _ => false,
                };
                if !in_turn || moved.configured_output_idx as usize >= len {
                    Err(Error::WireCodec)
                } else {
                    let from = moved.configured_output_idx as usize + 1;
                    match moved.begin_outputs(from, &mut asked) {
                        Ok(()) => Ok(None),
                        Err(e) => Err(e),
                    }
                }
            },
            Progress::SafeOp => match (moved.input_end, moved.output_end) {
                (Some(input_end), Some(output_end)) => {
                    if input_end > output_end || moved.configured_safeop_idx as usize >= len {
                        Err(Error::WireCodec)
                    } else if (moved.configured_safeop_idx as usize) + 1 < len {
                        let next = moved.configured_safeop_idx + 1;
                        let mut begun = moved.devices.slot(next as usize).unwrap();
                        match begun.preop_start_safeop(next, &mut asked) {
                            Ok(()) => {
                                moved.devices.put(next as usize, begun);
                                moved.configured_safeop_idx = next;
                                Ok(None)
                            },
                            Err(e) => Err(e),
                        }
                    } else {
                        moved.configured_safeop_idx = len as u16;
                        Ok(Some((input_end, output_end)))
                    }
                },
                _ => Err(Error::WireCodec),
            },
        };
        match outcome {
            Ok(over) => {
                sent.append(&mut asked);
                *self = moved;
                Ok(over)
            },
            Err(e) => {
                moved.devices.put(at as usize, restore);
                let ghost kept = moved.devices@;
                self.devices = moved.devices;
                assert(kept =~= old(self)@.devices);
                Err(e)
            },
        }
    }

    /// Applies one answer; `Some((devices, io))` when every device is in
    /// `SafeOp`, with the layout of the process image. The stage then keeps
    /// no devices. After an error the stage is as it was.
    pub fn update(
        &mut self,
        received: &[u8],
        identifier: Option<u8>,
        idx: Option<u16>,
        configs: &Vec<PdoConfig>,
        out: &mut Vec<Request>,
    ) -> (r: Result<Option<(DeviceQueue, SendRecvIo)>, Error>)
        ensures
            ({
                let step = old(self)@.spec_update(received@, identifier, idx, configs@);
                &&& final(out)@ == old(out)@ + step.sent
                &&& match step.result {
                    Err(e) => r matches Err(f) && f == e && final(self)@ == old(self)@,
                    Ok(None) => r matches Ok(None) && final(self)@ == step.next,
                    Ok(Some((input_end, output_end))) => r matches Ok(Some((devices, io)))
                        && devices@ == step.next.devices && io.spec_input_end() == input_end
                        && io.spec_output_end() == output_end && final(self)@ == (PreOpModel {
                        devices: Seq::empty(),
                        ..step.next
                    }),
                }
                &&& old(self)@.wf() ==> step.next.wf()
            }),
    {
        proof {
            lemma_sent_nothing(out@);
            if old(self)@.wf() {
                crate::layout::law_preop_stays_laid_out(
                    old(self)@,
                    received@,
                    identifier,
                    idx,
                    configs@,
                );
            }
        }
        let len = self.devices.count();
        if configs.len() != len {
            return Err(Error::Capacity);
        }
        let at = match idx {
            Some(i) => i,
            None => {
                return Err(Error::WireCodec);
            },
        };
        let mut slot = match self.devices.slot(at as usize) {
            Some(s) => s,
            None => {
                return Err(Error::WireCodec);
            },
        };
        let mut sent: Vec<Request> = Vec::new();
        let mut pdi_offset = self.pdi_offset;
        let ghost inner = old(self)@.devices[at as int].spec_preop_update(
            received@,
            configs@[at as int],
            identifier,
            at,
            self.pdi_offset,
        );
        let progress = slot.preop_update(
            received,
            &configs[at as usize],
            identifier,
            at,
            &mut pdi_offset,
            &mut sent,
        )?;
        assert(sent@ =~= inner.sent);
        match progress {
            None => {
                self.devices.put(at as usize, slot);
                self.pdi_offset = pdi_offset;
                out.append(&mut sent);
                Ok(None)
            },
            Some(progress) => {
                let over = self.pass_done(progress, at, slot, pdi_offset, configs, &mut sent)?;
                out.append(&mut sent);
                match over {
                    None => Ok(None),
                    Some((input_end, output_end)) => Ok(
                        Some((self.devices.take(), SendRecvIo::ordered(input_end, output_end))),
                    ),
                }
            },
        }
    }
}

} // verus!
