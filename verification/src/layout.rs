//! The layout of the process image: why the byte ranges that the
//! pre-operational stage gives to the devices never overlap.

use crate::error::Error;
use crate::fmmu::{ConfigureFmmu, ConfigureFmmus, FmmuConfig};
use crate::pdo::PdoConfig;
use crate::preop::{lemma_next_output, next_output, PreOpConfigState, PreOpModel, Progress};
use crate::queue::{Slot, Work};
use crate::subdevice::{PdiSegment, SubDevice};
use vstd::prelude::*;

verus! {

/// The segment of one direction in a device's record.
pub open spec fn recorded(slot: Slot, output: bool) -> PdiSegment {
    if output {
        slot.device.config.io.output
    } else {
        slot.device.config.io.input
    }
}

/// The programming of one direction that is under way in a slot.
pub open spec fn current(slot: Slot, output: bool) -> Option<ConfigureFmmu> {
    match slot.work {
        Work::PreOp(
            PreOpConfigState::Fmmus(ConfigureFmmus::Configure { current_input, current_output, .. }),
        ) => if output {
            current_output
        } else {
            current_input
        },
        _ => None,
    }
}

/// The segment that was claimed for one direction of a device and is not
/// yet in its record.
pub open spec fn pending(slot: Slot, output: bool) -> Option<PdiSegment> {
    match current(slot, output) {
        Some(programming) => match programming.fmmu {
            FmmuConfig::CheckFmmu(segment) => Some(segment),
            _ => None,
        },
        None => None,
    }
}

/// A slot whose FMMU programming is at rest: the plans are made and no
/// direction is under way.
pub open spec fn inputs_done(slot: Slot) -> bool {
    slot.work matches Work::PreOp(
        PreOpConfigState::Fmmus(
            ConfigureFmmus::Configure { current_input: None, current_output: None, .. },
        ),
    )
}

/// A slot that may be at work in the second pass.
pub open spec fn in_second_pass(slot: Slot) -> bool {
    match slot.work {
        Work::PreOp(PreOpConfigState::Fmmus(ConfigureFmmus::Configure { current_input, .. })) =>
            current_input is None,
        _ => false,
    }
}

/// A slot that is at work in the third pass.
pub open spec fn in_third_pass(slot: Slot) -> bool {
    slot.work matches Work::PreOp(PreOpConfigState::SafeOpTransition(_))
}

/// The inputs of the devices lie in `[0, bound)` and share no byte.
pub open spec fn inputs_laid_out(slots: Seq<Slot>, bound: int) -> bool {
    &&& forall|i: int|
        0 <= i < slots.len() ==> (#[trigger] recorded(slots[i], false)).wf() && recorded(
            slots[i],
            false,
        ).within(0, bound)
    &&& forall|i: int, j: int|
        0 <= i < slots.len() && 0 <= j < slots.len() && i != j ==> (#[trigger] recorded(
            slots[i],
            false,
        )).disjoint(#[trigger] recorded(slots[j], false))
}

/// The outputs of the devices lie in `[lo, hi)` and share no byte.
pub open spec fn outputs_laid_out(slots: Seq<Slot>, lo: int, hi: int) -> bool {
    &&& forall|i: int|
        0 <= i < slots.len() ==> (#[trigger] recorded(slots[i], true)).wf() && recorded(
            slots[i],
            true,
        ).within(lo, hi)
    &&& forall|i: int, j: int|
        0 <= i < slots.len() && 0 <= j < slots.len() && i != j ==> (#[trigger] recorded(
            slots[i],
            true,
        )).disjoint(#[trigger] recorded(slots[j], true))
}

/// A claimed segment that is not yet recorded lies in `[lo, hi)` and shares
/// no byte with what the other devices have.
pub open spec fn pending_fits(slots: Seq<Slot>, at: int, output: bool, lo: int, hi: int) -> bool {
    pending(slots[at], output) matches Some(segment) ==> {
        &&& segment.wf()
        &&& lo <= segment.start
        &&& segment.end <= hi
        &&& forall|j: int|
            0 <= j < slots.len() && j != at ==> segment.disjoint(
                #[trigger] recorded(slots[j], output),
            )
    }
}

impl PreOpModel {
    /// The stage is well-formed.
    ///
    /// In the first pass the devices before the one at work have their
    /// inputs, the devices behind it have nothing, and no device has
    /// outputs. In the second pass the inputs are settled in front of where
    /// the inputs end, only the device at work programs outputs, and the
    /// devices behind it have none. In the third pass inputs and outputs are
    /// settled. At all times the segments of different devices share no byte
    /// and end before the offset of the next free byte.
    pub open spec fn wf(self) -> bool {
        let len = self.devices.len() as int;
        len <= crate::queue::MAX_SUBDEVICES && match (self.input_end, self.output_end) {
            (None, output_end) => {
                let at = self.configured_input_idx as int;
                &&& output_end is None
                &&& 0 <= at
                &&& len > 0 ==> at < len
                &&& inputs_laid_out(self.devices, self.pdi_offset as int)
                &&& forall|i: int|
                    0 <= i < len ==> {
                        &&& (#[trigger] recorded(self.devices[i], true)).start == recorded(
                            self.devices[i],
                            true,
                        ).end
                        &&& current(self.devices[i], true) is None
                        &&& i < at ==> inputs_done(self.devices[i])
                        &&& i > at ==> self.devices[i].work is Idle && recorded(
                            self.devices[i],
                            false,
                        ).start == recorded(self.devices[i], false).end
                        &&& i != at ==> pending(self.devices[i], false) is None
                    }
                &&& at < len ==> pending_fits(self.devices, at, false, 0, self.pdi_offset as int)
                    && in_first_pass(self.devices[at])
            },
            (Some(input_end), None) => {
                let at = self.configured_output_idx as int;
                &&& 0 <= at < len
                &&& input_end <= self.pdi_offset
                &&& inputs_laid_out(self.devices, input_end as int)
                &&& outputs_laid_out(self.devices, input_end as int, self.pdi_offset as int)
                &&& forall|i: int|
                    0 <= i < len ==> {
                        &&& current(#[trigger] self.devices[i], false) is None
                        &&& i == at ==> in_second_pass(self.devices[i])
                        &&& i != at ==> inputs_done(self.devices[i]) && pending(
                            self.devices[i],
                            true,
                        ) is None
                        &&& i > at ==> recorded(self.devices[i], true).start == recorded(
                            self.devices[i],
                            true,
                        ).end
                    }
                &&& pending_fits(self.devices, at, true, input_end as int, self.pdi_offset as int)
            },
            (Some(input_end), Some(output_end)) => {
                let at = self.configured_safeop_idx as int;
                &&& 0 <= at <= len
                &&& input_end <= output_end
                &&& output_end == self.pdi_offset
                &&& inputs_laid_out(self.devices, input_end as int)
                &&& outputs_laid_out(self.devices, input_end as int, output_end as int)
                &&& forall|i: int|
                    0 <= i < len ==> {
                        &&& current(#[trigger] self.devices[i], false) is None
                        &&& current(self.devices[i], true) is None
                        &&& i < at ==> self.devices[i].work is Idle
                        &&& i == at ==> in_third_pass(self.devices[i])
                        &&& i > at ==> inputs_done(self.devices[i])
                    }
            },
        }
    }
}

/// In a well-formed stage the inputs of different devices share no byte and
/// lie in front of where the inputs end; the outputs of different devices
/// share no byte and lie between that place and the offset of the next free
/// byte. Before the inputs are settled they lie in front of that offset, and
/// no device has outputs.
pub proof fn law_pdi_disjoint(stage: PreOpModel, i: int, j: int)
    requires
        stage.wf(),
        0 <= i < stage.devices.len(),
        0 <= j < stage.devices.len(),
        i != j,
    ensures
        recorded(stage.devices[i], false).disjoint(recorded(stage.devices[j], false)),
        recorded(stage.devices[i], true).disjoint(recorded(stage.devices[j], true)),
        recorded(stage.devices[i], false).within(
            0,
            match stage.input_end {
                Some(end) => end as int,
                None => stage.pdi_offset as int,
            },
        ),
        stage.input_end matches Some(end) ==> recorded(stage.devices[i], true).within(
            end as int,
            stage.pdi_offset as int,
        ),
        stage.input_end is None ==> recorded(stage.devices[i], true).start == recorded(
            stage.devices[i],
            true,
        ).end,
{
}

/// A slot that may be at work in the first pass.
pub open spec fn in_first_pass(slot: Slot) -> bool {
    match slot.work {
        Work::PreOp(PreOpConfigState::Pdos(_)) => true,
        Work::PreOp(PreOpConfigState::Fmmus(_)) => current(slot, true) is None,
        _ => false,
    }
}

/// The segment that an answer claims when it moves the offset from `from`
/// to `to`.
pub open spec fn claimed(from: u32, to: u32) -> PdiSegment {
    PdiSegment { start: from, end: to }
}

/// What an answer can do to one direction of a slot: the record keeps its
/// segment or takes the one that was claimed before; a claim stays, goes
/// into the record, or is made at the offset of the next free byte by a
/// programming that is under way.
pub open spec fn direction_effect(slot: Slot, next: Slot, output: bool, from: u32, to: u32) -> bool {
    &&& recorded(next, output) == recorded(slot, output) || pending(slot, output) == Some(
        recorded(next, output),
    )
    &&& pending(next, output) is None || pending(next, output) == pending(slot, output) || (pending(
        next,
        output,
    ) == Some(claimed(from, to)) && current(slot, output) is Some && pending(slot, output) is None)
}

/// What one answer does to a slot's place in the image.
pub proof fn lemma_fmmu_effect(
    programming: ConfigureFmmu,
    device: SubDevice,
    data: Seq<u8>,
    identifier: Option<u8>,
    idx: u16,
    pdi_offset: u32,
    output: bool,
)
    ensures
        ({
            let step = programming.spec_update(device, data, identifier, idx, pdi_offset, output);
            let before = match programming.fmmu {
                FmmuConfig::CheckFmmu(segment) => Some(segment),
                _ => None,
            };
            let after = match step.next.0.fmmu {
                FmmuConfig::CheckFmmu(segment) => Some(segment),
                _ => None,
            };
            step.result is Ok ==> {
                &&& pdi_offset <= step.next.2
                &&& step.next.1.config.io == device.config.io || (before matches Some(segment)
                    && step.next.1 == crate::fmmu::with_segment(device, output, segment))
                &&& after == before || (before is None && after == Some(
                    claimed(pdi_offset, step.next.2),
                ))
                &&& step.next.2 != pdi_offset ==> before is None && after == Some(
                    claimed(pdi_offset, step.next.2),
                )
                &&& step.next.1.config.mailbox == device.config.mailbox
            }
        }),
{
}

pub proof fn lemma_slot_effect(
    slot: Slot,
    data: Seq<u8>,
    config: PdoConfig,
    identifier: Option<u8>,
    idx: u16,
    pdi_offset: u32,
)
    ensures
        ({
            let step = slot.spec_preop_update(data, config, identifier, idx, pdi_offset);
            step.result is Ok ==> slot_effect(
                slot,
                step.next.0,
                pdi_offset,
                step.next.1,
                step.result->Ok_0,
            )
        }),
{
    match slot.work {
        Work::PreOp(PreOpConfigState::Pdos(_)) => {
            lemma_pdos_effect(slot, data, config, identifier, idx, pdi_offset);
        },
        Work::PreOp(PreOpConfigState::Fmmus(ConfigureFmmus::Configure { .. })) => {
            lemma_configure_effect(slot, data, config, identifier, idx, pdi_offset);
        },
        Work::PreOp(PreOpConfigState::Fmmus(_)) => {
            lemma_walk_effect(slot, data, config, identifier, idx, pdi_offset);
        },
        Work::PreOp(PreOpConfigState::SafeOpTransition(_)) => {
            lemma_transition_effect(slot, data, config, identifier, idx, pdi_offset);
        },
        _ => {},
    }
}

proof fn lemma_pdos_effect(
    slot: Slot,
    data: Seq<u8>,
    config: PdoConfig,
    identifier: Option<u8>,
    idx: u16,
    pdi_offset: u32,
)
    requires
        slot.work matches Work::PreOp(PreOpConfigState::Pdos(_)),
    ensures
        ({
            let step = slot.spec_preop_update(data, config, identifier, idx, pdi_offset);
            step.result is Ok ==> step.next.1 == pdi_offset && step.result->Ok_0 is None
                && step.next.0.device.config == slot.device.config && (step.next.0.work matches Work::PreOp(
                PreOpConfigState::Pdos(_),
            ) || step.next.0.work matches Work::PreOp(
                PreOpConfigState::Fmmus(ConfigureFmmus::SyncManagers(_, _)),
            ))
        }),
{
}

proof fn lemma_walk_effect(
    slot: Slot,
    data: Seq<u8>,
    config: PdoConfig,
    identifier: Option<u8>,
    idx: u16,
    pdi_offset: u32,
)
    requires
        slot.work matches Work::PreOp(PreOpConfigState::Fmmus(fmmus)) && !(fmmus is Configure),
    ensures
        ({
            let step = slot.spec_preop_update(data, config, identifier, idx, pdi_offset);
            step.result is Ok ==> step.next.1 == pdi_offset && step.next.0.device == slot.device
                && (step.result->Ok_0 is None || step.result->Ok_0 == Some(Progress::Input)) && (
            step.next.0.work matches Work::PreOp(PreOpConfigState::Fmmus(after)) && (match after {
                ConfigureFmmus::Configure { current_input, current_output, .. } => current_output
                    is None && (match current_input {
                    Some(programming) => programming.fmmu is ReadFmmu && step.result->Ok_0 is None,
                    None => step.result->Ok_0 == Some(Progress::Input),
                }),
                _ => step.result->Ok_0 is None,
            }))
        }),
{
}

proof fn lemma_configure_effect(
    slot: Slot,
    data: Seq<u8>,
    config: PdoConfig,
    identifier: Option<u8>,
    idx: u16,
    pdi_offset: u32,
)
    requires
        slot.work matches Work::PreOp(PreOpConfigState::Fmmus(ConfigureFmmus::Configure { .. })),
    ensures
        ({
            let step = slot.spec_preop_update(data, config, identifier, idx, pdi_offset);
            step.result is Ok ==> slot_effect(
                slot,
                step.next.0,
                pdi_offset,
                step.next.1,
                step.result->Ok_0,
            )
        }),
{
    match slot.work {
        Work::PreOp(PreOpConfigState::Fmmus(ConfigureFmmus::Configure { current_input, current_output, .. })) => {
            if current_input is Some {
                lemma_fmmu_effect(
                    current_input->0,
                    slot.device,
                    data,
                    identifier,
                    idx,
                    pdi_offset,
                    false,
                );
            }
            if current_output is Some {
                lemma_fmmu_effect(
                    current_output->0,
                    slot.device,
                    data,
                    identifier,
                    idx,
                    pdi_offset,
                    true,
                );
            }
        },
        _ => {},
    }
}

proof fn lemma_transition_effect(
    slot: Slot,
    data: Seq<u8>,
    config: PdoConfig,
    identifier: Option<u8>,
    idx: u16,
    pdi_offset: u32,
)
    requires
        slot.work matches Work::PreOp(PreOpConfigState::SafeOpTransition(_)),
    ensures
        ({
            let step = slot.spec_preop_update(data, config, identifier, idx, pdi_offset);
            step.result is Ok ==> step.next.1 == pdi_offset && step.next.0.device == slot.device
                && (if step.result->Ok_0 == Some(Progress::SafeOp) {
                step.next.0.work is Idle
            } else {
                in_third_pass(step.next.0) && step.result->Ok_0 is None
            })
        }),
{
}

/// What one answer can do to a slot: to its place in the image, to what it
/// claims, and to the pass it is in.
pub open spec fn slot_effect(slot: Slot, next: Slot, from: u32, to: u32, progress: Option<Progress>) -> bool {
    &&& from <= to
    &&& direction_effect(slot, next, false, from, to)
    &&& direction_effect(slot, next, true, from, to)
    &&& to != from ==> (pending(next, false) == Some(claimed(from, to)) && pending(slot, false)
        is None) || (pending(next, true) == Some(claimed(from, to)) && pending(slot, true) is None)
    &&& current(slot, true) is None ==> current(next, true) is None
    &&& in_first_pass(slot) ==> in_first_pass(next) && (progress is None || progress == Some(
        Progress::Input,
    )) && (progress == Some(Progress::Input) ==> inputs_done(next))
    &&& in_second_pass(slot) ==> in_second_pass(next) && recorded(next, false) == recorded(
        slot,
        false,
    ) && (progress is None || progress == Some(Progress::Output)) && (progress == Some(
        Progress::Output,
    ) ==> inputs_done(next))
    &&& in_third_pass(slot) ==> to == from && next.device == slot.device && (if progress == Some(
        Progress::SafeOp,
    ) {
        next.work is Idle
    } else {
        in_third_pass(next) && progress is None
    })
}

/// Beginning the first pass for a device leaves its place in the image as it
/// is and claims nothing.
pub proof fn lemma_start_effect(slot: Slot, config: PdoConfig, idx: u16)
    ensures
        ({
            let step = slot.spec_preop_start(config, idx);
            step.result is Ok ==> {
                &&& in_first_pass(step.next)
                &&& recorded(step.next, false) == recorded(slot, false)
                &&& recorded(step.next, true) == recorded(slot, true)
                &&& pending(step.next, false) is None
                &&& pending(step.next, true) is None
                &&& current(step.next, true) is None
            }
        }),
{
}

/// Beginning the second pass for a device whose programming is at rest
/// leaves its place in the image as it is and claims nothing; a device
/// without outputs stays as it is.
pub proof fn lemma_start_output_effect(slot: Slot, idx: u16)
    requires
        inputs_done(slot),
    ensures
        ({
            let step = slot.spec_preop_start_output(idx);
            &&& step.result == Ok::<bool, Error>(false) ==> step.next == slot
            &&& step.result == Ok::<bool, Error>(true) ==> {
                &&& in_second_pass(step.next)
                &&& !inputs_done(step.next)
                &&& recorded(step.next, false) == recorded(slot, false)
                &&& recorded(step.next, true) == recorded(slot, true)
                &&& pending(step.next, false) is None
                &&& pending(step.next, true) is None
                &&& current(step.next, false) is None
            }
        }),
{
}

/// Beginning the third pass for a device whose programming is at rest leaves
/// its record as it is.
pub proof fn lemma_start_safeop_effect(slot: Slot, idx: u16)
    requires
        inputs_done(slot),
    ensures
        ({
            let step = slot.spec_preop_start_safeop(idx);
            &&& step.result is Ok
            &&& in_third_pass(step.next)
            &&& step.next.device == slot.device
            &&& current(step.next, false) is None
            &&& current(step.next, true) is None
        }),
{
}

/// A device that is not at work takes no answer.
pub proof fn lemma_inactive_fails(
    slot: Slot,
    data: Seq<u8>,
    config: PdoConfig,
    identifier: Option<u8>,
    idx: u16,
    pdi_offset: u32,
)
    requires
        inputs_done(slot) || slot.work is Idle,
    ensures
        slot.spec_preop_update(data, config, identifier, idx, pdi_offset).result is Err,
{
}

/// The stage begins well-formed.
pub proof fn law_preop_begins_laid_out(devices: Seq<Slot>, configs: Seq<PdoConfig>)
    requires
        devices.len() <= crate::queue::MAX_SUBDEVICES,
    ensures
        PreOpModel::spec_start_new(devices, configs).result is Ok ==> PreOpModel::spec_start_new(
            devices,
            configs,
        ).next.wf(),
{
    let step = PreOpModel::spec_start_new(devices, configs);
    if step.result is Ok && devices.len() > 0 {
        let fresh = crate::preop::all_unmapped(devices);
        lemma_start_effect(fresh[0], configs[0], 0);
        let next = step.next;
        assert forall|i: int| 0 <= i < next.devices.len() implies (#[trigger] recorded(
            next.devices[i],
            false,
        )).start == recorded(next.devices[i], false).end && recorded(next.devices[i], true).start
            == recorded(next.devices[i], true).end by {
            if i != 0 {
                assert(next.devices[i] == fresh[i]);
            }
        }
    }
}

/// An answer leaves a well-formed stage well-formed: whatever the devices
/// answer, the segments given to them never overlap, the inputs stay in
/// front of the outputs, and nothing reaches beyond the offset of the next
/// free byte.
pub proof fn law_preop_stays_laid_out(
    stage: PreOpModel,
    data: Seq<u8>,
    identifier: Option<u8>,
    idx: Option<u16>,
    configs: Seq<PdoConfig>,
)
    requires
        stage.wf(),
    ensures
        stage.spec_update(data, identifier, idx, configs).next.wf(),
{
    let step = stage.spec_update(data, identifier, idx, configs);
    if step.result is Ok {
        let at = idx->0 as int;
        let slot = stage.devices[at];
        let inner = slot.spec_preop_update(data, configs[at], identifier, idx->0, stage.pdi_offset);
        lemma_slot_effect(slot, data, configs[at], identifier, idx->0, stage.pdi_offset);
        if inputs_done(slot) || slot.work is Idle {
            lemma_inactive_fails(slot, data, configs[at], identifier, idx->0, stage.pdi_offset);
        }
        assert(recorded(slot, true) == recorded(stage.devices[at], true));
        assert(current(stage.devices[at], false) is None || stage.input_end is None);
        lemma_moved_laid_out(stage, at, inner.next.0, inner.next.1, inner.result->Ok_0);
        match inner.result->Ok_0 {
            None => {},
            Some(progress) => {
                lemma_pass_done_laid_out(stage, progress, at, inner.next.0, inner.next.1, configs);
            },
        }
    }
}

/// The index of the device that is at work.
pub open spec fn active(stage: PreOpModel) -> int {
    match (stage.input_end, stage.output_end) {
        (None, _) => stage.configured_input_idx as int,
        (Some(_), None) => stage.configured_output_idx as int,
        (Some(_), Some(_)) => stage.configured_safeop_idx as int,
    }
}

/// The part of well-formedness that holds between the step of a slot and
/// the move of the stage to the next device.
pub open spec fn laid_out_after_step(
    stage: PreOpModel,
    at: int,
    devices: Seq<Slot>,
    to: u32,
    progress: Option<Progress>,
) -> bool {
    let len = devices.len() as int;
    &&& at == active(stage)
    &&& 0 <= at < len
    &&& match (stage.input_end, stage.output_end) {
        (None, _) => {
            &&& inputs_laid_out(devices, to as int)
            &&& forall|i: int|
                0 <= i < len ==> {
                    &&& (#[trigger] recorded(devices[i], true)).start == recorded(devices[i], true).end
                    &&& current(devices[i], true) is None
                    &&& i < at ==> inputs_done(devices[i])
                    &&& i > at ==> devices[i].work is Idle && recorded(devices[i], false).start
                        == recorded(devices[i], false).end
                    &&& i != at ==> pending(devices[i], false) is None
                }
            &&& pending_fits(devices, at, false, 0, to as int)
            &&& in_first_pass(devices[at])
            &&& progress is None || progress == Some(Progress::Input)
            &&& progress == Some(Progress::Input) ==> inputs_done(devices[at])
        },
        (Some(input_end), None) => {
            &&& input_end <= to
            &&& inputs_laid_out(devices, input_end as int)
            &&& outputs_laid_out(devices, input_end as int, to as int)
            &&& forall|i: int|
                0 <= i < len ==> {
                    &&& current(#[trigger] devices[i], false) is None
                    &&& i != at ==> inputs_done(devices[i]) && pending(devices[i], true) is None
                    &&& i > at ==> recorded(devices[i], true).start == recorded(devices[i], true).end
                }
            &&& pending_fits(devices, at, true, input_end as int, to as int)
            &&& in_second_pass(devices[at])
            &&& progress is None || progress == Some(Progress::Output)
            &&& progress == Some(Progress::Output) ==> inputs_done(devices[at])
        },
        (Some(input_end), Some(output_end)) => {
            &&& to == stage.pdi_offset
            &&& inputs_laid_out(devices, input_end as int)
            &&& outputs_laid_out(devices, input_end as int, output_end as int)
            &&& forall|i: int|
                0 <= i < len ==> {
                    &&& current(#[trigger] devices[i], false) is None
                    &&& current(devices[i], true) is None
                    &&& i < at ==> devices[i].work is Idle
                    &&& i > at ==> inputs_done(devices[i])
                }
            &&& if progress == Some(Progress::SafeOp) {
                devices[at].work is Idle
            } else {
                in_third_pass(devices[at]) && progress is None
            }
        },
    }
}

proof fn lemma_moved_laid_out(
    stage: PreOpModel,
    at: int,
    next: Slot,
    to: u32,
    progress: Option<Progress>,
)
    requires
        stage.wf(),
        0 <= at < stage.devices.len(),
        slot_effect(stage.devices[at], next, stage.pdi_offset, to, progress),
        !inputs_done(stage.devices[at]),
        !(stage.devices[at].work is Idle),
    ensures
        laid_out_after_step(stage, at, stage.devices.update(at, next), to, progress),
        progress is None ==> (PreOpModel {
            devices: stage.devices.update(at, next),
            pdi_offset: to,
            ..stage
        }).wf(),
{
    let devices = stage.devices.update(at, next);
    let len = devices.len() as int;
    let slot = stage.devices[at];
    assert forall|i: int| 0 <= i < len && i != at implies devices[i] == stage.devices[i] by {}
    assert(recorded(slot, true) == recorded(stage.devices[at], true));
    assert(current(stage.devices[at], false) is None || stage.input_end is None);
    match (stage.input_end, stage.output_end) {
        (None, _) => {
            assert(at == stage.configured_input_idx);
            assert(recorded(next, true) == recorded(slot, true));
            assert forall|i: int, j: int|
                0 <= i < len && 0 <= j < len && i != j implies (#[trigger] recorded(
                devices[i],
                false,
            )).disjoint(#[trigger] recorded(devices[j], false)) by {
                assert(recorded(stage.devices[i], false).disjoint(recorded(stage.devices[j], false)));
                if i == at {
                    assert(recorded(stage.devices[j], false) == recorded(devices[j], false));
                } else if j == at {
                    assert(recorded(stage.devices[i], false) == recorded(devices[i], false));
                }
            }
            assert forall|i: int| 0 <= i < len implies (#[trigger] recorded(devices[i], false)).wf()
                && recorded(devices[i], false).within(0, to as int) by {
                assert(recorded(stage.devices[i], false).wf());
            }
            assert(pending_fits(devices, at, false, 0, to as int)) by {
                if pending(next, false) is Some {
                    let segment = pending(next, false)->0;
                    assert forall|j: int| 0 <= j < len && j != at implies segment.disjoint(
                        #[trigger] recorded(devices[j], false),
                    ) by {
                        assert(recorded(stage.devices[j], false).wf());
                        assert(recorded(devices[j], false) == recorded(stage.devices[j], false));
                    }
                }
            }
            assert(inputs_laid_out(devices, to as int));
            assert forall|i: int| 0 <= i < len implies {
                &&& (#[trigger] recorded(devices[i], true)).start == recorded(devices[i], true).end
                &&& current(devices[i], true) is None
                &&& i < at ==> inputs_done(devices[i])
                &&& i > at ==> devices[i].work is Idle && recorded(devices[i], false).start
                    == recorded(devices[i], false).end
                &&& i != at ==> pending(devices[i], false) is None
            } by {
                assert(recorded(stage.devices[i], true).start == recorded(stage.devices[i], true).end);
            }
            assert(laid_out_after_step(stage, at, devices, to, progress));
        },
        (Some(input_end), None) => {
            assert(at == stage.configured_output_idx);
            assert(in_second_pass(slot));
            assert forall|i: int, j: int|
                0 <= i < len && 0 <= j < len && i != j implies (#[trigger] recorded(
                devices[i],
                false,
            )).disjoint(#[trigger] recorded(devices[j], false)) by {
                assert(recorded(stage.devices[i], false).disjoint(recorded(stage.devices[j], false)));
            }
            assert forall|i: int| 0 <= i < len implies (#[trigger] recorded(devices[i], false)).wf()
                && recorded(devices[i], false).within(0, input_end as int) by {
                assert(recorded(stage.devices[i], false).wf());
            }
            assert forall|i: int, j: int|
                0 <= i < len && 0 <= j < len && i != j implies (#[trigger] recorded(
                devices[i],
                true,
            )).disjoint(#[trigger] recorded(devices[j], true)) by {
                assert(recorded(stage.devices[i], true).disjoint(recorded(stage.devices[j], true)));
                if i == at {
                    assert(recorded(stage.devices[j], true) == recorded(devices[j], true));
                } else if j == at {
                    assert(recorded(stage.devices[i], true) == recorded(devices[i], true));
                }
            }
            assert forall|i: int| 0 <= i < len implies (#[trigger] recorded(devices[i], true)).wf()
                && recorded(devices[i], true).within(input_end as int, to as int) by {
                assert(recorded(stage.devices[i], true).wf());
            }
            assert(pending_fits(devices, at, true, input_end as int, to as int)) by {
                if pending(next, true) is Some {
                    let segment = pending(next, true)->0;
                    assert forall|j: int| 0 <= j < len && j != at implies segment.disjoint(
                        #[trigger] recorded(devices[j], true),
                    ) by {
                        assert(recorded(stage.devices[j], true).wf());
                        assert(recorded(devices[j], true) == recorded(stage.devices[j], true));
                    }
                }
            }
            assert(inputs_laid_out(devices, input_end as int));
            assert(outputs_laid_out(devices, input_end as int, to as int));
            assert forall|i: int| 0 <= i < len implies {
                &&& current(#[trigger] devices[i], false) is None
                &&& i != at ==> inputs_done(devices[i]) && pending(devices[i], true) is None
                &&& i > at ==> recorded(devices[i], true).start == recorded(devices[i], true).end
            } by {
                assert(current(stage.devices[i], false) is None);
            }
            assert(laid_out_after_step(stage, at, devices, to, progress));
        },
        (Some(input_end), Some(output_end)) => {
            assert(at == stage.configured_safeop_idx) by {
                assert(current(stage.devices[at], false) is None);
            }
            assert(in_third_pass(slot));
            lemma_same_places(stage.devices, devices, at);
            assert forall|i: int| 0 <= i < len implies {
                &&& current(#[trigger] devices[i], false) is None
                &&& current(devices[i], true) is None
                &&& i < at ==> devices[i].work is Idle
                &&& i > at ==> inputs_done(devices[i])
            } by {
                assert(current(stage.devices[i], false) is None);
            }
            assert(laid_out_after_step(stage, at, devices, to, progress));
        },
    }
}

/// The devices that the second pass passes by stay as they are, and all of
/// them are at rest.
proof fn lemma_begin_outputs_laid_out(stage: PreOpModel, from: int)
    requires
        stage.devices.len() <= crate::queue::MAX_SUBDEVICES,
        0 <= from <= stage.devices.len(),
        stage.devices.len() > 0,
        stage.input_end matches Some(input_end) && input_end <= stage.pdi_offset,
        stage.output_end is None,
        inputs_laid_out(stage.devices, stage.input_end->0 as int),
        outputs_laid_out(stage.devices, stage.input_end->0 as int, stage.pdi_offset as int),
        forall|i: int|
            0 <= i < stage.devices.len() ==> {
                &&& inputs_done(#[trigger] stage.devices[i])
                &&& i >= from ==> recorded(stage.devices[i], true).start == recorded(
                    stage.devices[i],
                    true,
                ).end
            },
    ensures
        stage.spec_begin_outputs(from).result is Ok ==> stage.spec_begin_outputs(from).next.wf(),
{
    let len = stage.devices.len() as int;
    let then = stage.spec_begin_outputs(from);
    let input_end = stage.input_end->0;
    lemma_next_output(stage.devices, from);
    let target = next_output(stage.devices, from);
    if then.result is Ok {
        let after = then.next.devices;
        if target < len {
            assert(inputs_done(stage.devices[target]));
            lemma_start_output_effect(stage.devices[target], target as u16);
            assert forall|i: int| 0 <= i < len && i != target implies after[i] == stage.devices[i] by {}
            lemma_same_places(stage.devices, after, target);
            assert forall|i: int| 0 <= i < len implies {
                &&& current(#[trigger] after[i], false) is None
                &&& i == target ==> in_second_pass(after[i])
                &&& i != target ==> inputs_done(after[i]) && pending(after[i], true) is None
                &&& i > target ==> recorded(after[i], true).start == recorded(after[i], true).end
            } by {
                assert(inputs_done(stage.devices[i]));
            }
            assert(pending_fits(after, target, true, input_end as int, stage.pdi_offset as int));
            assert(then.next.wf());
        } else {
            assert(inputs_done(stage.devices[0]));
            lemma_start_safeop_effect(stage.devices[0], 0);
            assert forall|i: int| 0 <= i < len && i != 0 implies after[i] == stage.devices[i] by {}
            lemma_same_places(stage.devices, after, 0);
            assert forall|i: int| 0 <= i < len implies {
                &&& current(#[trigger] after[i], false) is None
                &&& current(after[i], true) is None
                &&& i == 0 ==> in_third_pass(after[i])
                &&& i > 0 ==> inputs_done(after[i])
            } by {
                assert(inputs_done(stage.devices[i]));
            }
            assert(then.next.wf());
        }
    }
}

proof fn lemma_pass_done_laid_out(
    stage: PreOpModel,
    progress: Progress,
    at: int,
    next: Slot,
    to: u32,
    configs: Seq<PdoConfig>,
)
    requires
        stage.wf(),
        0 <= at < stage.devices.len(),
        configs.len() == stage.devices.len(),
        laid_out_after_step(stage, at, stage.devices.update(at, next), to, Some(progress)),
    ensures
        stage.spec_pass_done(progress, stage.devices.update(at, next), to, configs).next.wf(),
{
    let devices = stage.devices.update(at, next);
    let len = devices.len() as int;
    let then = stage.spec_pass_done(progress, devices, to, configs);
    let moved = PreOpModel { devices, pdi_offset: to, ..stage };
    if then.result is Ok {
        match progress {
            Progress::Input => {
                if stage.configured_input_idx + 1 < len {
                    let target = stage.configured_input_idx + 1;
                    lemma_start_effect(devices[target], configs[target], target as u16);
                    let after = then.next.devices;
                    assert forall|i: int| 0 <= i < len && i != target implies after[i] == devices[i] by {}
                    lemma_same_places(devices, after, target);
                    assert(inputs_laid_out(after, to as int));
                    assert forall|i: int| 0 <= i < len implies {
                        &&& (#[trigger] recorded(after[i], true)).start == recorded(after[i], true).end
                        &&& current(after[i], true) is None
                        &&& i < target ==> inputs_done(after[i])
                        &&& i > target ==> after[i].work is Idle && recorded(after[i], false).start
                            == recorded(after[i], false).end
                        &&& i != target ==> pending(after[i], false) is None
                    } by {
                        assert(recorded(devices[i], true).start == recorded(devices[i], true).end);
                    }
                    assert(pending_fits(after, target, false, 0, to as int));
                    assert(in_first_pass(after[target]));
                    assert(then.next.wf());
                } else {
                    let settled = PreOpModel {
                        configured_input_idx: len as u16,
                        input_end: Some(to),
                        ..moved
                    };
                    assert forall|i: int| 0 <= i < len implies inputs_done(#[trigger] devices[i])
                        && recorded(devices[i], true).start == recorded(devices[i], true).end by {
                        assert(recorded(devices[i], true).start == recorded(devices[i], true).end);
                    }
                    assert forall|i: int| 0 <= i < len implies (#[trigger] recorded(devices[i], true)).wf()
                        && recorded(devices[i], true).within(to as int, to as int) by {
                        assert(recorded(devices[i], true).start == recorded(devices[i], true).end);
                    }
                    assert forall|i: int, j: int|
                        0 <= i < len && 0 <= j < len && i != j implies (#[trigger] recorded(
                        devices[i],
                        true,
                    )).disjoint(#[trigger] recorded(devices[j], true)) by {
                        assert(recorded(devices[i], true).start == recorded(devices[i], true).end);
                    }
                    assert(outputs_laid_out(devices, to as int, to as int));
                    lemma_begin_outputs_laid_out(settled, 0);
                }
            },
            Progress::Output => {
                let from = stage.configured_output_idx + 1;
                assert forall|i: int| 0 <= i < len implies inputs_done(#[trigger] devices[i]) && (i
                    >= from ==> recorded(devices[i], true).start == recorded(devices[i], true).end) by {
                    assert(current(devices[i], false) is None);
                }
                lemma_begin_outputs_laid_out(moved, from);
            },
            Progress::SafeOp => {
                let after = then.next.devices;
                if stage.configured_safeop_idx + 1 < len {
                    let target = stage.configured_safeop_idx + 1;
                    assert(current(devices[target], false) is None);
                    assert(inputs_done(devices[target]));
                    lemma_start_safeop_effect(devices[target], target as u16);
                    assert forall|i: int| 0 <= i < len && i != target implies after[i] == devices[i] by {}
                    lemma_same_places(devices, after, target);
                    assert forall|i: int| 0 <= i < len implies {
                        &&& current(#[trigger] after[i], false) is None
                        &&& current(after[i], true) is None
                        &&& i < target ==> after[i].work is Idle
                        &&& i == target ==> in_third_pass(after[i])
                        &&& i > target ==> inputs_done(after[i])
                    } by {
                        assert(current(devices[i], false) is None);
                    }
                    assert(then.next.wf());
                } else {
                    assert(after == devices);
                    assert forall|i: int| 0 <= i < len implies {
                        &&& current(#[trigger] after[i], false) is None
                        &&& current(after[i], true) is None
                        &&& after[i].work is Idle
                    } by {
                        assert(current(devices[i], false) is None);
                    }
                    assert(then.next.wf());
                }
            },
        }
    }
}

/// Replacing a slot by one with the same segments keeps the layout.
proof fn lemma_same_places(before: Seq<Slot>, after: Seq<Slot>, target: int)
    requires
        before.len() == after.len(),
        0 <= target < before.len(),
        forall|i: int| 0 <= i < before.len() && i != target ==> after[i] == before[i],
        recorded(after[target], false) == recorded(before[target], false),
        recorded(after[target], true) == recorded(before[target], true),
    ensures
        forall|bound: int| inputs_laid_out(before, bound) ==> inputs_laid_out(after, bound),
        forall|lo: int, hi: int|
            outputs_laid_out(before, lo, hi) ==> outputs_laid_out(after, lo, hi),
        forall|at: int, output: bool, lo: int, hi: int|
            0 <= at < before.len() && at != target && pending_fits(before, at, output, lo, hi)
                ==> pending_fits(after, at, output, lo, hi),
        forall|i: int, output: bool|
            0 <= i < before.len() ==> #[trigger] recorded(after[i], output) == recorded(
                before[i],
                output,
            ),
{
    assert forall|i: int, output: bool| 0 <= i < before.len() implies #[trigger] recorded(
        after[i],
        output,
    ) == recorded(before[i], output) by {}
    assert forall|bound: int| inputs_laid_out(before, bound) implies inputs_laid_out(
        after,
        bound,
    ) by {
        assert forall|i: int| 0 <= i < after.len() implies (#[trigger] recorded(after[i], false)).wf()
            && recorded(after[i], false).within(0, bound) by {
            assert(recorded(before[i], false).wf());
        }
        assert forall|i: int, j: int|
            0 <= i < after.len() && 0 <= j < after.len() && i != j implies (#[trigger] recorded(
            after[i],
            false,
        )).disjoint(#[trigger] recorded(after[j], false)) by {
            assert(recorded(before[i], false).disjoint(recorded(before[j], false)));
        }
    }
    assert forall|lo: int, hi: int| outputs_laid_out(before, lo, hi) implies outputs_laid_out(
        after,
        lo,
        hi,
    ) by {
        assert forall|i: int| 0 <= i < after.len() implies (#[trigger] recorded(after[i], true)).wf()
            && recorded(after[i], true).within(lo, hi) by {
            assert(recorded(before[i], true).wf());
        }
        assert forall|i: int, j: int|
            0 <= i < after.len() && 0 <= j < after.len() && i != j implies (#[trigger] recorded(
            after[i],
            true,
        )).disjoint(#[trigger] recorded(after[j], true)) by {
            assert(recorded(before[i], true).disjoint(recorded(before[j], true)));
        }
    }
    assert forall|at: int, output: bool, lo: int, hi: int|
        0 <= at < before.len() && at != target && pending_fits(
            before,
            at,
            output,
            lo,
            hi,
        ) implies pending_fits(after, at, output, lo, hi) by {
        if pending(after[at], output) is Some {
            let segment = pending(after[at], output)->0;
            assert forall|j: int| 0 <= j < after.len() && j != at implies segment.disjoint(
                #[trigger] recorded(after[j], output),
            ) by {
                assert(segment.disjoint(recorded(before[j], output)));
            }
        }
    }
}

} // verus!
