//! Moves every sub-device from `SafeOp` to `Op`, one after the other.

use crate::error::{Error, SubDeviceState};
use crate::queue::{with_work, DeviceQueue, Slot, Work};
use crate::request::{failed, lemma_sent_both, lemma_sent_nothing, Request, Step};
use crate::state_transition::{Transition, TransitionState};
use vstd::prelude::*;

verus! {

pub struct SafeOp {
    pub devices: DeviceQueue,
    /// Number of devices that have reached `Op`.
    pub transition_idx: u16,
}

/// The stage as a value.
pub struct SafeOpModel {
    pub devices: Seq<Slot>,
    pub transition_idx: u16,
}

impl View for SafeOp {
    type V = SafeOpModel;

    open spec fn view(&self) -> SafeOpModel {
        SafeOpModel { devices: self.devices@, transition_idx: self.transition_idx }
    }
}

/// The transition to `Op` at its beginning.
pub open spec fn to_op() -> Transition {
    Transition { requested: SubDeviceState::Op, state: TransitionState::Transition }
}

/// The request that begins the transition of the device at position `at`,
/// if there is one.
pub open spec fn op_start(slots: Seq<Slot>, at: int) -> Seq<Request> {
    if 0 <= at < slots.len() {
        to_op().spec_start(slots[at].device.configured_address, at as u16)
    } else {
        seq![]
    }
}

impl Slot {
    /// One answer applied to the device's transition; `true` when the device
    /// has reached the state.
    pub open spec fn spec_transition_update(self, data: Seq<u8>, idx: u16) -> Step<Slot, bool> {
        match self.work {
            Work::Transition(transition) => {
                let inner = transition.spec_update(data, self.device.configured_address, idx);
                match inner.result {
                    Err(e) => failed(self, e),
                    Ok(done) => Step {
                        next: Slot { work: Work::Transition(inner.next), ..self },
                        sent: inner.sent,
                        result: Ok(done),
                    },
                }
            },
            _ => failed(self, Error::WireCodec),
        }
    }

    pub fn transition_update(&mut self, received: &[u8], idx: u16, out: &mut Vec<Request>) -> (r:
        Result<bool, Error>)
        ensures
            ({
                let step = old(self).spec_transition_update(received@, idx);
                &&& *final(self) == step.next
                &&& final(out)@ == old(out)@ + step.sent
                &&& r == step.result
            }),
    {
        proof {
            lemma_sent_nothing(out@);
        }
        match self.work {
            Work::Transition(transition) => {
                let mut moving = transition;
                let done = moving.update(received, self.device.configured_address, idx, out)?;
                self.work = Work::Transition(moving);
                Ok(done)
            },
            _ => Err(Error::WireCodec),
        }
    }
}

impl SafeOpModel {
    /// The stage at its beginning: every device awaits its transition.
    pub open spec fn spec_start_new(devices: Seq<Slot>) -> SafeOpModel {
        SafeOpModel { devices: with_work(devices, Work::Transition(to_op())), transition_idx: 0 }
    }

    /// One answer applied to the stage; `true` when every device is in `Op`.
    /// The answer belongs to the device that its index names. When a device
    /// has reached `Op`, the transition of the next device in ring order is
    /// begun.
    pub open spec fn spec_update(self, data: Seq<u8>, idx: Option<u16>) -> Step<SafeOpModel, bool> {
        let len = self.devices.len() as int;
        if idx is None || idx->0 >= len || self.transition_idx >= len {
            failed(self, Error::WireCodec)
        } else {
            let inner = self.devices[idx->0 as int].spec_transition_update(data, idx->0);
            let devices = self.devices.update(idx->0 as int, inner.next);
            match inner.result {
                Err(e) => failed(self, e),
                Ok(false) => Step {
                    next: SafeOpModel { devices, ..self },
                    sent: inner.sent,
                    result: Ok(false),
                },
                Ok(true) => Step {
                    next: SafeOpModel { devices, transition_idx: (self.transition_idx + 1) as u16 },
                    sent: inner.sent + op_start(devices, self.transition_idx + 1),
                    result: Ok(self.transition_idx + 1 == len),
                },
            }
        }
    }
}

impl SafeOp {
    /// Begins the stage with the transition of the first device.
    pub fn start_new(devices: DeviceQueue, out: &mut Vec<Request>) -> (stage: Self)
        ensures
            stage@ == SafeOpModel::spec_start_new(devices@),
            final(out)@ == old(out)@ + op_start(devices@, 0),
    {
        proof {
            lemma_sent_nothing(out@);
        }
        let mut devices = devices;
        let transition = Transition::new(SubDeviceState::Op);
        devices.set_all_work(Work::Transition(transition));
        match devices.device(0) {
            Some(first) => {
                transition.start(first.configured_address, 0, out);
            },
            None => {},
        }
        SafeOp { devices, transition_idx: 0 }
    }

    /// Applies one answer; `Some(devices)` when every device is in `Op`. The
    /// stage then keeps no devices.
    pub fn update(&mut self, received: &[u8], idx: Option<u16>, out: &mut Vec<Request>) -> (r:
        Result<Option<DeviceQueue>, Error>)
        ensures
            ({
                let step = old(self)@.spec_update(received@, idx);
                &&& final(out)@ == old(out)@ + step.sent
                &&& match step.result {
                    Err(e) => r matches Err(f) && f == e && final(self)@ == old(self)@,
                    Ok(false) => r matches Ok(None) && final(self)@ == step.next,
                    Ok(true) => r matches Ok(Some(devices)) && devices@ == step.next.devices
                        && final(self)@ == (SafeOpModel { devices: Seq::empty(), ..step.next }),
                }
            }),
    {
        proof {
            lemma_sent_nothing(out@);
        }
        let len = self.devices.count();
        let at = match idx {
            Some(i) => i,
            None => {
                return Err(Error::WireCodec);
            },
        };
        if self.transition_idx as usize >= len {
            return Err(Error::WireCodec);
        }
        let mut slot = match self.devices.slot(at as usize) {
            Some(s) => s,
            None => {
                return Err(Error::WireCodec);
            },
        };
        let ghost sent = old(self)@.devices[at as int].spec_transition_update(received@, at).sent;
        let done = slot.transition_update(received, at, out)?;
        self.devices.put(at as usize, slot);
        if !done {
            return Ok(None);
        }
        self.transition_idx = self.transition_idx + 1;
        match self.devices.device(self.transition_idx as usize) {
            Some(next) => {
                Transition::new(SubDeviceState::Op).start(
                    next.configured_address,
                    self.transition_idx,
                    out,
                );
                proof {
                    lemma_sent_both(
                        old(out)@,
                        sent,
                        op_start(self.devices@, self.transition_idx as int),
                    );
                }
                Ok(None)
            },
            None => {
                proof {
                    lemma_sent_both(old(out)@, sent, Seq::empty());
                }
                Ok(Some(self.devices.take()))
            },
        }
    }
}

/// The move to `Op` leaves the records of the devices as they are: every
/// device keeps its place in the process image.
pub proof fn law_safeop_keeps_records(stage: SafeOpModel, data: Seq<u8>, idx: Option<u16>, i: int)
    requires
        0 <= i < stage.devices.len(),
    ensures
        stage.spec_update(data, idx).next.devices.len() == stage.devices.len(),
        stage.spec_update(data, idx).next.devices[i].device == stage.devices[i].device,
        SafeOpModel::spec_start_new(stage.devices).devices.len() == stage.devices.len(),
        SafeOpModel::spec_start_new(stage.devices).devices[i].device == stage.devices[i].device,
{
}

} // verus!
