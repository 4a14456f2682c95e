//! Counts the sub-devices of the segment and clears their registers.

use crate::error::Error;
use crate::request::{lemma_sent_nothing, one, quiet, send, Pdu, Request, Step};
use crate::wire::{PduHeader, CMD_BRD, CMD_BWR};
use vstd::prelude::*;

verus! {

/// Number of entries of the list of broadcast register clears: the AL
/// control reset, sixteen FMMU entries, sixteen sync-manager channels, eight
/// distributed-clock registers and two control-loop parameters.
pub const RESET_STEPS: u8 = 43;

/// One entry of the clear list: a broadcast write of `len` bytes to
/// `register`, all of them zero but for the first two, which hold `value`
/// in little-endian order.
#[derive(Clone, Copy, Debug, PartialEq, Eq, Structural)]
pub struct ClearTarget {
    pub register: u16,
    pub len: u16,
    pub value: u16,
}

/// `RegisterAddress::fmmu` of ethercrab, as a number: the register of the
/// FMMU entry `index`, sixteen bytes apart from 0x0600 on.
#[verifier::external_body]
fn fmmu_register(index: u8) -> (r: u16)
    requires
        index < 16,
    ensures
        r == 0x0600 + 0x10 * index,
{
    u16::from(ethercrab::RegisterAddress::fmmu(index))
}

/// `RegisterAddress::sync_manager` of ethercrab, as a number: the register of
/// the sync-manager channel `index`, eight bytes apart from 0x0800 on.
#[verifier::external_body]
fn sync_manager_register(index: u8) -> (r: u16)
    requires
        index < 16,
    ensures
        r == 0x0800 + 8 * index,
{
    u16::from(ethercrab::RegisterAddress::sync_manager(index))
}

/// The entry `step` of the clear list: the AL control word is set to `Init`
/// with the error acknowledged; the sixteen FMMU entries, the sixteen
/// sync-manager channels and the distributed-clock registers are blanked;
/// the two control-loop parameters get their initial values.
pub open spec fn spec_clear_target(step: u8) -> Option<ClearTarget> {
    if step == 0 {
        Some(ClearTarget { register: 0x0120, len: 2, value: 0x0011 })
    } else if step <= 16 {
        Some(ClearTarget { register: (0x0600 + 0x10 * (step - 1)) as u16, len: 16, value: 0 })
    } else if step <= 32 {
        Some(ClearTarget { register: (0x0800 + 8 * (step - 17)) as u16, len: 8, value: 0 })
    } else if step == 33 {
        Some(ClearTarget { register: 0x0910, len: 8, value: 0 })
    } else if step == 34 {
        Some(ClearTarget { register: 0x0920, len: 8, value: 0 })
    } else if step == 35 {
        Some(ClearTarget { register: 0x0928, len: 4, value: 0 })
    } else if step == 36 {
        Some(ClearTarget { register: 0x092c, len: 4, value: 0 })
    } else if step == 37 {
        Some(ClearTarget { register: 0x0981, len: 1, value: 0 })
    } else if step == 38 {
        Some(ClearTarget { register: 0x0990, len: 4, value: 0 })
    } else if step == 39 {
        Some(ClearTarget { register: 0x09a0, len: 4, value: 0 })
    } else if step == 40 {
        Some(ClearTarget { register: 0x09a4, len: 4, value: 0 })
    } else if step == 41 {
        Some(ClearTarget { register: 0x0934, len: 2, value: 0x0c00 })
    } else if step == 42 {
        Some(ClearTarget { register: 0x0930, len: 2, value: 0x1000 })
    } else {
        None
    }
}

/// What the entry `step` of the clear list writes; `None` behind the list.
pub fn clear_target(step: u8) -> (r: Option<ClearTarget>)
    ensures
        r == spec_clear_target(step),
        r is Some <==> step < RESET_STEPS,
{
    if step == 0 {
        Some(ClearTarget { register: 0x0120, len: 2, value: 0x0011 })
    } else if step <= 16 {
        Some(ClearTarget { register: fmmu_register(step - 1), len: 16, value: 0 })
    } else if step <= 32 {
        Some(ClearTarget { register: sync_manager_register(step - 17), len: 8, value: 0 })
    } else if step == 33 {
        Some(ClearTarget { register: 0x0910, len: 8, value: 0 })
    } else if step == 34 {
        Some(ClearTarget { register: 0x0920, len: 8, value: 0 })
    } else if step == 35 {
        Some(ClearTarget { register: 0x0928, len: 4, value: 0 })
    } else if step == 36 {
        Some(ClearTarget { register: 0x092c, len: 4, value: 0 })
    } else if step == 37 {
        Some(ClearTarget { register: 0x0981, len: 1, value: 0 })
    } else if step == 38 {
        Some(ClearTarget { register: 0x0990, len: 4, value: 0 })
    } else if step == 39 {
        Some(ClearTarget { register: 0x09a0, len: 4, value: 0 })
    } else if step == 40 {
        Some(ClearTarget { register: 0x09a4, len: 4, value: 0 })
    } else if step == 41 {
        Some(ClearTarget { register: 0x0934, len: 2, value: 0x0c00 })
    } else if step == 42 {
        Some(ClearTarget { register: 0x0930, len: 2, value: 0x1000 })
    } else {
        None
    }
}

#[derive(Clone, Copy, Debug, PartialEq, Eq)]
pub struct Reset {
    /// Number of entries of the clear list that were sent.
    pub step: u8,
    pub device_count: Option<u16>,
}

impl Reset {
    pub fn new() -> (r: Self)
        ensures
            r == (Reset { step: 0, device_count: None }),
    {
        Reset { device_count: None, step: 0 }
    }

    /// Sends the broadcast that counts the sub-devices.
    pub fn start(&self, out: &mut Vec<Request>)
        ensures
            final(out)@ == old(out)@ + one(Pdu::CountSubdevices, None, None),
    {
        send(out, Pdu::CountSubdevices, None, None);
    }

    /// One answer applied to the stage. The answer to the counting broadcast
    /// gives the number of sub-devices in its working counter. That answer,
    /// and every answer to a clear, sends the next entry of the clear list;
    /// when the list is used up the count is returned. Other answers are
    /// passed over.
    pub open spec fn spec_update(self, header: PduHeader, working_counter: u16) -> Step<
        Self,
        Option<u16>,
    > {
        if header.command_code != CMD_BRD && header.command_code != CMD_BWR {
            quiet(self, None)
        } else {
            let count = if header.command_code == CMD_BRD {
                Some(working_counter)
            } else {
                self.device_count
            };
            if self.step < RESET_STEPS {
                Step {
                    next: Reset { step: (self.step + 1) as u8, device_count: count },
                    sent: one(Pdu::ResetStep { step: self.step }, None, None),
                    result: Ok(None),
                }
            } else {
                quiet(Reset { device_count: count, ..self }, count)
            }
        }
    }

    /// Applies one answer; `Some(n)` once the segment is cleared and holds
    /// `n` sub-devices.
    pub fn update(&mut self, header: &PduHeader, working_counter: u16, out: &mut Vec<Request>) -> (r:
        Result<Option<u16>, Error>)
        ensures
            ({
                let step = old(self).spec_update(*header, working_counter);
                &&& *final(self) == step.next
                &&& final(out)@ == old(out)@ + step.sent
                &&& r == step.result
            }),
    {
        proof {
            lemma_sent_nothing(out@);
        }
        if header.command_code == CMD_BRD {
            self.device_count = Some(working_counter);
        } else if header.command_code != CMD_BWR {
            return Ok(None);
        }
        if self.step < RESET_STEPS {
            send(out, Pdu::ResetStep { step: self.step }, None, None);
            self.step = self.step + 1;
            Ok(None)
        } else {
            Ok(self.device_count)
        }
    }
}

} // verus!
