//! The distributed-clock stage: latch the port receive times, read them from
//! every clock-capable device, write offsets and delays, and let the
//! reference clock settle over a number of synchronisation frames.

use crate::error::Error;
use crate::queue::{DeviceQueue, Slot};
use crate::request::{failed, lemma_sent_both, lemma_sent_nothing, one, quiet, send, Pdu, Request,
    Step};
use crate::wire::{spec_read_u64, read_u64, PduHeader, CMD_BWR, CMD_FPRD, CMD_FPWR, CMD_FRMW,
    REG_DC_RECEIVE_TIME, REG_DC_SYSTEM_TIME_OFFSET, REG_DC_TIME_PORT0, REG_DC_TRANSMISSION_DELAY};
use vstd::prelude::*;

verus! {

#[derive(Clone, Copy, Debug, PartialEq, Eq, Structural)]
pub enum DcState {
    /// The latch broadcast is on the wire.
    LatchReceive,
    /// The receive times are being read: two reads per capable device.
    LatchTimes { supported_devices: u16, attr_count: u16 },
    /// Offsets and delays are being written: two writes per capable device.
    Configure { master_dc: u16, supported_devices: u16, attr_count: u16 },
    /// Synchronisation frames are sent to the reference clock.
    StaticSync { master_dc: u16, remaining_iterations: u32 },
}

pub struct Dc {
    pub devices: DeviceQueue,
    pub state: DcState,
    /// Station address of the reference clock, once it is chosen.
    pub reference: Option<u16>,
}

/// The stage as a value: its sub-devices in ring order and its progress.
pub struct DcModel {
    pub devices: Seq<Slot>,
    pub state: DcState,
    pub reference: Option<u16>,
}

impl View for Dc {
    type V = DcModel;

    open spec fn view(&self) -> DcModel {
        DcModel { devices: self.devices@, state: self.state, reference: self.reference }
    }
}

/// The two PDUs that concern the clock of one device: the reads of its
/// receive times when `latch` holds, the writes of offset and delay otherwise.
pub open spec fn clock_pair(latch: bool, address: u16, position: int) -> Seq<Request> {
    if latch {
        one(Pdu::ReadDcReceiveTime { address }, Some(position as u16), None) + one(
            Pdu::ReadDcPortTimes { address },
            Some(position as u16),
            None,
        )
    } else {
        one(Pdu::WriteDcSystemTimeOffset { address }, Some(position as u16), None) + one(
            Pdu::WriteDcTransmissionDelay { address },
            Some(position as u16),
            None,
        )
    }
}

/// The clock PDUs for the clock-capable ones of the first `n` devices.
pub open spec fn clock_requests(slots: Seq<Slot>, n: int, latch: bool) -> Seq<Request>
    decreases n,
{
    if n <= 0 {
        seq![]
    } else if slots[n - 1].device.flags.spec_dc_supported() {
        clock_requests(slots, n - 1, latch) + clock_pair(
            latch,
            slots[n - 1].device.configured_address,
            n - 1,
        )
    } else {
        clock_requests(slots, n - 1, latch)
    }
}

/// Number of clock-capable devices among the first `n`.
pub open spec fn supported(slots: Seq<Slot>, n: int) -> int
    decreases n,
{
    if n <= 0 {
        0
    } else if slots[n - 1].device.flags.spec_dc_supported() {
        supported(slots, n - 1) + 1
    } else {
        supported(slots, n - 1)
    }
}

/// Position of the first clock-capable device among those from `from` on.
pub open spec fn first_capable(slots: Seq<Slot>, from: int) -> Option<int>
    decreases slots.len() - from,
{
    if from < 0 || from >= slots.len() {
        None
    } else if slots[from].device.flags.spec_dc_supported() {
        Some(from)
    } else {
        first_capable(slots, from + 1)
    }
}

pub proof fn lemma_supported_bound(slots: Seq<Slot>, n: int)
    ensures
        0 <= supported(slots, n) <= (if n < 0 {
            0
        } else {
            n
        }),
    decreases n,
{
    if n > 0 {
        lemma_supported_bound(slots, n - 1);
    }
}

impl DcModel {
    /// The device at `at` with a receive time or port times stored in its
    /// record, as the register `register` of the answer says.
    pub open spec fn spec_store(self, at: int, register: u16, data: Seq<u8>) -> Result<
        Seq<Slot>,
        Error,
    > {
        let slot = self.devices[at];
        if register == REG_DC_RECEIVE_TIME {
            match spec_read_u64(data, 0) {
                Err(e) => Err(e),
                Ok(t) => Ok(
                    self.devices.update(
                        at,
                        Slot {
                            device: crate::subdevice::SubDevice { dc_receive_time: t, ..slot.device },
                            ..slot
                        },
                    ),
                ),
            }
        } else if register == REG_DC_TIME_PORT0 {
            match slot.device.ports.spec_with_receive_times(data) {
                Err(e) => Err(e),
                Ok(ports) => Ok(
                    self.devices.update(
                        at,
                        Slot { device: crate::subdevice::SubDevice { ports, ..slot.device }, ..slot },
                    ),
                ),
            }
        } else {
            Err(Error::WireCodec)
        }
    }

    /// One answer applied to the stage; `true` when the stage is over.
    ///
    /// - The answer to the latch broadcast sends the two reads for every
    ///   clock-capable device; a segment without one is done at once.
    /// - Each read answer is stored in the record of the device that its
    ///   index names; the last one sends the two writes for every capable
    ///   device and makes the first capable device the reference clock.
    /// - The last write answer records the reference's address and sends the
    ///   first of `iterations` synchronisation frames, or ends the stage where
    ///   none is asked for.
    /// - Each synchronisation answer sends the next frame until `iterations`
    ///   were sent, and then ends the stage.
    ///
    /// An answer of another kind than the one awaited is an error.
    pub open spec fn spec_update(
        self,
        data: Seq<u8>,
        header: PduHeader,
        idx: Option<u16>,
        iterations: u32,
    ) -> Step<DcModel, bool> {
        let len = self.devices.len() as int;
        match self.state {
            DcState::LatchReceive => if header.command_code != CMD_BWR {
                failed(self, Error::WireCodec)
            } else if supported(self.devices, len) == 0 {
                quiet(self, true)
            } else {
                Step {
                    next: DcModel {
                        state: DcState::LatchTimes {
                            supported_devices: supported(self.devices, len) as u16,
                            attr_count: 0,
                        },
                        ..self
                    },
                    sent: clock_requests(self.devices, len, true),
                    result: Ok(false),
                }
            },
            DcState::LatchTimes { supported_devices, attr_count } => if header.command_code
                != CMD_FPRD || idx is None || idx->0 >= len || attr_count == u16::MAX {
                failed(self, Error::WireCodec)
            } else {
                match self.spec_store(idx->0 as int, header.spec_register(), data) {
                    Err(e) => failed(self, e),
                    Ok(devices) => if attr_count + 1 != supported_devices * 2 {
                        quiet(
                            DcModel {
                                devices,
                                state: DcState::LatchTimes {
                                    supported_devices,
                                    attr_count: (attr_count + 1) as u16,
                                },
                                ..self
                            },
                            false,
                        )
                    } else {
                        match first_capable(devices, 0) {
                            None => failed(self, Error::WireCodec),
                            Some(master) => Step {
                                next: DcModel {
                                    devices,
                                    state: DcState::Configure {
                                        master_dc: master as u16,
                                        supported_devices,
                                        attr_count: 0,
                                    },
                                    ..self
                                },
                                sent: clock_requests(devices, len, false),
                                result: Ok(false),
                            },
                        }
                    },
                }
            },
            DcState::Configure { master_dc, supported_devices, attr_count } => if header.command_code
                != CMD_FPWR || (header.spec_register() != REG_DC_SYSTEM_TIME_OFFSET
                && header.spec_register() != REG_DC_TRANSMISSION_DELAY) || attr_count == u16::MAX {
                failed(self, Error::WireCodec)
            } else if attr_count + 1 != supported_devices * 2 {
                quiet(
                    DcModel {
                        state: DcState::Configure {
                            master_dc,
                            supported_devices,
                            attr_count: (attr_count + 1) as u16,
                        },
                        ..self
                    },
                    false,
                )
            } else if master_dc >= len {
                failed(self, Error::WireCodec)
            } else {
                let address = self.devices[master_dc as int].device.configured_address;
                let chosen = DcModel {
                    state: DcState::StaticSync { master_dc, remaining_iterations: iterations },
                    reference: Some(address),
                    ..self
                };
                if iterations == 0 {
                    quiet(chosen, true)
                } else {
                    Step {
                        next: chosen,
                        sent: one(Pdu::DcStaticSync { address }, None, None),
                        result: Ok(false),
                    }
                }
            },
            DcState::StaticSync { master_dc, remaining_iterations } => if header.command_code
                != CMD_FRMW || master_dc >= len {
                failed(self, Error::WireCodec)
            } else if remaining_iterations <= 1 {
                quiet(
                    DcModel {
                        state: DcState::StaticSync { master_dc, remaining_iterations: 0 },
                        ..self
                    },
                    true,
                )
            } else {
                Step {
                    next: DcModel {
                        state: DcState::StaticSync {
                            master_dc,
                            remaining_iterations: (remaining_iterations - 1) as u32,
                        },
                        ..self
                    },
                    sent: one(
                        Pdu::DcStaticSync {
                            address: self.devices[master_dc as int].device.configured_address,
                        },
                        None,
                        None,
                    ),
                    result: Ok(false),
                }
            },
        }
    }
}

/// Sends the clock PDUs for every capable device and counts those devices.
fn send_clock_requests(devices: &DeviceQueue, latch: bool, out: &mut Vec<Request>) -> (count: u16)
    ensures
        final(out)@ == old(out)@ + clock_requests(devices@, devices@.len() as int, latch),
        count == supported(devices@, devices@.len() as int),
{
    let n = devices.count();
    let mut i: usize = 0;
    let mut count: u16 = 0;
    proof {
        lemma_sent_nothing(out@);
    }
    while i < n
        invariant
            i <= n,
            n == devices@.len(),
            n <= 16,
            count == supported(devices@, i as int),
            count <= i,
            out@ == old(out)@ + clock_requests(devices@, i as int, latch),
        decreases n - i,
    {
        let slot = devices.slot(i).unwrap();
        let ghost before = out@;
        if slot.device.flags.dc_supported() {
            let address = slot.device.configured_address;
            if latch {
                send(out, Pdu::ReadDcReceiveTime { address }, Some(i as u16), None);
                send(out, Pdu::ReadDcPortTimes { address }, Some(i as u16), None);
            } else {
                send(out, Pdu::WriteDcSystemTimeOffset { address }, Some(i as u16), None);
                send(out, Pdu::WriteDcTransmissionDelay { address }, Some(i as u16), None);
            }
            count = count + 1;
            proof {
                assert(out@ =~= before + clock_pair(latch, address, i as int));
                lemma_sent_both(
                    old(out)@,
                    clock_requests(devices@, i as int, latch),
                    clock_pair(latch, address, i as int),
                );
            }
        }
        i = i + 1;
    }
    count
}

/// Position of the first clock-capable device.
fn find_first_capable(devices: &DeviceQueue) -> (r: Option<u16>)
    ensures
        match first_capable(devices@, 0) {
            None => r is None,
            Some(at) => r == Some(at as u16) && 0 <= at < devices@.len(),
        },
{
    let n = devices.count();
    let mut i: usize = 0;
    while i < n
        invariant
            i <= n,
            n == devices@.len(),
            n <= 16,
            first_capable(devices@, 0) == first_capable(devices@, i as int),
        decreases n - i,
    {
        let slot = devices.slot(i).unwrap();
        if slot.device.flags.dc_supported() {
            return Some(i as u16);
        }
        i = i + 1;
    }
    None
}

impl Dc {
    pub fn new(devices: DeviceQueue) -> (dc: Dc)
        ensures
            dc@ == (DcModel { devices: devices@, state: DcState::LatchReceive, reference: None }),
    {
        Dc { devices, state: DcState::LatchReceive, reference: None }
    }

    /// Sends the broadcast that latches the receive times.
    pub fn start(&self, out: &mut Vec<Request>)
        ensures
            final(out)@ == old(out)@ + one(Pdu::LatchReceiveTimes, None, None),
    {
        send(out, Pdu::LatchReceiveTimes, None, None);
    }

    /// Station address of the reference clock, once it is chosen.
    pub fn reference(&self) -> (r: Option<u16>)
        ensures
            r == self@.reference,
    {
        self.reference
    }

    /// Applies one answer; `Some(devices)` when the stage is over. The stage
    /// then keeps no devices.
    pub fn update(
        &mut self,
        received: &[u8],
        header: &PduHeader,
        idx: Option<u16>,
        iterations: u32,
        out: &mut Vec<Request>,
    ) -> (r: Result<Option<DeviceQueue>, Error>)
        ensures
            ({
                let step = old(self)@.spec_update(received@, *header, idx, iterations);
                &&& final(out)@ == old(out)@ + step.sent
                &&& match step.result {
                    Err(e) => r matches Err(f) && f == e && final(self)@ == old(self)@,
                    Ok(false) => r matches Ok(None) && final(self)@ == step.next,
                    Ok(true) => r matches Ok(Some(devices)) && devices@ == step.next.devices
                        && final(self)@ == (DcModel { devices: Seq::empty(), ..step.next }),
                }
            }),
    {
        let ghost step = old(self)@.spec_update(received@, *header, idx, iterations);
        proof {
            lemma_sent_nothing(out@);
        }
        let len = self.devices.count();
        let mut done = false;
        match self.state {
            DcState::LatchReceive => {
                if header.command_code != CMD_BWR {
                    return Err(Error::WireCodec);
                }
                let count = send_clock_requests(&self.devices, true, out);
                if count == 0 {
                    proof {
                        assert(clock_requests(self.devices@, len as int, true) =~= Seq::empty()) by {
                            lemma_no_capable_no_requests(self.devices@, len as int, true);
                        }
                    }
                    done = true;
                } else {
                    self.state = DcState::LatchTimes { supported_devices: count, attr_count: 0 };
                }
            },
            DcState::LatchTimes { supported_devices, attr_count } => {
                if header.command_code != CMD_FPRD || attr_count == u16::MAX {
                    return Err(Error::WireCodec);
                }
                let at = match idx {
                    Some(i) => i as usize,
                    None => {
                        return Err(Error::WireCodec);
                    },
                };
                let mut slot = match self.devices.slot(at) {
                    Some(s) => s,
                    None => {
                        return Err(Error::WireCodec);
                    },
                };
                let register = header.register();
                if register == REG_DC_RECEIVE_TIME {
                    slot.device.dc_receive_time = read_u64(received, 0)?;
                } else if register == REG_DC_TIME_PORT0 {
                    slot.device.ports = slot.device.ports.with_receive_times(received)?;
                } else {
                    return Err(Error::WireCodec);
                }
                if attr_count as u32 + 1 != supported_devices as u32 * 2 {
                    self.devices.put(at, slot);
                    self.state = DcState::LatchTimes { supported_devices, attr_count: attr_count + 1 };
                } else {
                    let ghost stored = old(self)@.devices.update(at as int, slot);
                    proof {
                        lemma_first_capable_update(old(self)@.devices, at as int, slot);
                    }
                    let master = match find_first_capable(&self.devices) {
                        Some(m) => m,
                        None => {
                            return Err(Error::WireCodec);
                        },
                    };
                    self.devices.put(at, slot);
                    let _ = send_clock_requests(&self.devices, false, out);
                    self.state = DcState::Configure {
                        master_dc: master,
                        supported_devices,
                        attr_count: 0,
                    };
                }
            },
            DcState::Configure { master_dc, supported_devices, attr_count } => {
                let register = header.register();
                if header.command_code != CMD_FPWR || (register != REG_DC_SYSTEM_TIME_OFFSET
                    && register != REG_DC_TRANSMISSION_DELAY) || attr_count == u16::MAX {
                    return Err(Error::WireCodec);
                }
                if attr_count as u32 + 1 != supported_devices as u32 * 2 {
                    self.state = DcState::Configure {
                        master_dc,
                        supported_devices,
                        attr_count: attr_count + 1,
                    };
                } else {
                    let master = match self.devices.device(master_dc as usize) {
                        Some(d) => d,
                        None => {
                            return Err(Error::WireCodec);
                        },
                    };
                    let address = master.configured_address;
                    self.reference = Some(address);
                    self.state = DcState::StaticSync { master_dc, remaining_iterations: iterations };
                    if iterations == 0 {
                        done = true;
                    } else {
                        send(out, Pdu::DcStaticSync { address }, None, None);
                    }
                }
            },
            DcState::StaticSync { master_dc, remaining_iterations } => {
                if header.command_code != CMD_FRMW {
                    return Err(Error::WireCodec);
                }
                let master = match self.devices.device(master_dc as usize) {
                    Some(d) => d,
                    None => {
                        return Err(Error::WireCodec);
                    },
                };
                if remaining_iterations <= 1 {
                    self.state = DcState::StaticSync { master_dc, remaining_iterations: 0 };
                    done = true;
                } else {
                    self.state = DcState::StaticSync {
                        master_dc,
                        remaining_iterations: remaining_iterations - 1,
                    };
                    send(out, Pdu::DcStaticSync { address: master.configured_address }, None, None);
                }
            },
        }
        if done {
            let mut devices = DeviceQueue::new();
            std::mem::swap(&mut self.devices, &mut devices);
            Ok(Some(devices))
        } else {
            Ok(None)
        }
    }
}

/// Where no device is clock-capable, no clock PDU is sent.
pub proof fn lemma_no_capable_no_requests(slots: Seq<Slot>, n: int, latch: bool)
    requires
        supported(slots, n) == 0,
    ensures
        clock_requests(slots, n, latch) == Seq::<Request>::empty(),
    decreases n,
{
    if n > 0 {
        lemma_supported_bound(slots, n - 1);
        lemma_no_capable_no_requests(slots, n - 1, latch);
    }
}

/// Storing receive times in a record does not change which device is the
/// first clock-capable one.
pub proof fn lemma_first_capable_update(slots: Seq<Slot>, at: int, slot: Slot)
    requires
        0 <= at < slots.len(),
        slot.device.flags == slots[at].device.flags,
    ensures
        forall|from: int| first_capable(slots.update(at, slot), from) == first_capable(slots, from),
{
    assert forall|from: int| first_capable(slots.update(at, slot), from) == first_capable(
        slots,
        from,
    ) by {
        lemma_first_capable_update_from(slots, at, slot, from);
    }
}

proof fn lemma_first_capable_update_from(slots: Seq<Slot>, at: int, slot: Slot, from: int)
    requires
        0 <= at < slots.len(),
        slot.device.flags == slots[at].device.flags,
    ensures
        first_capable(slots.update(at, slot), from) == first_capable(slots, from),
    decreases slots.len() - from,
{
    if 0 <= from < slots.len() {
        lemma_first_capable_update_from(slots, at, slot, from + 1);
    }
}

} // verus!
