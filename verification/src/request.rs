//! The PDUs a controller asks to have sent. A controller never builds a
//! frame: it names the PDU, the sub-device it concerns and its role, and the
//! caller encodes and submits it.

use crate::error::{Error, SubDeviceState};
use crate::wire::{Fmmu, SyncManager};
use vstd::prelude::*;

verus! {

/// Who owns a sub-device's EEPROM interface.
#[derive(Clone, Copy, Debug, PartialEq, Eq, Structural)]
pub enum SiiOwner {
    Master,
    Pdi,
}

/// Sub-index of an SDO access.
#[derive(Clone, Copy, Debug, PartialEq, Eq, Structural)]
pub enum SubIndex {
    /// The whole object, by complete access.
    Complete,
    Index(u8),
}

impl SubIndex {
    pub open spec fn spec_sub_index(self) -> u8 {
        match self {
            SubIndex::Complete => 1,
            SubIndex::Index(i) => i,
        }
    }

    /// The sub-index byte that goes on the wire.
    pub fn sub_index(&self) -> (r: u8)
        ensures
            r == self.spec_sub_index(),
    {
        match self {
            SubIndex::Complete => 1,
            SubIndex::Index(i) => *i,
        }
    }
}

/// A CoE SDO service request.
#[derive(Clone, Copy, Debug, PartialEq, Eq)]
pub struct CoeRequest {
    /// `true` for an expedited download, `false` for an upload.
    pub download: bool,
    /// The mailbox counter that tags the service.
    pub counter: u8,
    pub index: u16,
    pub sub_index: SubIndex,
    /// Payload of a download, little-endian, zero-padded.
    pub data: [u8; 4],
    /// Number of payload bytes of a download.
    pub len: u8,
}

/// One PDU to send.
#[allow(inconsistent_fields)]
#[derive(Clone, Copy, Debug, PartialEq, Eq)]
pub enum Pdu {
    /// Broadcast read whose working counter counts the sub-devices.
    CountSubdevices,
    /// Entry `step` of the list of broadcast register clears.
    ResetStep { step: u8 },
    /// Gives the sub-device at ring position `position` its station address.
    ConfigureAddress { position: u16, address: u16 },
    /// Broadcast read of the AL status of all sub-devices.
    WaitForState { state: SubDeviceState },
    ClearEeprom { address: u16 },
    SetEeprom { address: u16, owner: SiiOwner },
    /// Read of one of the identity registers of a sub-device.
    ReadRegister { address: u16, register: u16 },
    /// Tells the EEPROM interface to read at word `start`.
    ReadEepromChunk { address: u16, start: u16 },
    /// Polls the EEPROM interface's control word.
    WaitForEepromChunk { address: u16 },
    /// Fetches the `len` bytes that the EEPROM interface holds ready.
    ReadEepromData { address: u16, len: u8 },
    /// Broadcast write that latches the port receive times.
    LatchReceiveTimes,
    ReadDcReceiveTime { address: u16 },
    ReadDcPortTimes { address: u16 },
    WriteDcSystemTimeOffset { address: u16 },
    WriteDcTransmissionDelay { address: u16 },
    /// One static synchronisation frame to the reference clock.
    DcStaticSync { address: u16 },
    /// Read of the status byte of a mailbox sync manager.
    MailboxStatus { address: u16, sync_manager: u8 },
    /// Read of `len` bytes of device memory at `start`.
    Read { address: u16, start: u16, len: u16 },
    /// Write of a CoE service into the mailbox at `start`.
    WriteMailbox { address: u16, start: u16, len: u16, service: CoeRequest },
    /// Programs sync-manager channel `index` from an EEPROM record.
    WriteSmConfig { address: u16, index: u8, sync_manager: SyncManager, length: u16 },
    ReadFmmu { address: u16, index: u8 },
    WriteFmmu { address: u16, index: u8, fmmu: Fmmu },
    RequestState { address: u16, state: SubDeviceState },
    WaitState { address: u16, state: SubDeviceState },
    /// The cyclic logical read-write over the whole process image.
    RxTx,
}

/// A PDU together with the correlation data that comes back with its answer.
#[derive(Clone, Copy, Debug, PartialEq, Eq)]
pub struct Request {
    pub pdu: Pdu,
    /// Topology index of the sub-device concerned.
    pub index: Option<u16>,
    /// Role tag, chosen by the controller that sends.
    pub identifier: Option<u8>,
}

/// What one call of a controller amounts to: the state it leaves, the
/// requests it appends to the outbox, and what it returns.
pub struct Step<S, T> {
    pub next: S,
    pub sent: Seq<Request>,
    pub result: Result<T, Error>,
}

/// The step that fails with `e`: nothing changes and nothing is sent.
pub open spec fn failed<S, T>(state: S, e: Error) -> Step<S, T> {
    Step { next: state, sent: seq![], result: Err(e) }
}

/// The step that sends nothing.
pub open spec fn quiet<S, T>(next: S, value: T) -> Step<S, T> {
    Step { next, sent: seq![], result: Ok(value) }
}

/// One request as the sequence that a step sends.
pub open spec fn one(pdu: Pdu, index: Option<u16>, identifier: Option<u8>) -> Seq<Request> {
    seq![Request { pdu, index, identifier }]
}

/// Nothing was appended to the outbox.
pub proof fn lemma_sent_nothing(before: Seq<Request>)
    ensures
        before == before + Seq::<Request>::empty(),
{
    assert(before =~= before + Seq::<Request>::empty());
}

/// Appending in two parts is appending the whole.
pub proof fn lemma_sent_both(before: Seq<Request>, first: Seq<Request>, second: Seq<Request>)
    ensures
        (before + first) + second == before + (first + second),
{
    assert((before + first) + second =~= before + (first + second));
}

/// Appends one request to the outbox.
pub fn send(out: &mut Vec<Request>, pdu: Pdu, index: Option<u16>, identifier: Option<u8>)
    ensures
        final(out)@ == old(out)@.push(Request { pdu, index, identifier }),
        final(out)@ == old(out)@ + one(pdu, index, identifier),
{
    assert(old(out)@.push(Request { pdu, index, identifier }) =~= old(out)@ + one(
        pdu,
        index,
        identifier,
    ));
    out.push(Request { pdu, index, identifier });
}

} // verus!
