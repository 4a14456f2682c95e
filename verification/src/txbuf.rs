//! One PDU in flight: its frame, its retry budget and, once it is answered,
//! the answer.

use crate::error::Error;
use crate::io::WRITE_MASK;
use crate::wire::PduHeader;
use vstd::prelude::*;
use vstd::slice::slice_to_vec;

verus! {

/// Most bytes a frame can have.
pub const MAX_FRAME_LEN: usize = 1024;

/// What identifies a sent PDU: its index, its place in the frame and its
/// command code.
#[derive(Clone, Copy, Debug, PartialEq, Eq, Structural)]
pub struct PduResponseHandle {
    pub pdu_idx: u8,
    pub index_in_frame: u8,
    pub command_code: u8,
}

/// Something that a correlation id can be computed from.
pub trait TxIndex {
    spec fn spec_idx(&self) -> u64;

    /// The correlation id: `pdu_idx | in_frame_slot << 8 | command_code << 16`.
    fn idx(&self) -> (id: u64)
        ensures
            id == self.spec_idx(),
    ;
}

impl TxIndex for PduResponseHandle {
    open spec fn spec_idx(&self) -> u64 {
        (self.pdu_idx as u64) | ((self.index_in_frame as u64) << 8) | ((self.command_code as u64)
            << 16)
    }

    fn idx(&self) -> (id: u64) {
        (self.pdu_idx as u64) | ((self.index_in_frame as u64) << 8) | ((self.command_code as u64)
            << 16)
    }
}

impl TxIndex for (usize, PduHeader) {
    open spec fn spec_idx(&self) -> u64 {
        (self.1.index as u64) | ((self.0 as u64) << 8) | ((self.1.command_code as u64) << 16)
    }

    fn idx(&self) -> (id: u64) {
        (self.1.index as u64) | ((self.0 as u64) << 8) | ((self.1.command_code as u64) << 16)
    }
}

/// The id of a sent PDU fits in 24 bits, and the answer to it, found at the
/// same place of the received frame, has the same id.
pub proof fn law_answer_has_same_id(handle: PduResponseHandle, header: PduHeader)
    requires
        header.index == handle.pdu_idx,
        header.command_code == handle.command_code,
    ensures
        handle.spec_idx() <= 0xff_ffff,
        (handle.index_in_frame as usize, header).spec_idx() == handle.spec_idx(),
{
    let a = handle.pdu_idx;
    let b = handle.index_in_frame;
    let c = handle.command_code;
    assert((a as u64) | ((b as u64) << 8) | ((c as u64) << 16) <= 0xff_ffff) by (bit_vector);
}

/// The answer to a PDU.
pub struct Received {
    pub header: PduHeader,
    pub payload: Vec<u8>,
    pub working_counter: u16,
}

/// One PDU in flight.
pub struct TxBuf {
    /// The serialised frame, for retransmission.
    pub buf: Vec<u8>,
    pub id: u64,
    /// The retry budget that the PDU began with.
    pub retries: usize,
    pub retries_remaining: usize,
    pub received: Option<Received>,
    /// Topology index of the sub-device concerned.
    pub configured_addr: Option<u16>,
    pub identifier: Option<u8>,
    /// The removal of the PDU's timeout was submitted.
    pub clearing: bool,
}

impl TxBuf {
    /// An entry has not retried more often than its budget allows.
    pub open spec fn wf(self) -> bool {
        self.retries_remaining <= self.retries && self.buf@.len() <= MAX_FRAME_LEN
    }

    /// Number of times the frame was submitted for writing.
    pub open spec fn spec_writes(self) -> int {
        self.retries + 1 - self.retries_remaining
    }

    pub fn new<I: TxIndex>(
        idx: &I,
        retries: usize,
        configured_addr: Option<u16>,
        identifier: Option<u8>,
    ) -> (t: TxBuf)
        ensures
            t.id == idx.spec_idx(),
            t.buf@ == Seq::<u8>::empty(),
            t.retries == retries,
            t.retries_remaining == retries,
            t.received is None,
            t.configured_addr == configured_addr,
            t.identifier == identifier,
            !t.clearing,
            t.wf(),
    {
        TxBuf {
            id: idx.idx(),
            buf: Vec::new(),
            retries,
            retries_remaining: retries,
            received: None,
            configured_addr,
            identifier,
            clearing: false,
        }
    }

    /// Stores the frame for retransmission and gives the user data of its
    /// write. A frame of more than [`MAX_FRAME_LEN`] bytes is refused.
    pub fn update(&mut self, bytes: &[u8]) -> (r: Result<u64, Error>)
        ensures
            bytes@.len() > MAX_FRAME_LEN ==> r == Err::<u64, Error>(Error::Capacity)
                && *final(self) == *old(self),
            bytes@.len() <= MAX_FRAME_LEN ==> r == Ok::<u64, Error>(old(self).id | WRITE_MASK)
                && final(self).buf@ == bytes@ && *final(self) == (TxBuf {
                buf: final(self).buf,
                ..*old(self)
            }),
    {
        if bytes.len() > MAX_FRAME_LEN {
            return Err(Error::Capacity);
        }
        self.buf = slice_to_vec(bytes);
        Ok(self.id | WRITE_MASK)
    }

    pub fn idx(&self) -> (id: u64)
        ensures
            id == self.id,
    {
        self.id
    }
}

} // verus!
