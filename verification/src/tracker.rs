//! The transaction tracker: every submitted PDU is kept until its timeout
//! has been removed, which happens once it is answered or out of retries.

use crate::error::Error;
use crate::io::{TIMEOUT_CLEAR_MASK, TIMEOUT_MASK, WRITE_MASK};
use crate::txbuf::{Received, TxBuf, TxIndex, MAX_FRAME_LEN};
use crate::wire::PduHeader;
use std::collections::BTreeMap;
use vstd::prelude::*;
use vstd::slice::slice_to_vec;

verus! {

/// A submission that the tracker asks for.
#[derive(Clone, Copy, Debug, PartialEq, Eq, Structural)]
pub enum IoOp {
    /// Write the frame of the PDU.
    Write { user_data: u64 },
    /// Arm the PDU's multi-shot timeout.
    Timeout { user_data: u64 },
    /// Remove the timeout that was armed under `target`.
    TimeoutRemove { target: u64, user_data: u64 },
}

/// The removal of the timeout of the PDU `id`.
pub open spec fn removal(id: u64) -> IoOp {
    IoOp::TimeoutRemove { target: id | TIMEOUT_MASK, user_data: id | TIMEOUT_CLEAR_MASK }
}

/// The write of the frame of the PDU `id`.
pub open spec fn write(id: u64) -> IoOp {
    IoOp::Write { user_data: id | WRITE_MASK }
}

/// The answer to a PDU, with the correlation data that the PDU was
/// submitted with.
pub struct Delivery {
    pub header: PduHeader,
    pub payload: Vec<u8>,
    pub working_counter: u16,
    pub identifier: Option<u8>,
    pub index: Option<u16>,
}

/// Most times in a row that a full submission queue is flushed before a
/// submission is given up.
pub const MAX_RESUBMITS: usize = 16;

/// The attempts to place one operation in the submission queue.
#[derive(Clone, Copy, Debug, PartialEq, Eq, Structural)]
pub struct SubmitBurst {
    /// Number of refusals so far.
    pub refused: usize,
}

impl SubmitBurst {
    pub fn new() -> (b: SubmitBurst)
        ensures
            b.refused == 0,
    {
        SubmitBurst { refused: 0 }
    }

    /// What follows an attempt to push the operation. `Ok(true)`: it was
    /// accepted. `Ok(false)`: it was refused; the queue is to be flushed and
    /// the push tried again. After [`MAX_RESUBMITS`] refusals in a row the
    /// submission fails.
    pub fn next(&mut self, accepted: bool) -> (r: Result<bool, Error>)
        ensures
            accepted ==> r == Ok::<bool, Error>(true) && *final(self) == *old(self),
            !accepted && old(self).refused < MAX_RESUBMITS ==> r == Ok::<bool, Error>(false)
                && final(self).refused == old(self).refused + 1,
            !accepted && old(self).refused >= MAX_RESUBMITS ==> r == Err::<bool, Error>(
                Error::IoSubmit,
            ) && *final(self) == *old(self),
    {
        if accepted {
            Ok(true)
        } else if self.refused < MAX_RESUBMITS {
            self.refused = self.refused + 1;
            Ok(false)
        } else {
            Err(Error::IoSubmit)
        }
    }
}

pub struct Tracker {
    pub entries: BTreeMap<u64, TxBuf>,
}

impl View for Tracker {
    type V = Map<u64, TxBuf>;

    open spec fn view(&self) -> Map<u64, TxBuf> {
        self.entries@
    }
}

/// Every entry is filed under its own id and is within its retry budget.
pub open spec fn entries_wf(m: Map<u64, TxBuf>) -> bool {
    forall|k: u64| m.contains_key(k) ==> (#[trigger] m[k]).id == k && m[k].wf()
}

/// A timeout fired: a cancelled firing, a firing for an unknown PDU and a
/// firing while the timeout's removal is under way change nothing; otherwise
/// the frame is written again if a retry is left, and the removal of the
/// timeout is submitted if none is.
pub open spec fn spec_fire(m: Map<u64, TxBuf>, id: u64, cancelled: bool) -> (
    Map<u64, TxBuf>,
    Seq<IoOp>,
) {
    if cancelled || !m.contains_key(id) || m[id].clearing {
        (m, seq![])
    } else if m[id].retries_remaining > 0 {
        (
            m.insert(
                id,
                TxBuf { retries_remaining: (m[id].retries_remaining - 1) as usize, ..m[id] },
            ),
            seq![write(id)],
        )
    } else {
        (m.insert(id, TxBuf { clearing: true, ..m[id] }), seq![removal(id)])
    }
}

/// An answer arrived: for an unknown PDU nothing changes; otherwise the
/// answer is kept with the entry and the removal of the timeout is
/// submitted, unless it is under way already.
pub open spec fn spec_receive(m: Map<u64, TxBuf>, id: u64, answer: Received) -> (
    Map<u64, TxBuf>,
    Seq<IoOp>,
) {
    if !m.contains_key(id) {
        (m, seq![])
    } else {
        (
            m.insert(id, TxBuf { received: Some(answer), clearing: true, ..m[id] }),
            if m[id].clearing {
                seq![]
            } else {
                seq![removal(id)]
            },
        )
    }
}

impl Tracker {
    pub fn new() -> (t: Tracker)
        ensures
            t@ == Map::<u64, TxBuf>::empty(),
            entries_wf(t@),
    {
        Tracker { entries: BTreeMap::new() }
    }

    /// Number of PDUs in flight.
    pub fn len(&self) -> (n: usize)
        ensures
            n == self@.len(),
    {
        self.entries.len()
    }

    /// Whether the PDU `id` is in flight.
    pub fn contains(&self, id: u64) -> (b: bool)
        ensures
            b == self@.contains_key(id),
    {
        self.entries.get(&id).is_some()
    }

    /// Retries left for the PDU `id`.
    pub fn retries_remaining(&self, id: u64) -> (r: Option<usize>)
        ensures
            r == (if self@.contains_key(id) {
                Some(self@[id].retries_remaining)
            } else {
                None
            }),
    {
        match self.entries.get(&id) {
            Some(e) => Some(e.retries_remaining),
            None => None,
        }
    }

    /// Takes a PDU into flight: its frame is kept, its timeout is armed and
    /// its frame is written. A frame that is too long, and a PDU whose id is
    /// in flight already, are refused.
    pub fn submit<I: TxIndex>(
        &mut self,
        frame: &[u8],
        handle: &I,
        retries: usize,
        index: Option<u16>,
        identifier: Option<u8>,
        ops: &mut Vec<IoOp>,
    ) -> (r: Result<u64, Error>)
        ensures
            ({
                let id = handle.spec_idx();
                if frame@.len() > MAX_FRAME_LEN || old(self)@.contains_key(id) {
                    &&& r == Err::<u64, Error>(Error::Capacity)
                    &&& final(self)@ == old(self)@
                    &&& final(ops)@ == old(ops)@
                } else {
                    &&& r == Ok::<u64, Error>(id)
                    &&& final(self)@.dom() == old(self)@.dom().insert(id)
                    &&& forall|k: u64| k != id && old(self)@.contains_key(k) ==> final(self)@[k]
                        == old(self)@[k]
                    &&& final(self)@[id].id == id
                    &&& final(self)@[id].buf@ == frame@
                    &&& final(self)@[id].retries == retries
                    &&& final(self)@[id].retries_remaining == retries
                    &&& final(self)@[id].received is None
                    &&& final(self)@[id].configured_addr == index
                    &&& final(self)@[id].identifier == identifier
                    &&& !final(self)@[id].clearing
                    &&& final(ops)@ == old(ops)@ + seq![
                        IoOp::Timeout { user_data: id | TIMEOUT_MASK },
                        write(id),
                    ]
                }
            }),
            entries_wf(old(self)@) ==> entries_wf(final(self)@),
    {
        let mut entry = TxBuf::new(handle, retries, index, identifier);
        let id = entry.idx();
        if frame.len() > MAX_FRAME_LEN || self.entries.get(&id).is_some() {
            return Err(Error::Capacity);
        }
        let user_data = match entry.update(frame) {
            Ok(u) => u,
            Err(e) => {
                return Err(e);
            },
        };
        ops.push(IoOp::Timeout { user_data: id | TIMEOUT_MASK });
        ops.push(IoOp::Write { user_data });
        self.entries.insert(id, entry);
        proof {
            assert(self@.dom() =~= old(self)@.dom().insert(id));
            assert(ops@ =~= old(ops)@ + seq![
                IoOp::Timeout { user_data: id | TIMEOUT_MASK },
                write(id),
            ]);
        }
        Ok(id)
    }

    /// The write of a frame was accepted: nothing to do.
    pub fn on_write_completion(&self, id: u64) {
    }

    /// The timeout of the PDU `id` fired; see [`spec_fire`].
    pub fn on_timeout_fire(&mut self, id: u64, cancelled: bool, ops: &mut Vec<IoOp>)
        ensures
            final(self)@ == spec_fire(old(self)@, id, cancelled).0,
            final(ops)@ == old(ops)@ + spec_fire(old(self)@, id, cancelled).1,
            entries_wf(old(self)@) ==> entries_wf(final(self)@),
    {
        if cancelled {
            assert(ops@ =~= old(ops)@ + Seq::<IoOp>::empty());
            return ;
        }
        let mut entry = match self.entries.remove(&id) {
            Some(e) => e,
            None => {
                assert(self@ =~= old(self)@);
                assert(ops@ =~= old(ops)@ + Seq::<IoOp>::empty());
                return ;
            },
        };
        if entry.clearing {
            assert(ops@ =~= old(ops)@ + Seq::<IoOp>::empty());
        } else if entry.retries_remaining > 0 {
            entry.retries_remaining = entry.retries_remaining - 1;
            ops.push(IoOp::Write { user_data: id | WRITE_MASK });
            assert(ops@ =~= old(ops)@ + seq![write(id)]);
        } else {
            entry.clearing = true;
            ops.push(
                IoOp::TimeoutRemove { target: id | TIMEOUT_MASK, user_data: id | TIMEOUT_CLEAR_MASK },
            );
            assert(ops@ =~= old(ops)@ + seq![removal(id)]);
        }
        self.entries.insert(id, entry);
        assert(self@ =~= spec_fire(old(self)@, id, cancelled).0);
    }

    /// The answer to a PDU arrived, found at place `slot` of a received
    /// frame. `false` for an answer that no PDU in flight awaits; such an
    /// answer is dropped.
    pub fn on_receive(
        &mut self,
        slot: usize,
        header: PduHeader,
        payload: &[u8],
        working_counter: u16,
        ops: &mut Vec<IoOp>,
    ) -> (known: bool)
        ensures
            ({
                let id = (slot, header).spec_idx();
                &&& known == old(self)@.contains_key(id)
                &&& final(self)@.dom() == old(self)@.dom()
                &&& forall|k: u64| k != id && old(self)@.contains_key(k) ==> final(self)@[k]
                    == old(self)@[k]
                &&& known ==> {
                    &&& final(self)@[id].received matches Some(answer)
                    &&& answer.header == header
                    &&& answer.payload@ == payload@
                    &&& answer.working_counter == working_counter
                    &&& final(self)@ == spec_receive(old(self)@, id, answer).0
                    &&& final(ops)@ == old(ops)@ + spec_receive(old(self)@, id, answer).1
                }
                &&& !known ==> final(self)@ == old(self)@ && final(ops)@ == old(ops)@
            }),
            entries_wf(old(self)@) ==> entries_wf(final(self)@),
    {
        let id = (slot, header).idx();
        let mut entry = match self.entries.remove(&id) {
            Some(e) => e,
            None => {
                assert(self@ =~= old(self)@);
                return false;
            },
        };
        let answer = Received { header, payload: slice_to_vec(payload), working_counter };
        if !entry.clearing {
            ops.push(
                IoOp::TimeoutRemove { target: id | TIMEOUT_MASK, user_data: id | TIMEOUT_CLEAR_MASK },
            );
            assert(ops@ =~= old(ops)@ + seq![removal(id)]);
        } else {
            assert(ops@ =~= old(ops)@ + Seq::<IoOp>::empty());
        }
        entry.received = Some(answer);
        entry.clearing = true;
        self.entries.insert(id, entry);
        proof {
            assert(self@.dom() =~= old(self)@.dom());
            assert(self@ =~= spec_receive(old(self)@, id, self@[id].received->0).0);
        }
        true
    }

    /// The timeout of the PDU `id` was removed: the PDU leaves flight. Its
    /// answer is handed out if it has one; without one it has timed out. For
    /// a PDU that is not in flight nothing happens.
    pub fn on_timeout_clear(&mut self, id: u64) -> (r: Result<Option<Delivery>, Error>)
        ensures
            final(self)@ == old(self)@.remove(id),
            !old(self)@.contains_key(id) ==> r matches Ok(None),
            old(self)@.contains_key(id) && old(self)@[id].received is None ==> (r matches Err(e)
                && e == Error::Timeout),
            old(self)@.contains_key(id) && old(self)@[id].received is Some ==> (r matches Ok(
                Some(delivery),
            ) && delivery.header == old(self)@[id].received->0.header && delivery.payload@
                == old(self)@[id].received->0.payload@ && delivery.working_counter
                == old(self)@[id].received->0.working_counter && delivery.identifier
                == old(self)@[id].identifier && delivery.index == old(self)@[id].configured_addr),
            entries_wf(old(self)@) ==> entries_wf(final(self)@),
    {
        match self.entries.remove(&id) {
            None => Ok(None),
            Some(entry) => match entry.received {
                None => Err(Error::Timeout),
                Some(answer) => Ok(
                    Some(
                        Delivery {
                            header: answer.header,
                            payload: answer.payload,
                            working_counter: answer.working_counter,
                            identifier: entry.identifier,
                            index: entry.configured_addr,
                        },
                    ),
                ),
            },
        }
    }

    /// Gives up the PDU `id`, one of whose submissions the queue refused;
    /// `true` if it was in flight. `armed` says that its timeout was armed
    /// before the refusal: that timeout is then removed, unless the PDU was
    /// not in flight or the removal is under way already.
    pub fn abandon(&mut self, id: u64, armed: bool, ops: &mut Vec<IoOp>) -> (known: bool)
        ensures
            known == old(self)@.contains_key(id),
            final(self)@ == old(self)@.remove(id),
            final(ops)@ == (if armed && old(self)@.contains_key(id) && !old(self)@[id].clearing {
                old(ops)@.push(removal(id))
            } else {
                old(ops)@
            }),
            entries_wf(old(self)@) ==> entries_wf(final(self)@),
    {
        match self.entries.remove(&id) {
            None => false,
            Some(entry) => {
                if armed && !entry.clearing {
                    ops.push(
                        IoOp::TimeoutRemove {
                            target: id | TIMEOUT_MASK,
                            user_data: id | TIMEOUT_CLEAR_MASK,
                        },
                    );
                }
                true
            },
        }
    }

    /// The frame of the PDU `id`, for writing.
    pub fn frame(&self, id: u64) -> (r: Option<&Vec<u8>>)
        ensures
            r == (if self@.contains_key(id) {
                Some(&self@[id].buf)
            } else {
                None
            }),
    {
        match self.entries.get(&id) {
            Some(e) => Some(&e.buf),
            None => None,
        }
    }
}

/// No two PDUs in flight have the same correlation id.
pub proof fn law_unique_ids(m: Map<u64, TxBuf>, a: u64, b: u64)
    requires
        entries_wf(m),
        m.contains_key(a),
        m.contains_key(b),
        m[a].id == m[b].id,
    ensures
        a == b,
{
}

/// Number of removals among `ops`.
pub open spec fn removals(ops: Seq<IoOp>) -> int
    decreases ops.len(),
{
    if ops.len() == 0 {
        0
    } else if ops.last() is TimeoutRemove {
        removals(ops.drop_last()) + 1
    } else {
        removals(ops.drop_last())
    }
}

/// Number of writes among `ops`.
pub open spec fn writes(ops: Seq<IoOp>) -> int
    decreases ops.len(),
{
    if ops.len() == 0 {
        0
    } else if ops.last() is Write {
        writes(ops.drop_last()) + 1
    } else {
        writes(ops.drop_last())
    }
}

/// Every transaction ends with exactly one removal of its timeout. Timeout
/// firings and answers never take a PDU out of flight; they submit the
/// removal of its timeout when the PDU is answered or out of retries, and
/// only if it was not submitted before; once submitted, it stays so.
pub proof fn law_timer_discipline(m: Map<u64, TxBuf>, id: u64, cancelled: bool, answer: Received)
    requires
        m.contains_key(id),
    ensures
        spec_fire(m, id, cancelled).0.dom() == m.dom(),
        spec_receive(m, id, answer).0.dom() == m.dom(),
        removals(spec_fire(m, id, cancelled).1) == (if !m[id].clearing && spec_fire(
            m,
            id,
            cancelled,
        ).0[id].clearing {
            1int
        } else {
            0int
        }),
        removals(spec_receive(m, id, answer).1) == (if m[id].clearing {
            0int
        } else {
            1int
        }),
        m[id].clearing ==> spec_fire(m, id, cancelled).0[id].clearing,
        spec_receive(m, id, answer).0[id].clearing,
        !cancelled && m[id].retries_remaining == 0 ==> spec_fire(m, id, cancelled).0[id].clearing,
{
    let fired = spec_fire(m, id, cancelled);
    let received = spec_receive(m, id, answer);
    assert(fired.0.dom() =~= m.dom());
    assert(received.0.dom() =~= m.dom());
    lemma_count_one(removal(id));
    lemma_count_one(write(id));
    lemma_count_none();
}

/// A frame is written at most once more than the PDU has retries: a timeout
/// firing writes the frame only by using up a retry.
pub proof fn law_retry_bound(m: Map<u64, TxBuf>, id: u64, cancelled: bool)
    requires
        entries_wf(m),
        m.contains_key(id),
    ensures
        1 <= m[id].spec_writes() <= m[id].retries + 1,
        spec_fire(m, id, cancelled).0[id].spec_writes() == m[id].spec_writes() + writes(
            spec_fire(m, id, cancelled).1,
        ),
        spec_fire(m, id, cancelled).0[id].retries == m[id].retries,
        entries_wf(spec_fire(m, id, cancelled).0),
{
    lemma_count_one(removal(id));
    lemma_count_one(write(id));
    lemma_count_none();
}

/// Something that happens to a PDU in flight before its timeout is removed.
pub enum Event {
    /// Its timeout fired.
    Fire { id: u64, cancelled: bool },
    /// An answer arrived.
    Receive { id: u64, answer: Received },
}

impl Event {
    /// The PDU that the event concerns.
    pub open spec fn spec_id(self) -> u64 {
        match self {
            Event::Fire { id, .. } => id,
            Event::Receive { id, .. } => id,
        }
    }

    /// What the event does to the PDUs in flight, and what it submits.
    pub open spec fn spec_apply(self, m: Map<u64, TxBuf>) -> (Map<u64, TxBuf>, Seq<IoOp>) {
        match self {
            Event::Fire { id, cancelled } => spec_fire(m, id, cancelled),
            Event::Receive { id, answer } => spec_receive(m, id, answer),
        }
    }
}

/// A run of events: the PDUs in flight after it, and how many removals and
/// writes the events of the PDU `id` have submitted.
pub open spec fn spec_run(m: Map<u64, TxBuf>, events: Seq<Event>, id: u64) -> (
    Map<u64, TxBuf>,
    int,
    int,
)
    decreases events.len(),
{
    if events.len() == 0 {
        (m, 0, 0)
    } else {
        let before = spec_run(m, events.drop_last(), id);
        let step = events.last().spec_apply(before.0);
        if events.last().spec_id() == id {
            (step.0, before.1 + removals(step.1), before.2 + writes(step.1))
        } else {
            (step.0, before.1, before.2)
        }
    }
}

/// Whatever happens to a PDU in flight, in whatever order and however often:
/// it stays in flight until its timeout is removed; the removal of its
/// timeout is submitted exactly once if it is answered or runs out of
/// retries, and not at all before; and its frame is written again exactly as
/// often as it loses a retry, which is at most as often as it had retries.
pub proof fn law_one_removal_per_transaction(m: Map<u64, TxBuf>, events: Seq<Event>, id: u64)
    requires
        entries_wf(m),
        m.contains_key(id),
    ensures
        ({
            let run = spec_run(m, events, id);
            &&& entries_wf(run.0)
            &&& run.0.dom() == m.dom()
            &&& run.0[id].retries == m[id].retries
            &&& m[id].clearing ==> run.0[id].clearing
            &&& run.1 == (if !m[id].clearing && run.0[id].clearing {
                1int
            } else {
                0int
            })
            &&& run.2 == m[id].retries_remaining - run.0[id].retries_remaining
            &&& 0 <= run.2 <= m[id].retries
        }),
    decreases events.len(),
{
    if events.len() > 0 {
        law_one_removal_per_transaction(m, events.drop_last(), id);
        let before = spec_run(m, events.drop_last(), id);
        let last = events.last();
        let step = last.spec_apply(before.0);
        assert(step.0.dom() =~= before.0.dom());
        lemma_count_one(removal(last.spec_id()));
        lemma_count_one(write(last.spec_id()));
        lemma_count_none();
    }
}

proof fn lemma_count_one(op: IoOp)
    ensures
        removals(seq![op]) == (if op is TimeoutRemove {
            1int
        } else {
            0int
        }),
        writes(seq![op]) == (if op is Write {
            1int
        } else {
            0int
        }),
{
    let one = seq![op];
    assert(one.drop_last() =~= Seq::<IoOp>::empty());
    assert(one.last() == op);
    assert(removals(one.drop_last()) == 0);
    assert(writes(one.drop_last()) == 0);
}

proof fn lemma_count_none()
    ensures
        removals(Seq::<IoOp>::empty()) == 0,
        writes(Seq::<IoOp>::empty()) == 0,
{
}

} // verus!
