//! The queue of sub-devices, in ring order, with a fixed capacity.

use crate::init::SubdevInitState;
use crate::mbx_config::MailboxConfigState;
use crate::preop::PreOpConfigState;
use crate::state_transition::Transition;
use crate::subdevice::SubDevice;
use vstd::prelude::*;

verus! {

/// Most sub-devices a segment may hold.
pub const MAX_SUBDEVICES: usize = 16;

/// What the current stage is doing for one sub-device.
#[derive(Clone, Copy, Debug)]
pub enum Work {
    /// Nothing is under way.
    Idle,
    /// The device is being identified.
    Init(SubdevInitState),
    /// The device's mailboxes are being set up.
    Mailbox(MailboxConfigState),
    /// The device's process data is being configured.
    PreOp(PreOpConfigState),
    /// A state transition.
    Transition(Transition),
}

/// A sub-device and the work that is under way for it.
#[derive(Clone, Copy, Debug)]
pub struct Slot {
    pub device: SubDevice,
    pub work: Work,
}

/// The sub-devices of the segment in ring order, held in a
/// `heapless::Deque` of capacity [`MAX_SUBDEVICES`].
#[verifier::external_body]
pub struct DeviceQueue {
    inner: heapless::Deque<Slot, MAX_SUBDEVICES>,
}

/// The slots that the queue holds, front first.
pub uninterp spec fn queue_slots(q: DeviceQueue) -> Seq<Slot>;

impl View for DeviceQueue {
    type V = Seq<Slot>;

    open spec fn view(&self) -> Seq<Slot> {
        queue_slots(*self)
    }
}

impl DeviceQueue {
    /// `heapless::Deque::new`: a queue that holds nothing.
    #[verifier::external_body]
    pub(crate) fn new() -> (q: DeviceQueue)
        ensures
            queue_slots(q) == Seq::<Slot>::empty(),
    {
        DeviceQueue { inner: heapless::Deque::new() }
    }

    /// `heapless::Deque::len`: the number of slots held, which never exceeds
    /// the capacity.
    #[verifier::external_body]
    pub(crate) fn len(&self) -> (n: usize)
        ensures
            n == queue_slots(*self).len(),
            n <= MAX_SUBDEVICES,
    {
        self.inner.len()
    }

    /// `heapless::Deque::push_back`: appends the slot at the back unless the
    /// queue is full; a full queue hands the slot back and stays as it is.
    #[verifier::external_body]
    pub(crate) fn push_back(&mut self, slot: Slot) -> (r: Result<(), Slot>)
        ensures
            r is Ok <==> queue_slots(*old(self)).len() < MAX_SUBDEVICES,
            r is Ok ==> queue_slots(*final(self)) == queue_slots(*old(self)).push(slot),
            r is Err ==> r->Err_0 == slot && queue_slots(*final(self)) == queue_slots(*old(self)),
    {
        self.inner.push_back(slot)
    }

    /// `heapless::Deque::get`: the slot at position `i` from the front, if
    /// the queue holds that many.
    #[verifier::external_body]
    pub(crate) fn get(&self, i: usize) -> (r: Option<&Slot>)
        ensures
            i < queue_slots(*self).len() ==> r == Some(&queue_slots(*self)[i as int]),
            i >= queue_slots(*self).len() ==> r is None,
    {
        self.inner.get(i)
    }

    /// `heapless::Deque::get_mut`: the slot at position `i` from the front,
    /// to be changed in place; the other slots stay as they are.
    #[verifier::external_body]
    pub(crate) fn get_mut(&mut self, i: usize) -> (r: Option<&mut Slot>)
        ensures
            i >= queue_slots(*old(self)).len() ==> r is None && queue_slots(*final(self))
                == queue_slots(*old(self)),
            i < queue_slots(*old(self)).len() ==> r is Some && *r->0 == queue_slots(
                *old(self),
            )[i as int] && queue_slots(*final(self)) == queue_slots(*old(self)).update(
                i as int,
                *final(r->0),
            ),
    {
        self.inner.get_mut(i)
    }
}

impl DeviceQueue {
    /// The slot at position `i`, by value.
    pub fn slot(&self, i: usize) -> (r: Option<Slot>)
        ensures
            r == (if i < self@.len() {
                Some(self@[i as int])
            } else {
                None
            }),
    {
        match self.get(i) {
            Some(s) => Some(*s),
            None => None,
        }
    }

    /// Replaces the slot at position `i`; `false`, and no change, where the
    /// queue is shorter.
    pub fn put(&mut self, i: usize, slot: Slot) -> (ok: bool)
        ensures
            ok == (i < old(self)@.len()),
            ok ==> final(self)@ == old(self)@.update(i as int, slot),
            !ok ==> final(self)@ == old(self)@,
    {
        match self.get_mut(i) {
            Some(s) => {
                *s = slot;
                true
            },
            None => false,
        }
    }

    /// Number of sub-devices held.
    pub fn count(&self) -> (n: usize)
        ensures
            n == self@.len(),
            n <= MAX_SUBDEVICES,
    {
        self.len()
    }

    /// The record of the sub-device at position `i`.
    pub fn device(&self, i: usize) -> (r: Option<SubDevice>)
        ensures
            r == (if i < self@.len() {
                Some(self@[i as int].device)
            } else {
                None
            }),
    {
        match self.get(i) {
            Some(s) => Some(s.device),
            None => None,
        }
    }
}

/// The slots with their work replaced by `work`.
pub open spec fn with_work(slots: Seq<Slot>, work: Work) -> Seq<Slot> {
    Seq::new(slots.len(), |i: int| Slot { work, ..slots[i] })
}

impl DeviceQueue {
    /// Gives every slot the work `work`.
    pub fn set_all_work(&mut self, work: Work)
        ensures
            final(self)@ == with_work(old(self)@, work),
    {
        let n = self.count();
        let mut i: usize = 0;
        while i < n
            invariant
                i <= n,
                n == old(self)@.len(),
                self@.len() == n,
                forall|j: int| 0 <= j < i ==> self@[j] == (Slot { work, ..old(self)@[j] }),
                forall|j: int| i <= j < n ==> self@[j] == old(self)@[j],
            decreases n - i,
        {
            let mut slot = self.slot(i).unwrap();
            slot.work = work;
            self.put(i, slot);
            i = i + 1;
        }
        assert(self@ =~= with_work(old(self)@, work));
    }

    /// Takes the slots out of the queue, which is left empty.
    pub fn take(&mut self) -> (q: DeviceQueue)
        ensures
            q@ == old(self)@,
            final(self)@ == Seq::<Slot>::empty(),
    {
        let mut q = DeviceQueue::new();
        std::mem::swap(self, &mut q);
        q
    }
}

} // verus!
