//! The cyclic operation: the process image is exchanged with the segment in
//! one logical read-write PDU per cycle, and every device's user logic sees
//! its inputs and fills its outputs.

use crate::error::Error;
use crate::preop::SendRecvIo;
use crate::queue::{DeviceQueue, Slot};
use crate::request::{send, Pdu, Request};
use crate::subdevice::{PdiSegment, SubDevice};
use crate::user::{ControlFlow, DeviceResponse, UserDevice};
use crate::wire::{PduHeader, CMD_LRW};
use vstd::prelude::*;
use vstd::slice::slice_subrange;

verus! {

/// The process image and where its inputs end.
pub struct SendCtx {
    pub send_bytes: Vec<u8>,
    pub input_offset: usize,
}

impl SendCtx {
    /// A zeroed process image of the size that the layout asks for.
    pub fn new(io: SendRecvIo) -> (ctx: SendCtx)
        ensures
            ctx.input_offset == io.spec_input_end(),
            ctx.send_bytes@ == Seq::new(io.spec_output_end() as nat, |i: int| 0u8),
    {
        let input_len = io.input_len();
        let total = input_len + io.output_len();
        let mut send_bytes: Vec<u8> = Vec::new();
        let mut i: usize = 0;
        while i < total
            invariant
                i <= total,
                send_bytes@ == Seq::new(i as nat, |j: int| 0u8),
            decreases total - i,
        {
            send_bytes.push(0);
            i = i + 1;
            assert(send_bytes@ =~= Seq::new(i as nat, |j: int| 0u8));
        }
        SendCtx { send_bytes, input_offset: input_len }
    }
}

/// Of two control flows the first one that asks for something.
pub open spec fn spec_merge_flow(first: Option<ControlFlow>, next: Option<ControlFlow>) -> Option<
    ControlFlow,
> {
    if first is Some {
        first
    } else {
        next
    }
}

pub fn merge_flow(first: Option<ControlFlow>, next: Option<ControlFlow>) -> (r: Option<ControlFlow>)
    ensures
        r == spec_merge_flow(first, next),
{
    match first {
        Some(_) => first,
        None => next,
    }
}

/// Whether a segment lies within an image of `len` bytes.
pub open spec fn fits(segment: PdiSegment, len: int) -> bool {
    segment.start <= segment.end <= len
}

/// The bytes of `segment` in `pdi`.
pub open spec fn spec_segment_bytes(pdi: Seq<u8>, segment: PdiSegment) -> Seq<u8> {
    pdi.subrange(segment.start as int, segment.end as int)
}

/// A copy of the bytes of `segment`; a segment that does not lie within the
/// image is refused.
pub fn segment_bytes(pdi: &Vec<u8>, segment: PdiSegment) -> (r: Result<Vec<u8>, Error>)
    ensures
        fits(segment, pdi@.len() as int) ==> (r matches Ok(bytes) && bytes@ == spec_segment_bytes(
            pdi@,
            segment,
        )),
        !fits(segment, pdi@.len() as int) ==> (r matches Err(e) && e == Error::Capacity),
{
    if segment.start > segment.end || segment.end as usize > pdi.len() {
        return Err(Error::Capacity);
    }
    let mut bytes: Vec<u8> = Vec::new();
    let mut i: usize = segment.start as usize;
    let end: usize = segment.end as usize;
    while i < end
        invariant
            segment.start <= i <= end,
            end == segment.end,
            end <= pdi@.len(),
            bytes@ == pdi@.subrange(segment.start as int, i as int),
        decreases end - i,
    {
        bytes.push(pdi[i]);
        i = i + 1;
        assert(bytes@ =~= pdi@.subrange(segment.start as int, i as int));
    }
    Ok(bytes)
}

/// The image with `bytes` written over `segment`.
pub open spec fn spec_store(pdi: Seq<u8>, segment: PdiSegment, bytes: Seq<u8>) -> Seq<u8> {
    Seq::new(
        pdi.len(),
        |i: int|
            if segment.start <= i < segment.end {
                bytes[i - segment.start]
            } else {
                pdi[i]
            },
    )
}

/// Writes what a device left in its output bytes back into the image. A
/// segment outside the image is refused, and so are output bytes whose number
/// has changed; the image is then left as it was.
pub fn store_outputs(pdi: &mut Vec<u8>, segment: PdiSegment, bytes: &Vec<u8>) -> (r: Result<
    (),
    Error,
>)
    ensures
        !fits(segment, old(pdi)@.len() as int) ==> r == Err::<(), Error>(Error::Capacity)
            && final(pdi)@ == old(pdi)@,
        fits(segment, old(pdi)@.len() as int) && bytes@.len() != segment.spec_len() ==> r == Err::<
            (),
            Error,
        >(Error::UserAbort) && final(pdi)@ == old(pdi)@,
        fits(segment, old(pdi)@.len() as int) && bytes@.len() == segment.spec_len() ==> r is Ok
            && final(pdi)@ == spec_store(old(pdi)@, segment, bytes@),
{
    if segment.start > segment.end || segment.end as usize > pdi.len() {
        return Err(Error::Capacity);
    }
    let start: usize = segment.start as usize;
    let count: usize = segment.end as usize - start;
    if bytes.len() != count {
        return Err(Error::UserAbort);
    }
    let mut i: usize = 0;
    while i < count
        invariant
            i <= count,
            count == bytes@.len(),
            start == segment.start,
            start + count == segment.end,
            segment.end <= pdi@.len(),
            pdi@.len() == old(pdi)@.len(),
            forall|j: int| 0 <= j < pdi@.len() ==> pdi@[j] == (if start <= j < start + i {
                bytes@[j - start]
            } else {
                old(pdi)@[j]
            }),
        decreases count - i,
    {
        pdi.set(start + i, bytes[i]);
        i = i + 1;
    }
    assert(pdi@ =~= spec_store(old(pdi)@, segment, bytes@));
    Ok(())
}

/// What a device is called for.
#[derive(Clone, Copy)]
pub enum Occasion<'a> {
    /// The beginning of the cyclic exchange.
    Start,
    /// A cycle: the process image has just arrived.
    Cycle,
    /// An answer to a PDU that was sent for the device.
    Answer(&'a [u8], PduHeader),
}

/// Calls the user logic for one device and writes its outputs back. An
/// image that does not hold the device's segments is refused, and only such
/// an image is refused for want of room; a failure of the user logic, and
/// output bytes whose number it changed, abort. On success the image differs
/// from what it was within the device's output segment only, and what the
/// user logic asked to send is appended to `out`.
pub fn call_device<U: UserDevice>(
    user: &mut U,
    device: &SubDevice,
    index: u16,
    identifier: Option<u8>,
    occasion: Occasion<'_>,
    pdi: &mut Vec<u8>,
    out: &mut Vec<Request>,
) -> (r: Result<Option<ControlFlow>, Error>)
    ensures
        final(pdi)@.len() == old(pdi)@.len(),
        forall|k: int|
            0 <= k < old(pdi)@.len() && !(device.config.io.output.start <= k
                < device.config.io.output.end) ==> final(pdi)@[k] == old(pdi)@[k],
        old(out)@.len() <= final(out)@.len(),
        final(out)@.subrange(0, old(out)@.len() as int) == old(out)@,
        r is Err ==> final(pdi)@ == old(pdi)@ && final(out)@ == old(out)@,
        !fits(device.config.io.output, old(pdi)@.len() as int) ==> r == Err::<
            Option<ControlFlow>,
            Error,
        >(Error::Capacity),
        (occasion is Cycle && fits(device.config.io.output, old(pdi)@.len() as int) && !fits(
            device.config.io.input,
            old(pdi)@.len() as int,
        )) ==> r == Err::<Option<ControlFlow>, Error>(Error::Capacity),
        r matches Err(e) ==> e == Error::Capacity || e == Error::UserAbort,
        r == Err::<Option<ControlFlow>, Error>(Error::Capacity) ==> !callable(
            *device,
            old(pdi)@.len() as int,
            occasion is Cycle,
        ),
{
    let mut outputs = match segment_bytes(pdi, device.config.io.output) {
        Ok(bytes) => bytes,
        Err(e) => {
            assert(out@.subrange(0, out@.len() as int) =~= out@);
            return Err(e);
        },
    };
    let mut asked: Vec<Request> = Vec::new();
    let input = device.config.io.input;
    let answer = match occasion {
        Occasion::Start => user.update(device, None, index, identifier, &mut outputs, &mut asked),
        Occasion::Cycle => {
            if input.start > input.end || input.end as usize > pdi.len() {
                assert(out@.subrange(0, out@.len() as int) =~= out@);
                return Err(Error::Capacity);
            }
            let inputs = slice_subrange(pdi.as_slice(), input.start as usize, input.end as usize);
            user.update(
                device,
                Some(DeviceResponse::Pdi(inputs)),
                index,
                identifier,
                &mut outputs,
                &mut asked,
            )
        },
        Occasion::Answer(payload, header) => user.update(
            device,
            Some(DeviceResponse::Pdu(payload, header)),
            index,
            identifier,
            &mut outputs,
            &mut asked,
        ),
    };
    let flow = match answer {
        Ok(flow) => flow,
        Err(_) => {
            assert(out@.subrange(0, out@.len() as int) =~= out@);
            return Err(Error::UserAbort);
        },
    };
    match store_outputs(pdi, device.config.io.output, &outputs) {
        Ok(()) => {},
        Err(e) => {
            assert(out@.subrange(0, out@.len() as int) =~= out@);
            return Err(e);
        },
    }
    out.append(&mut asked);
    assert(out@.subrange(0, old(out)@.len() as int) =~= old(out)@);
    Ok(flow)
}

/// Whether an image of `len` bytes holds what a call of the device needs:
/// its outputs, and on a cycle its inputs too.
pub open spec fn callable(device: SubDevice, len: int, cycle: bool) -> bool {
    fits(device.config.io.output, len) && (cycle ==> fits(device.config.io.input, len))
}

/// Whether the image holds what the calls of the first `n` devices need.
pub open spec fn all_callable(slots: Seq<Slot>, n: int, len: int, cycle: bool) -> bool {
    forall|i: int| 0 <= i < n ==> callable((#[trigger] slots[i]).device, len, cycle)
}

/// Whether the device at `at` is the first whose segments the image does not
/// hold.
pub open spec fn stops_at(slots: Seq<Slot>, at: int, len: int, cycle: bool) -> bool {
    &&& 0 <= at < slots.len()
    &&& !callable(slots[at].device, len, cycle)
    &&& all_callable(slots, at, len, cycle)
}

/// Whether `after` is `before` but for the outputs of the first `n` devices.
pub open spec fn untouched_before(before: Seq<u8>, after: Seq<u8>, slots: Seq<Slot>, n: int) -> bool {
    &&& after.len() == before.len()
    &&& forall|k: int| 0 <= k < before.len() && !is_output(slots, n, k) ==> after[k] == before[k]
}

/// The cyclic PDU.
pub open spec fn cyclic_request() -> Request {
    Request { pdu: Pdu::RxTx, index: None, identifier: None }
}

/// Whether byte `k` of the image belongs to the outputs of one of the first
/// `n` devices.
pub open spec fn is_output(slots: Seq<Slot>, n: int, k: int) -> bool {
    exists|i: int|
        0 <= i < n && (#[trigger] slots[i]).device.config.io.output.start <= k
            < slots[i].device.config.io.output.end
}

/// The error of a result, if it is one.
pub open spec fn failure_of<T>(r: Result<T, Error>) -> Option<Error> {
    match r {
        Ok(_) => None,
        Err(e) => Some(e),
    }
}

/// What the calls of all devices leave behind, at the start (`cycle` is
/// false) or on a cycle, on an image that was `image` before the calls:
///
/// - the image keeps its size and differs from `image` within the devices'
///   output segments only, and what was sent before stays in front;
/// - without devices the calls succeed, the image is `image`, and the cyclic
///   PDU alone is sent;
/// - after a success the image holds the segments of every device and the
///   cyclic PDU is the last one sent;
/// - where the calls fail for want of room, they do so at the first device
///   whose segments the image does not hold, and only the outputs of the
///   devices before it can have changed; if the first device is such a one,
///   they fail so, nothing has changed and nothing was sent;
/// - any other failure is the user logic's.
pub open spec fn called_all(
    slots: Seq<Slot>,
    cycle: bool,
    image: Seq<u8>,
    image_after: Seq<u8>,
    before: Seq<Request>,
    sent: Seq<Request>,
    failure: Option<Error>,
) -> bool {
    let len = image.len() as int;
    &&& untouched_before(image, image_after, slots, slots.len() as int)
    &&& before.len() <= sent.len()
    &&& sent.subrange(0, before.len() as int) == before
    &&& slots.len() == 0 ==> failure is None && image_after == image && sent == before.push(
        cyclic_request(),
    )
    &&& failure is None ==> all_callable(slots, slots.len() as int, len, cycle) && sent.len()
        > before.len() && sent.last() == cyclic_request()
    &&& failure matches Some(e) ==> e == Error::Capacity || e == Error::UserAbort
    &&& failure == Some(Error::Capacity) ==> exists|j: int|
        #[trigger] stops_at(slots, j, len, cycle) && untouched_before(image, image_after, slots, j)
    &&& slots.len() > 0 && !callable(slots[0].device, len, cycle) ==> failure == Some(
        Error::Capacity,
    ) && image_after == image && sent == before
}

/// What an answer that is not the cyclic one leaves behind: it goes to the
/// device that `idx` names, and without such a device it is malformed and
/// nothing changes.
///
/// - The image keeps its size and differs from what it was within that
///   device's output segment only; what was sent before stays in front.
/// - The call fails for want of room exactly where the image does not hold
///   the device's output segment; any other failure is the user logic's.
///   After a failure nothing has changed and nothing was sent.
pub open spec fn called_one(
    slots: Seq<Slot>,
    idx: Option<u16>,
    image: Seq<u8>,
    image_after: Seq<u8>,
    before: Seq<Request>,
    sent: Seq<Request>,
    failure: Option<Error>,
) -> bool {
    if idx is None || idx->0 >= slots.len() {
        failure == Some(Error::WireCodec) && image_after == image && sent == before
    } else {
        let device = slots[idx->0 as int].device;
        let output = device.config.io.output;
        &&& image_after.len() == image.len()
        &&& forall|k: int|
            0 <= k < image.len() && !(output.start <= k < output.end) ==> image_after[k] == image[k]
        &&& before.len() <= sent.len()
        &&& sent.subrange(0, before.len() as int) == before
        &&& failure is Some ==> image_after == image && sent == before
        &&& failure matches Some(e) ==> e == Error::Capacity || e == Error::UserAbort
        &&& failure == Some(Error::Capacity) <==> !callable(device, image.len() as int, false)
    }
}

/// What an answer leaves behind in the cyclic operation. The answer to the
/// cyclic PDU must be as long as the image, else it is malformed and nothing
/// changes; it becomes the image, and every device is called on it. Any
/// other answer goes to the device that `idx` names. Without devices no
/// control flow is asked for.
pub open spec fn answered(
    slots: Seq<Slot>,
    received: Seq<u8>,
    header: PduHeader,
    idx: Option<u16>,
    image: Seq<u8>,
    image_after: Seq<u8>,
    before: Seq<Request>,
    sent: Seq<Request>,
    r: Result<Option<ControlFlow>, Error>,
) -> bool {
    if header.command_code == CMD_LRW {
        if received.len() != image.len() {
            r == Err::<Option<ControlFlow>, Error>(Error::WireCodec) && image_after == image && sent
                == before
        } else {
            &&& called_all(slots, true, received, image_after, before, sent, failure_of(r))
            &&& slots.len() == 0 ==> r == Ok::<Option<ControlFlow>, Error>(None)
        }
    } else {
        called_one(slots, idx, image, image_after, before, sent, failure_of(r))
    }
}

pub struct Op {
    pub devices: DeviceQueue,
}

impl View for Op {
    type V = Seq<Slot>;

    open spec fn view(&self) -> Seq<Slot> {
        self.devices@
    }
}

impl Op {
    /// Calls every device, in ring order, at the start or on a cycle; the
    /// result is the first control flow that a device asked for.
    ///
    /// Without devices nothing happens and nothing is asked for. The calls
    /// succeed only where the image holds the segments of every device. They
    /// stop for want of room at the first device whose segments the image
    /// does not hold: by then only the outputs of the devices before it can
    /// have changed, and if it is the first device nothing has changed at
    /// all. What the user logic answers decides the rest.
    fn call_all<U: UserDevice>(
        &self,
        user: &mut U,
        cycle: bool,
        pdi: &mut Vec<u8>,
        out: &mut Vec<Request>,
    ) -> (r: Result<Option<ControlFlow>, Error>)
        ensures
            final(pdi)@.len() == old(pdi)@.len(),
            forall|k: int|
                0 <= k < old(pdi)@.len() && !is_output(self@, self@.len() as int, k) ==> final(pdi)@[k] == old(pdi)@[k],
            old(out)@.len() <= final(out)@.len(),
            final(out)@.subrange(0, old(out)@.len() as int) == old(out)@,
            r matches Err(e) ==> e == Error::Capacity || e == Error::UserAbort,
            self@.len() == 0 ==> r == Ok::<Option<ControlFlow>, Error>(None) && final(pdi)@
                == old(pdi)@ && final(out)@ == old(out)@,
            r is Ok ==> all_callable(self@, self@.len() as int, old(pdi)@.len() as int, cycle),
            r == Err::<Option<ControlFlow>, Error>(Error::Capacity) ==> exists|j: int|
                #[trigger] stops_at(self@, j, old(pdi)@.len() as int, cycle) && untouched_before(
                    old(pdi)@,
                    final(pdi)@,
                    self@,
                    j,
                ),
            self@.len() > 0 && !callable(self@[0].device, old(pdi)@.len() as int, cycle) ==> r
                == Err::<Option<ControlFlow>, Error>(Error::Capacity) && final(pdi)@ == old(pdi)@ && final(out)@ == old(out)@,
    {
        let n = self.devices.count();
        let mut flow: Option<ControlFlow> = None;
        let mut i: usize = 0;
        assert(out@.subrange(0, out@.len() as int) =~= out@);
        while i < n
            invariant
                i <= n,
                n == self@.len(),
                n <= 16,
                pdi@.len() == old(pdi)@.len(),
                forall|k: int|
                    0 <= k < old(pdi)@.len() && !is_output(self@, i as int, k) ==> pdi@[k] == old(pdi)@[k],
                old(out)@.len() <= out@.len(),
                out@.subrange(0, old(out)@.len() as int) == old(out)@,
                all_callable(self@, i as int, old(pdi)@.len() as int, cycle),
                i == 0 ==> pdi@ == old(pdi)@ && out@ == old(out)@ && flow is None,
            decreases n - i,
        {
            let device = self.devices.device(i).unwrap();
            let ghost before = pdi@;
            let ghost sent = out@;
            let occasion = if cycle {
                Occasion::Cycle
            } else {
                Occasion::Start
            };
            let r = call_device(user, &device, i as u16, None, occasion, pdi, out);
            proof {
                assert(out@.subrange(0, old(out)@.len() as int) =~= sent.subrange(
                    0,
                    old(out)@.len() as int,
                )) by {
                    assert(out@.subrange(0, sent.len() as int) == sent);
                }
                assert forall|k: int|
                    0 <= k < old(pdi)@.len() && !is_output(self@, i + 1, k) implies pdi@[k] == old(pdi)@[k] by {
                    assert(!is_output(self@, i as int, k));
                    assert(self@[i as int].device == device);
                }
                assert forall|k: int|
                    0 <= k < old(pdi)@.len() && !is_output(
                        self@,
                        self@.len() as int,
                        k,
                    ) implies !is_output(self@, i + 1, k) by {}
            }
            match r {
                Ok(next) => {
                    flow = merge_flow(flow, next);
                },
                Err(e) => {
                    proof {
                        assert(pdi@ == before);
                        assert forall|k: int|
                            0 <= k < old(pdi)@.len() && !is_output(
                                self@,
                                self@.len() as int,
                                k,
                            ) implies pdi@[k] == old(pdi)@[k] by {
                            assert(!is_output(self@, i as int, k));
                        }
                        if e == Error::Capacity {
                            assert(stops_at(self@, i as int, old(pdi)@.len() as int, cycle));
                            assert(untouched_before(old(pdi)@, pdi@, self@, i as int));
                        }
                    }
                    return Err(e);
                },
            }
            i = i + 1;
        }
        Ok(flow)
    }

    /// Begins the cyclic exchange: every device is called once, in ring
    /// order, to fill its outputs; then the first cyclic PDU is sent.
    ///
    /// Whatever the user logic does, the devices stay as they were, the
    /// image keeps its size and changes within the devices' output segments
    /// only, what was in `out` stays in front, and after a success the last
    /// PDU of `out` is the cyclic one. Without devices the start succeeds
    /// and sends the cyclic PDU alone. Where it fails for want of room, it
    /// does so at the first device whose output segment the image does not
    /// hold; see [`called_all`].
    pub fn start_new<U: UserDevice>(
        devices: DeviceQueue,
        user: &mut U,
        ctx: &mut SendCtx,
        out: &mut Vec<Request>,
    ) -> (r: Result<Op, Error>)
        ensures
            final(ctx).input_offset == old(ctx).input_offset,
            r matches Ok(op) ==> op@ == devices@,
            ({
                let slots = devices@;
                let image = old(ctx).send_bytes@;
                let after = final(ctx).send_bytes@;
                let len = image.len() as int;
                &&& untouched_before(image, after, slots, slots.len() as int)
                &&& old(out)@.len() <= final(out)@.len()
                &&& final(out)@.subrange(0, old(out)@.len() as int) == old(out)@
                &&& slots.len() == 0 ==> r is Ok && after == image && final(out)@ == old(out)@.push(
                    cyclic_request(),
                )
                &&& r is Ok ==> all_callable(slots, slots.len() as int, len, false)
                    && final(out)@.len() > old(out)@.len() && final(out)@.last()
                    == cyclic_request()
                &&& r matches Err(e) ==> e == Error::Capacity || e == Error::UserAbort
                &&& failure_of(r) == Some(Error::Capacity) ==> exists|j: int| #[trigger]
                    stops_at(slots, j, len, false) && untouched_before(image, after, slots, j)
                &&& slots.len() > 0 && !callable(slots[0].device, len, false) ==> failure_of(r)
                    == Some(Error::Capacity) && after == image && final(out)@ == old(out)@
            }),
            called_all(
                devices@,
                false,
                old(ctx).send_bytes@,
                final(ctx).send_bytes@,
                old(out)@,
                final(out)@,
                failure_of(r),
            ),
    {
        let op = Op { devices };
        let _ = op.call_all(user, false, &mut ctx.send_bytes, out)?;
        let ghost called = out@;
        send(out, Pdu::RxTx, None, None);
        proof {
            assert(out@.subrange(0, old(out)@.len() as int) =~= called.subrange(
                0,
                old(out)@.len() as int,
            ));
            if devices@.len() == 0 {
                assert(out@ =~= old(out)@.push(cyclic_request()));
            }
        }
        Ok(op)
    }

    /// One answer applied to the cyclic operation.
    ///
    /// The answer to the cyclic PDU must be as long as the image. It becomes
    /// the image; every device is called, in ring order, with its inputs;
    /// then the next cyclic PDU is sent. The result is the first control
    /// flow that a device asked for. Any other answer is handed to the
    /// device that its index names, and the result is what that device asked
    /// for.
    ///
    /// Whatever the user logic does, the devices stay as they were, the
    /// image keeps its size, what was in `out` stays in front, and after a
    /// cycle the image holds the answer's bytes outside the devices' output
    /// segments and the last PDU of `out` is the cyclic one. An answer is
    /// malformed exactly where it is a cyclic one of another length than the
    /// image, or another one that names no device. Room is wanting only
    /// where the image does not hold a segment that a call needs; see
    /// [`answered`].
    pub fn update<U: UserDevice>(
        &mut self,
        received: &[u8],
        header: &PduHeader,
        identifier: Option<u8>,
        idx: Option<u16>,
        user: &mut U,
        ctx: &mut SendCtx,
        out: &mut Vec<Request>,
    ) -> (r: Result<Option<ControlFlow>, Error>)
        ensures
            final(self)@ == old(self)@,
            final(ctx).input_offset == old(ctx).input_offset,
            final(ctx).send_bytes@.len() == old(ctx).send_bytes@.len(),
            old(out)@.len() <= final(out)@.len(),
            final(out)@.subrange(0, old(out)@.len() as int) == old(out)@,
            ({
                let slots = old(self)@;
                let image = old(ctx).send_bytes@;
                let after = final(ctx).send_bytes@;
                let len = image.len() as int;
                let cyclic = header.command_code == CMD_LRW;
                let named = idx is Some && idx->0 < slots.len();
                &&& failure_of(r) == Some(Error::WireCodec) <==> (cyclic && received@.len() != len)
                    || (!cyclic && !named)
                &&& failure_of(r) == Some(Error::WireCodec) ==> after == image && final(out)@ == old(
                    out,
                )@
                &&& r matches Err(e) ==> e == Error::WireCodec || e == Error::Capacity || e
                    == Error::UserAbort
                &&& cyclic && received@.len() == len ==> {
                    &&& untouched_before(received@, after, slots, slots.len() as int)
                    &&& slots.len() == 0 ==> r == Ok::<Option<ControlFlow>, Error>(None) && after
                        == received@ && final(out)@ == old(out)@.push(cyclic_request())
                    &&& r is Ok ==> all_callable(slots, slots.len() as int, len, true)
                        && final(out)@.len() > old(out)@.len() && final(out)@.last()
                        == cyclic_request()
                    &&& failure_of(r) == Some(Error::Capacity) ==> exists|j: int| #[trigger]
                        stops_at(slots, j, len, true) && untouched_before(
                            received@,
                            after,
                            slots,
                            j,
                        )
                    &&& slots.len() > 0 && !callable(slots[0].device, len, true) ==> failure_of(r)
                        == Some(Error::Capacity) && after == received@ && final(out)@ == old(out)@
                }
                &&& !cyclic && named ==> {
                    let output = slots[idx->0 as int].device.config.io.output;
                    &&& forall|k: int|
                        0 <= k < len && !(output.start <= k < output.end) ==> after[k] == image[k]
                    &&& failure_of(r) == Some(Error::Capacity) <==> !callable(
                        slots[idx->0 as int].device,
                        len,
                        false,
                    )
                    &&& r is Err ==> after == image && final(out)@ == old(out)@
                }
            }),
            answered(
                old(self)@,
                received@,
                *header,
                idx,
                old(ctx).send_bytes@,
                final(ctx).send_bytes@,
                old(out)@,
                final(out)@,
                r,
            ),
    {
        assert(out@.subrange(0, out@.len() as int) =~= out@);
        if header.command_code == CMD_LRW {
            let n = ctx.send_bytes.len();
            if received.len() != n {
                return Err(Error::WireCodec);
            }
            let mut i: usize = 0;
            while i < n
                invariant
                    i <= n,
                    n == received@.len(),
                    ctx.send_bytes@.len() == n,
                    ctx.input_offset == old(ctx).input_offset,
                    forall|j: int| 0 <= j < i ==> ctx.send_bytes@[j] == received@[j],
                decreases n - i,
            {
                ctx.send_bytes.set(i, received[i]);
                i = i + 1;
            }
            assert(ctx.send_bytes@ =~= received@);
            let flow = self.call_all(user, true, &mut ctx.send_bytes, out)?;
            let ghost called = out@;
            send(out, Pdu::RxTx, None, None);
            proof {
                assert(out@.subrange(0, old(out)@.len() as int) =~= called.subrange(
                    0,
                    old(out)@.len() as int,
                ));
                if self@.len() == 0 {
                    assert(out@ =~= old(out)@.push(cyclic_request()));
                }
            }
            Ok(flow)
        } else {
            let at = match idx {
                Some(i) => i,
                None => {
                    return Err(Error::WireCodec);
                },
            };
            let device = match self.devices.device(at as usize) {
                Some(d) => d,
                None => {
                    return Err(Error::WireCodec);
                },
            };
            call_device(
                user,
                &device,
                at,
                identifier,
                Occasion::Answer(received, *header),
                &mut ctx.send_bytes,
                out,
            )
        }
    }

    /// The slot of the sub-device at position `idx`, to be changed in place.
    pub fn subdev_mut(&mut self, idx: usize) -> (r: Option<&mut Slot>)
        ensures
            idx >= old(self)@.len() ==> r is None && final(self)@ == old(self)@,
            idx < old(self)@.len() ==> r is Some && *r->0 == old(self)@[idx as int] && final(self)@
                == old(self)@.update(idx as int, *final(r->0)),
    {
        self.devices.get_mut(idx)
    }

    /// The record of the sub-device at position `idx`.
    pub fn subdev(&self, idx: usize) -> (r: Option<SubDevice>)
        ensures
            r == (if idx < self@.len() {
                Some(self@[idx as int].device)
            } else {
                None
            }),
    {
        self.devices.device(idx)
    }
}

} // verus!
