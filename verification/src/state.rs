//! The root driver: the ladder from `Idle` to `Op`. Every answer goes to the
//! stage that is under way; when a stage is over, the next one begins.

use crate::dc::{Dc, DcModel, DcState};
use crate::error::Error;
use crate::init::{address_requests, initial_slots, Init, InitModel, InitPhase};
use crate::mbx_config::{mailbox_start, MailboxConfig, MailboxConfigModel};
use crate::op::{answered, called_all, Op, SendCtx};
use crate::pdo::PdoConfig;
use crate::preop::{PreOp, PreOpModel, SendRecvIo};
use crate::queue::{Slot, MAX_SUBDEVICES};
use crate::request::{lemma_sent_both, lemma_sent_nothing, one, Pdu, Request};
use crate::reset::Reset;
use crate::safeop::{op_start, SafeOp, SafeOpModel};
use crate::user::{ControlFlow, UserDevice};
use crate::wire::PduHeader;
use vstd::prelude::*;

verus! {

pub enum InitState {
    Idle,
    Reset(Reset),
    Init(Init),
    Dc(Dc),
    Mbx(MailboxConfig),
    PreOp(PreOp),
    SafeOp(SafeOp, SendRecvIo),
    Op(Op, SendCtx),
}

impl Default for InitState {
    fn default() -> (s: Self)
        ensures
            s is Idle,
    {
        InitState::Idle
    }
}

impl InitState {
    pub fn new() -> (s: Self)
        ensures
            s is Idle,
    {
        InitState::Idle
    }

    /// How far up the ladder the state is.
    pub open spec fn rank(self) -> int {
        match self {
            InitState::Idle => 0,
            InitState::Reset(_) => 1,
            InitState::Init(_) => 2,
            InitState::Dc(_) => 3,
            InitState::Mbx(_) => 4,
            InitState::PreOp(_) => 5,
            InitState::SafeOp(_, _) => 6,
            InitState::Op(_, _) => 7,
        }
    }

    /// Begins the bring-up with the reset stage, whatever the state was.
    pub fn start(&mut self, out: &mut Vec<Request>)
        ensures
            *final(self) matches InitState::Reset(reset) && reset == (Reset {
                step: 0,
                device_count: None,
            }),
            final(out)@ == old(out)@ + one(Pdu::CountSubdevices, None, None),
    {
        let reset = Reset::new();
        reset.start(out);
        *self = InitState::Reset(reset);
    }

    /// Acts on what the user logic asked for: on `Restart` the ladder goes
    /// back to the reset stage and the counting broadcast is sent; otherwise
    /// nothing happens.
    pub fn apply_flow(&mut self, flow: Option<ControlFlow>, out: &mut Vec<Request>)
        ensures
            flow is None ==> *final(self) == *old(self) && final(out)@ == old(out)@,
            flow is Some ==> (*final(self) matches InitState::Reset(reset) && reset == (Reset {
                step: 0,
                device_count: None,
            })) && final(out)@ == old(out)@ + one(Pdu::CountSubdevices, None, None),
    {
        match flow {
            Some(ControlFlow::Restart) => {
                *self = InitState::Idle;
                self.start(out);
            },
            None => {},
        }
    }

    /// What an answer does in the reset stage: the stage moves on; when it
    /// is over the init stage is begun with the number of devices counted,
    /// unless they are more than the queue holds.
    pub open spec fn reset_then(
        reset: Reset,
        header: PduHeader,
        working_counter: u16,
        after: InitState,
        before: Seq<Request>,
        sent: Seq<Request>,
        r: Result<(), Error>,
    ) -> bool {
        let step = reset.spec_update(header, working_counter);
        match step.result {
            Ok(Some(count)) => if count > MAX_SUBDEVICES {
                &&& r == Err::<(), Error>(Error::Capacity)
                &&& after matches InitState::Reset(next)
                &&& next == step.next
                &&& sent == before + step.sent
            } else {
                &&& r is Ok
                &&& after matches InitState::Init(init)
                &&& init@ == (InitModel {
                    devices: initial_slots(count as int),
                    state: InitPhase::ConfigureAddresses(0),
                })
                &&& sent == before + (step.sent + address_requests(count as int))
            },
            _ => {
                &&& r is Ok
                &&& after matches InitState::Reset(next)
                &&& next == step.next
                &&& sent == before + step.sent
            },
        }
    }

    /// What an answer does in the init stage: the stage moves on; when it is
    /// over the distributed-clock stage is begun.
    pub open spec fn init_then(
        init: InitModel,
        data: Seq<u8>,
        header: PduHeader,
        index: Option<u16>,
        identifier: Option<u8>,
        after: InitState,
        before: Seq<Request>,
        sent: Seq<Request>,
        r: Result<(), Error>,
    ) -> bool {
        let step = init.spec_update(data, header, index, identifier);
        match step.result {
            Err(e) => {
                &&& r == Err::<(), Error>(e)
                &&& after matches InitState::Init(next)
                &&& next@ == init
                &&& sent == before
            },
            Ok(false) => {
                &&& r is Ok
                &&& after matches InitState::Init(next)
                &&& next@ == step.next
                &&& sent == before + step.sent
            },
            Ok(true) => {
                &&& r is Ok
                &&& after matches InitState::Dc(dc)
                &&& dc@ == (DcModel {
                    devices: step.next.devices,
                    state: DcState::LatchReceive,
                    reference: None,
                })
                &&& sent == before + (step.sent + one(Pdu::LatchReceiveTimes, None, None))
            },
        }
    }

    /// What an answer does in the distributed-clock stage: the stage moves
    /// on; when it is over the mailbox-config stage is begun.
    pub open spec fn dc_then(
        dc: DcModel,
        data: Seq<u8>,
        header: PduHeader,
        index: Option<u16>,
        iterations: u32,
        after: InitState,
        before: Seq<Request>,
        sent: Seq<Request>,
        r: Result<(), Error>,
    ) -> bool {
        let step = dc.spec_update(data, header, index, iterations);
        match step.result {
            Err(e) => {
                &&& r == Err::<(), Error>(e)
                &&& after matches InitState::Dc(next)
                &&& next@ == dc
                &&& sent == before
            },
            Ok(false) => {
                &&& r is Ok
                &&& after matches InitState::Dc(next)
                &&& next@ == step.next
                &&& sent == before + step.sent
            },
            Ok(true) => {
                &&& r is Ok
                &&& after matches InitState::Mbx(mbx)
                &&& mbx@ == MailboxConfigModel::spec_start_new(step.next.devices)
                &&& sent == before + (step.sent + mailbox_start(step.next.devices, 0))
            },
        }
    }

    /// What an answer does in the mailbox-config stage: the stage moves on;
    /// when it is over the pre-operational stage is begun, which may fail.
    pub open spec fn mbx_then(
        mbx: MailboxConfigModel,
        data: Seq<u8>,
        header: PduHeader,
        index: Option<u16>,
        identifier: Option<u8>,
        configs: Seq<PdoConfig>,
        after: InitState,
        before: Seq<Request>,
        sent: Seq<Request>,
        r: Result<(), Error>,
    ) -> bool {
        let step = mbx.spec_update(data, header, identifier, index);
        match step.result {
            Err(e) => {
                &&& r == Err::<(), Error>(e)
                &&& after matches InitState::Mbx(next)
                &&& next@ == mbx
                &&& sent == before
            },
            Ok(false) => {
                &&& r is Ok
                &&& after matches InitState::Mbx(next)
                &&& next@ == step.next
                &&& sent == before + step.sent
            },
            Ok(true) => {
                let begun = PreOpModel::spec_start_new(step.next.devices, configs);
                match begun.result {
                    Err(e) => {
                        &&& r == Err::<(), Error>(e)
                        &&& after matches InitState::Mbx(next)
                        &&& next@ == (MailboxConfigModel { devices: Seq::empty(), ..step.next })
                        &&& sent == before + step.sent
                    },
                    Ok(_) => {
                        &&& r is Ok
                        &&& after matches InitState::PreOp(preop)
                        &&& preop@ == begun.next
                        &&& sent == before + (step.sent + begun.sent)
                    },
                }
            },
        }
    }

    /// What an answer does in the pre-operational stage: the stage moves on;
    /// when it is over the move to `Op` is begun, and the layout of the
    /// process image is kept for it.
    pub open spec fn preop_then(
        preop: PreOpModel,
        data: Seq<u8>,
        index: Option<u16>,
        identifier: Option<u8>,
        configs: Seq<PdoConfig>,
        after: InitState,
        before: Seq<Request>,
        sent: Seq<Request>,
        r: Result<(), Error>,
    ) -> bool {
        let step = preop.spec_update(data, identifier, index, configs);
        match step.result {
            Err(e) => {
                &&& r == Err::<(), Error>(e)
                &&& after matches InitState::PreOp(next)
                &&& next@ == preop
                &&& sent == before
            },
            Ok(None) => {
                &&& r is Ok
                &&& after matches InitState::PreOp(next)
                &&& next@ == step.next
                &&& sent == before + step.sent
            },
            Ok(Some((input_end, output_end))) => {
                &&& r is Ok
                &&& after matches InitState::SafeOp(safeop, io)
                &&& safeop@ == SafeOpModel::spec_start_new(step.next.devices)
                &&& io.spec_input_end() == input_end
                &&& io.spec_output_end() == output_end
                &&& sent == before + (step.sent + op_start(step.next.devices, 0))
            },
        }
    }

    /// What an answer does in the move to `Op`: the stage moves on; when it
    /// is over the cyclic operation is begun, which calls the user logic and
    /// may fail with it.
    pub open spec fn safeop_then(
        safeop: SafeOpModel,
        io: SendRecvIo,
        data: Seq<u8>,
        index: Option<u16>,
        after: InitState,
        before: Seq<Request>,
        sent: Seq<Request>,
        r: Result<(), Error>,
    ) -> bool {
        let step = safeop.spec_update(data, index);
        match step.result {
            Err(e) => {
                &&& r == Err::<(), Error>(e)
                &&& after matches InitState::SafeOp(next, _)
                &&& next@ == safeop
                &&& sent == before
            },
            Ok(false) => {
                &&& r is Ok
                &&& after matches InitState::SafeOp(next, _)
                &&& next@ == step.next
                &&& sent == before + step.sent
            },
            Ok(true) => {
                let zeroed = Seq::new(io.spec_output_end() as nat, |i: int| 0u8);
                &&& before.len() <= sent.len()
                &&& sent.subrange(0, before.len() as int) == before
                &&& r is Ok ==> {
                    &&& after matches InitState::Op(op, ctx)
                    &&& op@ == step.next.devices
                    &&& ctx.input_offset == io.spec_input_end()
                    &&& ctx.send_bytes@.len() == io.spec_output_end()
                    &&& sent.last() == crate::op::cyclic_request()
                    &&& called_all(
                        step.next.devices,
                        false,
                        zeroed,
                        ctx.send_bytes@,
                        before + step.sent,
                        sent,
                        None,
                    )
                }
                &&& r matches Err(e) ==> {
                    &&& after matches InitState::SafeOp(next, _)
                    &&& next@ == (SafeOpModel { devices: Seq::empty(), ..step.next })
                    &&& exists|image: Seq<u8>| #[trigger]
                        called_all(
                            step.next.devices,
                            false,
                            zeroed,
                            image,
                            before + step.sent,
                            sent,
                            Some(e),
                        )
                }
            },
        }
    }

    /// The reset stage as it begins.
    pub open spec fn fresh_reset() -> Reset {
        Reset { step: 0, device_count: None }
    }

    /// What an answer does in `Op`, with the devices `op`, on the image
    /// `image`: the cyclic operation takes the answer, and the user logic
    /// decides how the ladder goes on.
    ///
    /// - Where it asked for a restart, the ladder is in the reset stage as
    ///   that stage begins, and behind what the cyclic operation sent the
    ///   counting broadcast is sent.
    /// - Otherwise the ladder stays in `Op` with the same devices and the
    ///   same offset of the inputs, the result is that of the cyclic
    ///   operation, and the image and what was sent are as it left them.
    pub open spec fn op_then(
        op: Seq<Slot>,
        image: Seq<u8>,
        input_offset: usize,
        data: Seq<u8>,
        header: PduHeader,
        index: Option<u16>,
        after: InitState,
        before: Seq<Request>,
        sent: Seq<Request>,
        r: Result<(), Error>,
    ) -> bool {
        if after is Reset {
            &&& r is Ok
            &&& after->Reset_0 == Self::fresh_reset()
            &&& sent.len() > before.len()
            &&& sent.last() == (Request { pdu: Pdu::CountSubdevices, index: None, identifier: None })
            &&& exists|image_after: Seq<u8>| #[trigger]
                answered(
                    op,
                    data,
                    header,
                    index,
                    image,
                    image_after,
                    before,
                    sent.drop_last(),
                    Ok(Some(ControlFlow::Restart)),
                )
        } else {
            &&& after matches InitState::Op(next, ctx)
            &&& next@ == op
            &&& ctx.input_offset == input_offset
            &&& answered(
                op,
                data,
                header,
                index,
                image,
                ctx.send_bytes@,
                before,
                sent,
                match r {
                    Ok(_) => Ok(None),
                    Err(e) => Err(e),
                },
            )
        }
    }

    fn update_op<U: UserDevice>(
        &mut self,
        received: &[u8],
        header: &PduHeader,
        index: Option<u16>,
        identifier: Option<u8>,
        user: &mut U,
        out: &mut Vec<Request>,
    ) -> (r: Result<(), Error>)
        requires
            *old(self) is Op,
        ensures
            Self::op_then(
                old(self)->Op_0@,
                old(self)->Op_1.send_bytes@,
                old(self)->Op_1.input_offset,
                received@,
                *header,
                index,
                *final(self),
                old(out)@,
                final(out)@,
                r,
            ),
    {
        if let InitState::Op(op, ctx) = self {
            let flow = op.update(received, header, identifier, index, user, ctx, out)?;
            let ghost image_after = ctx.send_bytes@;
            let ghost called = out@;
            match flow {
                Some(ControlFlow::Restart) => {
                    self.apply_flow(flow, out);
                    proof {
                        assert(out@.drop_last() =~= called);
                        assert(answered(
                            old(self)->Op_0@,
                            received@,
                            *header,
                            index,
                            old(self)->Op_1.send_bytes@,
                            image_after,
                            old(out)@,
                            out@.drop_last(),
                            Ok(Some(ControlFlow::Restart)),
                        ));
                    }
                },
                None => {},
            }
        }
        Ok(())
    }

    fn update_reset(&mut self, header: &PduHeader, working_counter: u16, out: &mut Vec<Request>) -> (r:
        Result<(), Error>)
        requires
            *old(self) is Reset,
        ensures
            Self::reset_then(
                old(self)->Reset_0,
                *header,
                working_counter,
                *final(self),
                old(out)@,
                final(out)@,
                r,
            ),
    {
        if let InitState::Reset(reset) = self {
            let ghost step = reset.spec_update(*header, working_counter);
            if let Some(count) = reset.update(header, working_counter, out)? {
                let init = Init::start_new(count, out)?;
                proof {
                    lemma_sent_both(old(out)@, step.sent, address_requests(count as int));
                }
                *self = InitState::Init(init);
            }
        }
        Ok(())
    }

    fn update_init(
        &mut self,
        received: &[u8],
        header: &PduHeader,
        index: Option<u16>,
        identifier: Option<u8>,
        out: &mut Vec<Request>,
    ) -> (r: Result<(), Error>)
        requires
            *old(self) is Init,
        ensures
            Self::init_then(
                old(self)->Init_0@,
                received@,
                *header,
                index,
                identifier,
                *final(self),
                old(out)@,
                final(out)@,
                r,
            ),
    {
        proof {
            lemma_sent_nothing(out@);
        }
        if let InitState::Init(init) = self {
            let ghost step = init@.spec_update(received@, *header, index, identifier);
            if let Some(devices) = init.update(received, header, index, identifier, out)? {
                let dc = Dc::new(devices);
                dc.start(out);
                proof {
                    lemma_sent_both(old(out)@, step.sent, one(Pdu::LatchReceiveTimes, None, None));
                }
                *self = InitState::Dc(dc);
            }
        }
        Ok(())
    }

    fn update_dc(
        &mut self,
        received: &[u8],
        header: &PduHeader,
        index: Option<u16>,
        iterations: u32,
        out: &mut Vec<Request>,
    ) -> (r: Result<(), Error>)
        requires
            *old(self) is Dc,
        ensures
            Self::dc_then(
                old(self)->Dc_0@,
                received@,
                *header,
                index,
                iterations,
                *final(self),
                old(out)@,
                final(out)@,
                r,
            ),
    {
        proof {
            lemma_sent_nothing(out@);
        }
        if let InitState::Dc(dc) = self {
            let ghost step = dc@.spec_update(received@, *header, index, iterations);
            if let Some(devices) = dc.update(received, header, index, iterations, out)? {
                let mbx = MailboxConfig::start_new(devices, out);
                proof {
                    lemma_sent_both(old(out)@, step.sent, mailbox_start(step.next.devices, 0));
                }
                *self = InitState::Mbx(mbx);
            }
        }
        Ok(())
    }

    fn update_mbx(
        &mut self,
        received: &[u8],
        header: &PduHeader,
        index: Option<u16>,
        identifier: Option<u8>,
        configs: &Vec<PdoConfig>,
        out: &mut Vec<Request>,
    ) -> (r: Result<(), Error>)
        requires
            *old(self) is Mbx,
        ensures
            Self::mbx_then(
                old(self)->Mbx_0@,
                received@,
                *header,
                index,
                identifier,
                configs@,
                *final(self),
                old(out)@,
                final(out)@,
                r,
            ),
    {
        proof {
            lemma_sent_nothing(out@);
        }
        if let InitState::Mbx(mbx) = self {
            let ghost step = mbx@.spec_update(received@, *header, identifier, index);
            if let Some(devices) = mbx.update(received, header, identifier, index, out)? {
                let ghost begun = PreOpModel::spec_start_new(devices@, configs@);
                let preop = PreOp::start_new(devices, configs, out)?;
                proof {
                    lemma_sent_both(old(out)@, step.sent, begun.sent);
                }
                *self = InitState::PreOp(preop);
            }
        }
        Ok(())
    }

    fn update_preop(
        &mut self,
        received: &[u8],
        index: Option<u16>,
        identifier: Option<u8>,
        configs: &Vec<PdoConfig>,
        out: &mut Vec<Request>,
    ) -> (r: Result<(), Error>)
        requires
            *old(self) is PreOp,
        ensures
            Self::preop_then(
                old(self)->PreOp_0@,
                received@,
                index,
                identifier,
                configs@,
                *final(self),
                old(out)@,
                final(out)@,
                r,
            ),
    {
        proof {
            lemma_sent_nothing(out@);
        }
        if let InitState::PreOp(preop) = self {
            let ghost step = preop@.spec_update(received@, identifier, index, configs@);
            if let Some((devices, io)) = preop.update(received, identifier, index, configs, out)? {
                let safeop = SafeOp::start_new(devices, out);
                proof {
                    lemma_sent_both(old(out)@, step.sent, op_start(step.next.devices, 0));
                }
                *self = InitState::SafeOp(safeop, io);
            }
        }
        Ok(())
    }

    fn update_safeop<U: UserDevice>(
        &mut self,
        received: &[u8],
        index: Option<u16>,
        user: &mut U,
        out: &mut Vec<Request>,
    ) -> (r: Result<(), Error>)
        requires
            *old(self) is SafeOp,
        ensures
            Self::safeop_then(
                old(self)->SafeOp_0@,
                old(self)->SafeOp_1,
                received@,
                index,
                *final(self),
                old(out)@,
                final(out)@,
                r,
            ),
    {
        proof {
            lemma_sent_nothing(out@);
        }
        if let InitState::SafeOp(safeop, io) = self {
            let layout = *io;
            if let Some(devices) = safeop.update(received, index, out)? {
                let ghost sent = out@;
                assert(sent.subrange(0, old(out)@.len() as int) =~= old(out)@);
                let mut ctx = SendCtx::new(layout);
                let ghost zeroed = ctx.send_bytes@;
                let ghost handed = devices@;
                let started = Op::start_new(devices, user, &mut ctx, out);
                proof {
                    assert(out@.subrange(0, old(out)@.len() as int) =~= sent.subrange(
                        0,
                        old(out)@.len() as int,
                    ));
                    assert(called_all(
                        handed,
                        false,
                        zeroed,
                        ctx.send_bytes@,
                        sent,
                        out@,
                        crate::op::failure_of(started),
                    ));
                }
                let op = started?;
                *self = InitState::Op(op, ctx);
            }
        }
        Ok(())
    }

    /// One answer applied to the ladder.
    ///
    /// - While idle, answers are passed over.
    /// - In every stage up to the move to `Op` the answer is that stage's;
    ///   when the stage is over the next stage is begun with the devices it
    ///   hands on. After an error the stage is as it was, except that a stage
    ///   that is over has handed its devices on.
    /// - In `Op` the user logic decides: `Restart` takes the ladder back to
    ///   the reset stage.
    ///
    /// The ladder never steps down, except from `Op` to the reset stage, and
    /// never skips a stage. `iterations` is the number of static
    /// synchronisation frames of the distributed-clock stage; `configs` holds
    /// one PDO layout per device.
    pub fn update<U: UserDevice>(
        &mut self,
        received: &[u8],
        working_counter: u16,
        header: &PduHeader,
        index: Option<u16>,
        identifier: Option<u8>,
        iterations: u32,
        configs: &Vec<PdoConfig>,
        user: &mut U,
        out: &mut Vec<Request>,
    ) -> (r: Result<(), Error>)
        ensures
            final(self).rank() >= old(self).rank() || (*old(self) is Op && *final(self) is Reset),
            final(self).rank() <= old(self).rank() + 1 || *old(self) is Op,
            *old(self) is Idle ==> *final(self) is Idle && final(out)@ == old(out)@ && r is Ok,
            *old(self) matches InitState::Reset(reset) ==> Self::reset_then(
                reset,
                *header,
                working_counter,
                *final(self),
                old(out)@,
                final(out)@,
                r,
            ),
            *old(self) matches InitState::Init(init) ==> Self::init_then(
                init@,
                received@,
                *header,
                index,
                identifier,
                *final(self),
                old(out)@,
                final(out)@,
                r,
            ),
            *old(self) matches InitState::Dc(dc) ==> Self::dc_then(
                dc@,
                received@,
                *header,
                index,
                iterations,
                *final(self),
                old(out)@,
                final(out)@,
                r,
            ),
            *old(self) matches InitState::Mbx(mbx) ==> Self::mbx_then(
                mbx@,
                received@,
                *header,
                index,
                identifier,
                configs@,
                *final(self),
                old(out)@,
                final(out)@,
                r,
            ),
            *old(self) matches InitState::PreOp(preop) ==> Self::preop_then(
                preop@,
                received@,
                index,
                identifier,
                configs@,
                *final(self),
                old(out)@,
                final(out)@,
                r,
            ),
            *old(self) matches InitState::SafeOp(safeop, io) ==> Self::safeop_then(
                safeop@,
                io,
                received@,
                index,
                *final(self),
                old(out)@,
                final(out)@,
                r,
            ),
            *old(self) matches InitState::Op(op, ctx) ==> Self::op_then(
                op@,
                ctx.send_bytes@,
                ctx.input_offset,
                received@,
                *header,
                index,
                *final(self),
                old(out)@,
                final(out)@,
                r,
            ),
            old(out)@.len() <= final(out)@.len(),
            final(out)@.subrange(0, old(out)@.len() as int) == old(out)@,
    {
        match self {
            InitState::Idle => Ok(()),
            InitState::Reset(_) => self.update_reset(header, working_counter, out),
            InitState::Init(_) => self.update_init(received, header, index, identifier, out),
            InitState::Dc(_) => self.update_dc(received, header, index, iterations, out),
            InitState::Mbx(_) => self.update_mbx(received, header, index, identifier, configs, out),
            InitState::PreOp(_) => self.update_preop(received, index, identifier, configs, out),
            InitState::SafeOp(_, _) => self.update_safeop(received, index, user, out),
            InitState::Op(_, _) => self.update_op(received, header, index, identifier, user, out),
        }
    }
}

} // verus!
