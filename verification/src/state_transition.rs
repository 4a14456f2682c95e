//! Moves one sub-device to a requested application-layer state: request the
//! state, then poll until the device reports it.

use crate::error::{Error, SubDeviceState};
use crate::request::{send, Pdu, Request, Step};
use crate::wire::AlControl;
use vstd::prelude::*;

verus! {

#[derive(Clone, Copy, Debug, PartialEq, Eq, Structural)]
pub enum TransitionState {
    /// The request is on the wire.
    Transition,
    /// The request was accepted; the state is being polled.
    WaitForAck,
}

#[derive(Clone, Copy, Debug, PartialEq, Eq, Structural)]
pub struct Transition {
    pub requested: SubDeviceState,
    pub state: TransitionState,
}

impl Transition {
    pub fn new(requested: SubDeviceState) -> (t: Transition)
        ensures
            t == (Transition { requested, state: TransitionState::Transition }),
    {
        Transition { requested, state: TransitionState::Transition }
    }

    /// The request that `start` sends.
    pub open spec fn spec_start(self, configured_addr: u16, idx: u16) -> Seq<Request> {
        seq![
            Request {
                pdu: Pdu::RequestState { address: configured_addr, state: self.requested },
                index: Some(idx),
                identifier: None,
            },
        ]
    }

    /// Sends the state request for the device at `configured_addr`.
    pub fn start(&self, configured_addr: u16, idx: u16, out: &mut Vec<Request>)
        ensures
            final(out)@ == old(out)@ + self.spec_start(configured_addr, idx),
    {
        send(
            out,
            Pdu::RequestState { address: configured_addr, state: self.requested },
            Some(idx),
            None,
        );
        assert(out@ =~= old(out)@ + self.spec_start(configured_addr, idx));
    }

    /// The poll that is sent while the device has not reached the state.
    pub open spec fn spec_wait(self, configured_addr: u16, idx: u16) -> Seq<Request> {
        seq![
            Request {
                pdu: Pdu::WaitState { address: configured_addr, state: self.requested },
                index: Some(idx),
                identifier: None,
            },
        ]
    }

    /// One answer applied to the transition. A reply that cannot be decoded
    /// is an error; a reply to the request with the error flag set refuses the
    /// transition; a reply to a poll either matches the requested state, which
    /// ends the transition with `true`, or causes another poll.
    pub open spec fn spec_update(self, data: Seq<u8>, configured_addr: u16, idx: u16) -> Step<
        Transition,
        bool,
    > {
        match AlControl::spec_decode(data) {
            Err(e) => Step { next: self, sent: seq![], result: Err(e) },
            Ok(al) => match self.state {
                TransitionState::Transition => if al.error {
                    Step {
                        next: self,
                        sent: seq![],
                        result: Err(
                            Error::StateTransition { target: self.requested, actual: al.state },
                        ),
                    }
                } else {
                    Step {
                        next: Transition { state: TransitionState::WaitForAck, ..self },
                        sent: self.spec_wait(configured_addr, idx),
                        result: Ok(false),
                    }
                },
                TransitionState::WaitForAck => if al.state != self.requested {
                    Step { next: self, sent: self.spec_wait(configured_addr, idx), result: Ok(false) }
                } else {
                    Step { next: self, sent: seq![], result: Ok(true) }
                },
            },
        }
    }

    /// Applies the answer `received` of the device; `Ok(true)` once the device
    /// reports the requested state.
    pub fn update(
        &mut self,
        received: &[u8],
        configured_addr: u16,
        idx: u16,
        out: &mut Vec<Request>,
    ) -> (r: Result<bool, Error>)
        ensures
            *final(self) == old(self).spec_update(received@, configured_addr, idx).next,
            final(out)@ == old(out)@ + old(self).spec_update(received@, configured_addr, idx).sent,
            r == old(self).spec_update(received@, configured_addr, idx).result,
    {
        let al = match AlControl::decode(received) {
            Ok(al) => al,
            Err(e) => {
                assert(out@ =~= old(out)@ + Seq::<Request>::empty());
                return Err(e);
            },
        };
        match self.state {
            TransitionState::Transition => {
                if al.error {
                    assert(out@ =~= old(out)@ + Seq::<Request>::empty());
                    return Err(Error::StateTransition { target: self.requested, actual: al.state });
                }
                send(
                    out,
                    Pdu::WaitState { address: configured_addr, state: self.requested },
                    Some(idx),
                    None,
                );
                self.state = TransitionState::WaitForAck;
                assert(out@ =~= old(out)@ + old(self).spec_wait(configured_addr, idx));
                Ok(false)
            },
            TransitionState::WaitForAck => {
                if al.state != self.requested {
                    send(
                        out,
                        Pdu::WaitState { address: configured_addr, state: self.requested },
                        Some(idx),
                        None,
                    );
                    assert(out@ =~= old(out)@ + old(self).spec_wait(configured_addr, idx));
                    Ok(false)
                } else {
                    assert(out@ =~= old(out)@ + Seq::<Request>::empty());
                    Ok(true)
                }
            },
        }
    }
}

} // verus!
