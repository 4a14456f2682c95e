//! The mailbox transport. Before a CoE service is written, both mailboxes of
//! the device are brought to rest: the write mailbox is polled until it is
//! empty, the read mailbox is polled and emptied by a blind read if it holds
//! a stale reply. Then the service is written, and the read mailbox is polled
//! and read for the reply.
//!
//! The layer marks its PDUs in the low two bits of the tag and carries the
//! caller's tag in the six bits above them.

use crate::error::Error;
use crate::request::{failed, lemma_sent_both, lemma_sent_nothing, one, quiet, send, CoeRequest,
    Pdu, Request, Step};
use crate::subdevice::Mailbox;
use crate::wire::{le_u16, read_u16, SmStatus};
use vstd::prelude::*;

verus! {

/// Tag bits of the path that concerns the write mailbox while the mailboxes
/// are brought to rest, and of the reply poll afterwards.
pub const TAG_FIRST: u8 = 1;

/// Tag bits of the path that concerns the read mailbox while the mailboxes
/// are brought to rest, and of the service write afterwards.
pub const TAG_SECOND: u8 = 2;

/// The low two bits of a tag: the role within the mailbox layer.
pub open spec fn spec_role(tag: u8) -> u8 {
    tag & 0b11
}

pub fn role(tag: u8) -> (r: u8)
    ensures
        r == spec_role(tag),
{
    tag & 0b11
}

/// The tag for `role` that carries the caller's tag `caller` above it.
pub open spec fn spec_tag_for(role: u8, caller: Option<u8>) -> u8 {
    match caller {
        Some(c) => role | (c << 2),
        None => role,
    }
}

pub fn tag_for(role: u8, caller: Option<u8>) -> (t: u8)
    ensures
        t == spec_tag_for(role, caller),
{
    match caller {
        Some(c) => role | (c << 2),
        None => role,
    }
}

/// The tag for `role` that keeps the caller's bits of the reply tag `reply`.
pub open spec fn spec_retag(role: u8, reply: u8) -> u8 {
    role | (reply & 0xfc)
}

pub fn retag(role: u8, reply: u8) -> (t: u8)
    ensures
        t == spec_retag(role, reply),
{
    role | (reply & 0xfc)
}

/// The caller's tag that a reply tag carries.
pub open spec fn spec_caller_tag(reply: u8) -> u8 {
    reply >> 2
}

pub fn caller_tag(reply: u8) -> (t: u8)
    ensures
        t == spec_caller_tag(reply),
{
    reply >> 2
}

/// A tag that was built for a caller's tag gives that tag back, as far as it
/// fits in six bits, and keeps its role.
pub proof fn law_tags_keep_role_and_caller(role: u8, caller: u8)
    requires
        role < 4,
    ensures
        spec_role(spec_tag_for(role, Some(caller))) == role,
        spec_caller_tag(spec_tag_for(role, Some(caller))) == caller & 0x3f,
        spec_retag(role, spec_tag_for(role, Some(caller))) == spec_tag_for(role, Some(caller)),
{
    assert(role < 4 ==> (role | (caller << 2)) & 0b11 == role) by (bit_vector);
    assert(role < 4 ==> (role | (caller << 2)) >> 2 == caller & 0x3f) by (bit_vector);
    assert(role < 4 ==> role | ((role | (caller << 2)) & 0xfc) == role | (caller << 2))
        by (bit_vector);
}

/// The status poll of the sync manager that guards `mbx`.
pub open spec fn status_poll(mbx: Mailbox, configured_addr: u16, idx: u16, tag: u8) -> Seq<
    Request,
> {
    one(
        Pdu::MailboxStatus { address: configured_addr, sync_manager: mbx.sync_manager },
        Some(idx),
        Some(tag),
    )
}

/// The read of a whole mailbox.
pub open spec fn mailbox_read(mbx: Mailbox, configured_addr: u16, idx: u16, tag: u8) -> Seq<
    Request,
> {
    one(
        Pdu::Read { address: configured_addr, start: mbx.address, len: mbx.len },
        Some(idx),
        Some(tag),
    )
}

fn send_status_poll(mbx: &Mailbox, configured_addr: u16, idx: u16, tag: u8, out: &mut Vec<Request>)
    ensures
        final(out)@ == old(out)@ + status_poll(*mbx, configured_addr, idx, tag),
{
    send(
        out,
        Pdu::MailboxStatus { address: configured_addr, sync_manager: mbx.sync_manager },
        Some(idx),
        Some(tag),
    );
}

fn send_mailbox_read(mbx: &Mailbox, configured_addr: u16, idx: u16, tag: u8, out: &mut Vec<Request>)
    ensures
        final(out)@ == old(out)@ + mailbox_read(*mbx, configured_addr, idx, tag),
{
    send(
        out,
        Pdu::Read { address: configured_addr, start: mbx.address, len: mbx.len },
        Some(idx),
        Some(tag),
    );
}

/// Waits for the write mailbox to be empty.
#[derive(Clone, Copy, Debug, PartialEq, Eq, Structural)]
pub enum WriteMbxState {
    Full,
    Ready,
}

impl WriteMbxState {
    pub fn new() -> (s: Self)
        ensures
            s == WriteMbxState::Full,
    {
        WriteMbxState::Full
    }

    /// Polls the status of the write mailbox.
    pub fn start(
        &self,
        write_mbx: &Mailbox,
        configured_addr: u16,
        identifier: u8,
        idx: u16,
        out: &mut Vec<Request>,
    )
        ensures
            final(out)@ == old(out)@ + status_poll(*write_mbx, configured_addr, idx, identifier),
    {
        send_status_poll(write_mbx, configured_addr, idx, identifier, out);
    }

    /// One status answer: a full mailbox is polled again, an empty one is
    /// ready (`true`). An answer after that is not expected.
    pub open spec fn spec_update(
        self,
        data: Seq<u8>,
        write_mbx: Mailbox,
        configured_addr: u16,
        identifier: u8,
        idx: u16,
    ) -> Step<Self, bool> {
        match self {
            WriteMbxState::Ready => failed(self, Error::WireCodec),
            WriteMbxState::Full => match SmStatus::spec_decode(data) {
                Err(e) => failed(self, e),
                Ok(status) => if status.mailbox_full {
                    Step {
                        next: self,
                        sent: status_poll(write_mbx, configured_addr, idx, identifier),
                        result: Ok(false),
                    }
                } else {
                    quiet(WriteMbxState::Ready, true)
                },
            },
        }
    }

    pub fn update(
        &mut self,
        received: &[u8],
        write_mbx: &Mailbox,
        configured_addr: u16,
        identifier: u8,
        idx: u16,
        out: &mut Vec<Request>,
    ) -> (r: Result<bool, Error>)
        ensures
            ({
                let step = old(self).spec_update(
                    received@,
                    *write_mbx,
                    configured_addr,
                    identifier,
                    idx,
                );
                &&& *final(self) == step.next
                &&& final(out)@ == old(out)@ + step.sent
                &&& r == step.result
            }),
    {
        proof {
            lemma_sent_nothing(out@);
        }
        match self {
            WriteMbxState::Ready => Err(Error::WireCodec),
            WriteMbxState::Full => {
                let status = SmStatus::decode(received)?;
                if status.mailbox_full {
                    send_status_poll(write_mbx, configured_addr, idx, identifier, out);
                    Ok(false)
                } else {
                    *self = WriteMbxState::Ready;
                    Ok(true)
                }
            },
        }
    }
}

/// Waits for the read mailbox to be empty, emptying it where it is not.
#[derive(Clone, Copy, Debug, PartialEq, Eq, Structural)]
pub enum ReadMbxState {
    Full,
    Flush,
    Ready,
}

impl ReadMbxState {
    pub fn new() -> (s: Self)
        ensures
            s == ReadMbxState::Full,
    {
        ReadMbxState::Full
    }

    /// Polls the status of the read mailbox.
    pub fn start(
        &self,
        read_mbx: &Mailbox,
        configured_addr: u16,
        identifier: u8,
        idx: u16,
        out: &mut Vec<Request>,
    )
        ensures
            final(out)@ == old(out)@ + status_poll(*read_mbx, configured_addr, idx, identifier),
    {
        send_status_poll(read_mbx, configured_addr, idx, identifier, out);
    }

    /// One answer: an empty mailbox is ready (`true`); a full one is read
    /// blindly, and after that read its status is polled again. An answer
    /// after the mailbox was found empty is not expected.
    pub open spec fn spec_update(
        self,
        data: Seq<u8>,
        read_mbx: Mailbox,
        configured_addr: u16,
        identifier: u8,
        idx: u16,
    ) -> Step<Self, bool> {
        match self {
            ReadMbxState::Ready => failed(self, Error::WireCodec),
            ReadMbxState::Flush => Step {
                next: ReadMbxState::Full,
                sent: status_poll(read_mbx, configured_addr, idx, identifier),
                result: Ok(false),
            },
            ReadMbxState::Full => match SmStatus::spec_decode(data) {
                Err(e) => failed(self, e),
                Ok(status) => if !status.mailbox_full {
                    quiet(ReadMbxState::Ready, true)
                } else {
                    Step {
                        next: ReadMbxState::Flush,
                        sent: mailbox_read(read_mbx, configured_addr, idx, identifier),
                        result: Ok(false),
                    }
                },
            },
        }
    }

    pub fn update(
        &mut self,
        received: &[u8],
        read_mbx: &Mailbox,
        configured_addr: u16,
        identifier: u8,
        idx: u16,
        out: &mut Vec<Request>,
    ) -> (r: Result<bool, Error>)
        ensures
            ({
                let step = old(self).spec_update(
                    received@,
                    *read_mbx,
                    configured_addr,
                    identifier,
                    idx,
                );
                &&& *final(self) == step.next
                &&& final(out)@ == old(out)@ + step.sent
                &&& r == step.result
            }),
    {
        proof {
            lemma_sent_nothing(out@);
        }
        match self {
            ReadMbxState::Ready => Err(Error::WireCodec),
            ReadMbxState::Flush => {
                send_status_poll(read_mbx, configured_addr, idx, identifier, out);
                *self = ReadMbxState::Full;
                Ok(false)
            },
            ReadMbxState::Full => {
                let status = SmStatus::decode(received)?;
                if !status.mailbox_full {
                    *self = ReadMbxState::Ready;
                    Ok(true)
                } else {
                    send_mailbox_read(read_mbx, configured_addr, idx, identifier, out);
                    *self = ReadMbxState::Flush;
                    Ok(false)
                }
            },
        }
    }
}

/// Brings both mailboxes to rest, each on its own path.
#[derive(Clone, Copy, Debug, PartialEq, Eq, Structural)]
pub struct CoeMailboxState {
    pub rx: ReadMbxState,
    pub tx: WriteMbxState,
}

impl CoeMailboxState {
    pub fn new() -> (s: Self)
        ensures
            s == (CoeMailboxState { rx: ReadMbxState::Full, tx: WriteMbxState::Full }),
    {
        CoeMailboxState { rx: ReadMbxState::new(), tx: WriteMbxState::new() }
    }

    /// The two status polls that `start` sends.
    pub open spec fn spec_start(
        write_mbx: Mailbox,
        read_mbx: Mailbox,
        configured_addr: u16,
        identifier: Option<u8>,
        idx: u16,
    ) -> Seq<Request> {
        status_poll(write_mbx, configured_addr, idx, spec_tag_for(TAG_FIRST, identifier))
            + status_poll(read_mbx, configured_addr, idx, spec_tag_for(TAG_SECOND, identifier))
    }

    /// Polls both mailboxes; `identifier` is the caller's own tag.
    pub fn start(
        &self,
        write_mbx: &Mailbox,
        read_mbx: &Mailbox,
        configured_addr: u16,
        identifier: Option<u8>,
        idx: u16,
        out: &mut Vec<Request>,
    )
        ensures
            final(out)@ == old(out)@ + Self::spec_start(
                *write_mbx,
                *read_mbx,
                configured_addr,
                identifier,
                idx,
            ),
    {
        self.tx.start(write_mbx, configured_addr, tag_for(TAG_FIRST, identifier), idx, out);
        self.rx.start(read_mbx, configured_addr, tag_for(TAG_SECOND, identifier), idx, out);
        proof {
            lemma_sent_both(
                old(out)@,
                status_poll(*write_mbx, configured_addr, idx, spec_tag_for(TAG_FIRST, identifier)),
                status_poll(*read_mbx, configured_addr, idx, spec_tag_for(TAG_SECOND, identifier)),
            );
        }
    }

    /// One answer, routed by the role in its tag to the path it belongs to.
    /// The result is `true` when that path has come to rest and the other
    /// one rests already. An answer without a tag, or with another role, is
    /// not expected.
    pub open spec fn spec_update(
        self,
        data: Seq<u8>,
        write_mbx: Mailbox,
        read_mbx: Mailbox,
        configured_addr: u16,
        identifier: Option<u8>,
        idx: u16,
    ) -> Step<Self, bool> {
        match identifier {
            None => failed(self, Error::WireCodec),
            Some(tag) => if spec_role(tag) == TAG_FIRST {
                let inner = self.tx.spec_update(
                    data,
                    write_mbx,
                    configured_addr,
                    spec_retag(TAG_FIRST, tag),
                    idx,
                );
                match inner.result {
                    Err(e) => failed(self, e),
                    Ok(ready) => Step {
                        next: CoeMailboxState { tx: inner.next, ..self },
                        sent: inner.sent,
                        result: Ok(ready && self.rx == ReadMbxState::Ready),
                    },
                }
            } else if spec_role(tag) == TAG_SECOND {
                let inner = self.rx.spec_update(
                    data,
                    read_mbx,
                    configured_addr,
                    spec_retag(TAG_SECOND, tag),
                    idx,
                );
                match inner.result {
                    Err(e) => failed(self, e),
                    Ok(ready) => Step {
                        next: CoeMailboxState { rx: inner.next, ..self },
                        sent: inner.sent,
                        result: Ok(ready && self.tx == WriteMbxState::Ready),
                    },
                }
            } else {
                failed(self, Error::WireCodec)
            },
        }
    }

    pub fn update(
        &mut self,
        received: &[u8],
        write_mbx: &Mailbox,
        read_mbx: &Mailbox,
        configured_addr: u16,
        identifier: Option<u8>,
        idx: u16,
        out: &mut Vec<Request>,
    ) -> (r: Result<bool, Error>)
        ensures
            ({
                let step = old(self).spec_update(
                    received@,
                    *write_mbx,
                    *read_mbx,
                    configured_addr,
                    identifier,
                    idx,
                );
                &&& *final(self) == step.next
                &&& final(out)@ == old(out)@ + step.sent
                &&& r == step.result
            }),
    {
        proof {
            lemma_sent_nothing(out@);
        }
        let tag = match identifier {
            Some(t) => t,
            None => {
                return Err(Error::WireCodec);
            },
        };
        if role(tag) == TAG_FIRST {
            let ready = self.tx.update(
                received,
                write_mbx,
                configured_addr,
                retag(TAG_FIRST, tag),
                idx,
                out,
            )?;
            Ok(ready && self.rx == ReadMbxState::Ready)
        } else if role(tag) == TAG_SECOND {
            let ready = self.rx.update(
                received,
                read_mbx,
                configured_addr,
                retag(TAG_SECOND, tag),
                idx,
                out,
            )?;
            Ok(ready && self.tx == WriteMbxState::Ready)
        } else {
            Err(Error::WireCodec)
        }
    }
}

/// The write of a service into the write mailbox.
#[derive(Clone, Copy, Debug, PartialEq, Eq, Structural)]
pub enum CoeWrite {
    Sent,
    Received,
}

/// The write of `service` into `mbx`.
pub open spec fn service_write(
    mbx: Mailbox,
    configured_addr: u16,
    idx: u16,
    identifier: Option<u8>,
    service: CoeRequest,
) -> Seq<Request> {
    one(
        Pdu::WriteMailbox { address: configured_addr, start: mbx.address, len: mbx.len, service },
        Some(idx),
        identifier,
    )
}

impl CoeWrite {
    pub fn new() -> (s: Self)
        ensures
            s == CoeWrite::Sent,
    {
        CoeWrite::Sent
    }

    /// Writes `service` into the write mailbox.
    pub fn start(
        &self,
        write_mbx: &Mailbox,
        configured_addr: u16,
        idx: u16,
        identifier: Option<u8>,
        service: CoeRequest,
        out: &mut Vec<Request>,
    )
        ensures
            final(out)@ == old(out)@ + service_write(
                *write_mbx,
                configured_addr,
                idx,
                identifier,
                service,
            ),
    {
        send(
            out,
            Pdu::WriteMailbox {
                address: configured_addr,
                start: write_mbx.address,
                len: write_mbx.len,
                service,
            },
            Some(idx),
            identifier,
        );
    }

    /// The write was acknowledged.
    pub fn update(&mut self)
        ensures
            *final(self) == CoeWrite::Received,
    {
        *self = CoeWrite::Received;
    }
}

/// The wait for a reply in the read mailbox, and its read.
#[derive(Clone, Copy, Debug, PartialEq, Eq, Structural)]
pub enum CoeRead {
    Empty,
    Ready,
}

impl CoeRead {
    pub fn new() -> (s: Self)
        ensures
            s == CoeRead::Empty,
    {
        CoeRead::Empty
    }

    /// Polls the status of the read mailbox.
    pub fn start(
        &self,
        read_mbx: &Mailbox,
        configured_addr: u16,
        idx: u16,
        identifier: u8,
        out: &mut Vec<Request>,
    )
        ensures
            final(out)@ == old(out)@ + status_poll(*read_mbx, configured_addr, idx, identifier),
    {
        send_status_poll(read_mbx, configured_addr, idx, identifier, out);
    }

    /// One answer: while the mailbox is empty its status is polled again;
    /// once it is full it is read; the answer to that read is the reply,
    /// which is reported by `true`.
    pub open spec fn spec_update(
        self,
        data: Seq<u8>,
        read_mbx: Mailbox,
        configured_addr: u16,
        identifier: u8,
        idx: u16,
    ) -> Step<Self, bool> {
        match self {
            CoeRead::Ready => quiet(self, true),
            CoeRead::Empty => match SmStatus::spec_decode(data) {
                Err(e) => failed(self, e),
                Ok(status) => if !status.mailbox_full {
                    Step {
                        next: self,
                        sent: status_poll(read_mbx, configured_addr, idx, identifier),
                        result: Ok(false),
                    }
                } else {
                    Step {
                        next: CoeRead::Ready,
                        sent: mailbox_read(read_mbx, configured_addr, idx, identifier),
                        result: Ok(false),
                    }
                },
            },
        }
    }

    pub fn update(
        &mut self,
        received: &[u8],
        read_mbx: &Mailbox,
        configured_addr: u16,
        identifier: u8,
        idx: u16,
        out: &mut Vec<Request>,
    ) -> (r: Result<bool, Error>)
        ensures
            ({
                let step = old(self).spec_update(
                    received@,
                    *read_mbx,
                    configured_addr,
                    identifier,
                    idx,
                );
                &&& *final(self) == step.next
                &&& final(out)@ == old(out)@ + step.sent
                &&& r == step.result
            }),
    {
        proof {
            lemma_sent_nothing(out@);
        }
        match self {
            CoeRead::Ready => Ok(true),
            CoeRead::Empty => {
                let status = SmStatus::decode(received)?;
                if !status.mailbox_full {
                    send_status_poll(read_mbx, configured_addr, idx, identifier, out);
                } else {
                    send_mailbox_read(read_mbx, configured_addr, idx, identifier, out);
                    *self = CoeRead::Ready;
                }
                Ok(false)
            },
        }
    }
}

/// Length of the headers in front of the payload of an SDO reply: mailbox
/// header, CoE header, SDO header.
pub const SDO_HEADERS_LEN: usize = 12;

/// What the headers of an SDO reply say of its payload.
#[derive(Clone, Copy, Debug, PartialEq, Eq, Structural)]
pub struct SdoReply {
    /// Length field of the mailbox header.
    pub length: u16,
    pub expedited: bool,
    /// Number of the four expedited bytes that hold no data.
    pub size: u8,
}

impl SdoReply {
    /// The headers of a reply to `req`. The reply must be long enough, of
    /// mailbox type CoE, no emergency and no abort, and must name the object
    /// and sub-index that were asked for.
    pub open spec fn spec_parse(b: Seq<u8>, req: CoeRequest) -> Result<SdoReply, Error> {
        if b.len() < 12 {
            Err(Error::WireCodec)
        } else {
            let service = b[7] >> 4;
            let command = b[8] >> 5;
            if b[5] & 0x0f != 3 || service < 2 || service > 8 || command < 1 || command > 3
                || le_u16(b, 9) != req.index || b[11] != req.sub_index.spec_sub_index() {
                Err(Error::WireCodec)
            } else {
                Ok(
                    SdoReply {
                        length: le_u16(b, 0),
                        expedited: b[8] & 0x02 != 0,
                        size: (b[8] >> 2) & 0x03,
                    },
                )
            }
        }
    }

    pub fn parse(buf: &[u8], req: &CoeRequest) -> (r: Result<SdoReply, Error>)
        ensures
            r == Self::spec_parse(buf@, *req),
    {
        if buf.len() < 12 {
            return Err(Error::WireCodec);
        }
        let service = buf[7] >> 4;
        let command = buf[8] >> 5;
        let index = read_u16(buf, 9)?;
        if buf[5] & 0x0f != 3 || service < 2 || service > 8 || command < 1 || command > 3 || index
            != req.index || buf[11] != req.sub_index.sub_index() {
            return Err(Error::WireCodec);
        }
        let length = read_u16(buf, 0)?;
        Ok(SdoReply { length, expedited: buf[8] & 0x02 != 0, size: (buf[8] >> 2) & 0x03 })
    }
}

#[derive(Clone, Copy, Debug, PartialEq, Eq, Structural)]
pub enum MbxWriteReadState {
    /// The mailboxes are being brought to rest.
    MailboxFull(CoeMailboxState),
    /// The service is written and its reply awaited.
    WriteRead { write: CoeWrite, read: CoeRead },
}

/// One CoE service exchange: bring the mailboxes to rest, write the request,
/// read the reply.
#[derive(Clone, Copy, Debug, PartialEq, Eq)]
pub struct MbxWriteRead {
    pub req: CoeRequest,
    pub state: MbxWriteReadState,
}

impl MbxWriteRead {
    pub open spec fn spec_new(request: CoeRequest) -> Self {
        MbxWriteRead {
            req: request,
            state: MbxWriteReadState::MailboxFull(
                CoeMailboxState { rx: ReadMbxState::Full, tx: WriteMbxState::Full },
            ),
        }
    }

    pub fn new(request: CoeRequest) -> (s: Self)
        ensures
            s == Self::spec_new(request),
    {
        MbxWriteRead { req: request, state: MbxWriteReadState::MailboxFull(CoeMailboxState::new()) }
    }

    /// What `start` sends: the two status polls, on an exchange that has not
    /// begun; nothing on one that is under way.
    pub open spec fn spec_start(
        self,
        write_mbx: Mailbox,
        read_mbx: Mailbox,
        configured_addr: u16,
        identifier: Option<u8>,
        idx: u16,
    ) -> Seq<Request> {
        match self.state {
            MbxWriteReadState::MailboxFull(_) => CoeMailboxState::spec_start(
                write_mbx,
                read_mbx,
                configured_addr,
                identifier,
                idx,
            ),
            MbxWriteReadState::WriteRead { .. } => seq![],
        }
    }

    /// Begins the exchange; `identifier` is the caller's own tag.
    pub fn start(
        &self,
        write_mbx: &Mailbox,
        read_mbx: &Mailbox,
        configured_addr: u16,
        identifier: Option<u8>,
        idx: u16,
        out: &mut Vec<Request>,
    )
        ensures
            final(out)@ == old(out)@ + self.spec_start(
                *write_mbx,
                *read_mbx,
                configured_addr,
                identifier,
                idx,
            ),
    {
        proof {
            lemma_sent_nothing(out@);
        }
        match &self.state {
            MbxWriteReadState::MailboxFull(m) => m.start(
                write_mbx,
                read_mbx,
                configured_addr,
                identifier,
                idx,
                out,
            ),
            MbxWriteReadState::WriteRead { .. } => {},
        }
    }

    /// What is sent when both mailboxes have come to rest: the poll for the
    /// reply, then the service itself.
    pub open spec fn spec_exchange(
        self,
        write_mbx: Mailbox,
        read_mbx: Mailbox,
        configured_addr: u16,
        tag: u8,
        idx: u16,
    ) -> Seq<Request> {
        status_poll(read_mbx, configured_addr, idx, spec_retag(TAG_FIRST, tag)) + service_write(
            write_mbx,
            configured_addr,
            idx,
            Some(spec_retag(TAG_SECOND, tag)),
            self.req,
        )
    }

    /// One answer applied to the exchange. While the mailboxes are brought to
    /// rest the answer goes to that stage, and its end starts the exchange
    /// proper. After that the role in the tag tells the acknowledgement of the
    /// write from the answers of the reply path; the reply itself is checked
    /// against the request and its headers are returned.
    pub open spec fn spec_update(
        self,
        data: Seq<u8>,
        write_mbx: Mailbox,
        read_mbx: Mailbox,
        configured_addr: u16,
        identifier: Option<u8>,
        idx: u16,
    ) -> Step<Self, Option<SdoReply>> {
        match self.state {
            MbxWriteReadState::MailboxFull(m) => {
                let inner = m.spec_update(
                    data,
                    write_mbx,
                    read_mbx,
                    configured_addr,
                    identifier,
                    idx,
                );
                match inner.result {
                    Err(e) => failed(self, e),
                    Ok(false) => Step {
                        next: MbxWriteRead {
                            state: MbxWriteReadState::MailboxFull(inner.next),
                            ..self
                        },
                        sent: inner.sent,
                        result: Ok(None),
                    },
                    Ok(true) => Step {
                        next: MbxWriteRead {
                            state: MbxWriteReadState::WriteRead {
                                write: CoeWrite::Sent,
                                read: CoeRead::Empty,
                            },
                            ..self
                        },
                        sent: inner.sent + self.spec_exchange(
                            write_mbx,
                            read_mbx,
                            configured_addr,
                            identifier->0,
                            idx,
                        ),
                        result: Ok(None),
                    },
                }
            },
            MbxWriteReadState::WriteRead { write, read } => match identifier {
                None => failed(self, Error::WireCodec),
                Some(tag) => if spec_role(tag) == TAG_SECOND {
                    quiet(
                        MbxWriteRead {
                            state: MbxWriteReadState::WriteRead { write: CoeWrite::Received, read },
                            ..self
                        },
                        None,
                    )
                } else if spec_role(tag) == TAG_FIRST {
                    let inner = read.spec_update(data, read_mbx, configured_addr, tag, idx);
                    match inner.result {
                        Err(e) => failed(self, e),
                        Ok(false) => Step {
                            next: MbxWriteRead {
                                state: MbxWriteReadState::WriteRead { write, read: inner.next },
                                ..self
                            },
                            sent: inner.sent,
                            result: Ok(None),
                        },
                        Ok(true) => match SdoReply::spec_parse(data, self.req) {
                            Err(e) => failed(self, e),
                            Ok(reply) => quiet(self, Some(reply)),
                        },
                    }
                } else {
                    failed(self, Error::WireCodec)
                },
            },
        }
    }

    /// Applies one answer; `Ok(Some(..))` with the headers of the reply when
    /// `received` is the reply, whose payload follows its first twelve bytes.
    pub fn update(
        &mut self,
        received: &[u8],
        write_mbx: &Mailbox,
        read_mbx: &Mailbox,
        configured_addr: u16,
        identifier: Option<u8>,
        idx: u16,
        out: &mut Vec<Request>,
    ) -> (r: Result<Option<SdoReply>, Error>)
        ensures
            ({
                let step = old(self).spec_update(
                    received@,
                    *write_mbx,
                    *read_mbx,
                    configured_addr,
                    identifier,
                    idx,
                );
                &&& *final(self) == step.next
                &&& final(out)@ == old(out)@ + step.sent
                &&& r == step.result
            }),
    {
        proof {
            lemma_sent_nothing(out@);
        }
        match self.state {
            MbxWriteReadState::MailboxFull(m) => {
                let mut rest = m;
                let ready = rest.update(
                    received,
                    write_mbx,
                    read_mbx,
                    configured_addr,
                    identifier,
                    idx,
                    out,
                )?;
                if !ready {
                    self.state = MbxWriteReadState::MailboxFull(rest);
                    return Ok(None);
                }
                let tag = match identifier {
                    Some(t) => t,
                    None => {
                        return Err(Error::WireCodec);
                    },
                };
                let ghost first = out@;
                let read = CoeRead::new();
                let write = CoeWrite::new();
                read.start(read_mbx, configured_addr, idx, retag(TAG_FIRST, tag), out);
                write.start(
                    write_mbx,
                    configured_addr,
                    idx,
                    Some(retag(TAG_SECOND, tag)),
                    self.req,
                    out,
                );
                self.state = MbxWriteReadState::WriteRead { write, read };
                proof {
                    let poll = status_poll(*read_mbx, configured_addr, idx, spec_retag(TAG_FIRST, tag));
                    let service = service_write(
                        *write_mbx,
                        configured_addr,
                        idx,
                        Some(spec_retag(TAG_SECOND, tag)),
                        self.req,
                    );
                    lemma_sent_both(first, poll, service);
                    lemma_sent_both(
                        old(out)@,
                        m.spec_update(
                            received@,
                            *write_mbx,
                            *read_mbx,
                            configured_addr,
                            identifier,
                            idx,
                        ).sent,
                        poll + service,
                    );
                }
                Ok(None)
            },
            MbxWriteReadState::WriteRead { write, read } => {
                let tag = match identifier {
                    Some(t) => t,
                    None => {
                        return Err(Error::WireCodec);
                    },
                };
                if role(tag) == TAG_SECOND {
                    let mut w = write;
                    w.update();
                    self.state = MbxWriteReadState::WriteRead { write: w, read };
                    Ok(None)
                } else if role(tag) == TAG_FIRST {
                    let mut reply_path = read;
                    let ready = reply_path.update(
                        received,
                        read_mbx,
                        configured_addr,
                        tag,
                        idx,
                        out,
                    )?;
                    if !ready {
                        self.state = MbxWriteReadState::WriteRead { write, read: reply_path };
                        return Ok(None);
                    }
                    let reply = SdoReply::parse(received, &self.req)?;
                    Ok(Some(reply))
                } else {
                    Err(Error::WireCodec)
                }
            },
        }
    }
}

} // verus!
