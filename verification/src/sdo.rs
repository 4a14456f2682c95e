//! SDO access over the mailbox transport: the upload of an object and the
//! expedited download of up to four bytes.

use crate::error::Error;
use crate::mbx::{MbxWriteRead, SdoReply, SDO_HEADERS_LEN};
use crate::request::{failed, lemma_sent_nothing, quiet, CoeRequest, Request, Step, SubIndex};
use crate::subdevice::{Mailbox, SubDevice};
use crate::wire::{le_u16, le_u32, read_u32};
use ethercrab::EtherCrabWireWrite;
use vstd::prelude::*;

verus! {

/// The kinds of value that fit an expedited transfer.
#[derive(Clone, Copy, Debug, PartialEq, Eq, Structural)]
pub enum SdoKind {
    U8,
    U16,
    U32,
    I8,
    I16,
    I32,
}

impl SdoKind {
    /// Number of bytes of a value of the kind.
    pub open spec fn spec_len(self) -> u8 {
        match self {
            SdoKind::U8 | SdoKind::I8 => 1,
            SdoKind::U16 | SdoKind::I16 => 2,
            SdoKind::U32 | SdoKind::I32 => 4,
        }
    }

    pub fn len(&self) -> (n: u8)
        ensures
            n == self.spec_len(),
    {
        match self {
            SdoKind::U8 | SdoKind::I8 => 1,
            SdoKind::U16 | SdoKind::I16 => 2,
            SdoKind::U32 | SdoKind::I32 => 4,
        }
    }
}

/// A value that fits an expedited transfer.
#[derive(Clone, Copy, Debug, PartialEq, Eq, Structural)]
pub enum SdoValue {
    U8(u8),
    U16(u16),
    U32(u32),
    I8(i8),
    I16(i16),
    I32(i32),
}

/// The byte that stands for `v` in two's complement.
pub open spec fn unsigned8(v: i8) -> u8 {
    if v >= 0 {
        v as u8
    } else {
        (v + 0x100) as u8
    }
}

/// The number that the byte `b` stands for in two's complement.
pub open spec fn signed8(b: u8) -> i8 {
    if b < 0x80 {
        b as i8
    } else {
        (b - 0x100) as i8
    }
}

/// The two bytes, as one number, that stand for `v` in two's complement.
pub open spec fn unsigned16(v: i16) -> u16 {
    if v >= 0 {
        v as u16
    } else {
        (v + 0x1_0000) as u16
    }
}

/// The number that `b` stands for in two's complement.
pub open spec fn signed16(b: u16) -> i16 {
    if b < 0x8000 {
        b as i16
    } else {
        (b - 0x1_0000) as i16
    }
}

/// The four bytes, as one number, that stand for `v` in two's complement.
pub open spec fn unsigned32(v: i32) -> u32 {
    if v >= 0 {
        v as u32
    } else {
        (v + 0x1_0000_0000) as u32
    }
}

/// The number that `b` stands for in two's complement.
pub open spec fn signed32(b: u32) -> i32 {
    if b < 0x8000_0000 {
        b as i32
    } else {
        (b - 0x1_0000_0000) as i32
    }
}

fn to_unsigned8(v: i8) -> (b: u8)
    ensures
        b == unsigned8(v),
{
    if v >= 0 {
        v as u8
    } else {
        (v as i16 + 0x100) as u8
    }
}

fn to_signed8(b: u8) -> (v: i8)
    ensures
        v == signed8(b),
{
    if b < 0x80 {
        b as i8
    } else {
        (b as i16 - 0x100) as i8
    }
}

fn to_unsigned16(v: i16) -> (b: u16)
    ensures
        b == unsigned16(v),
{
    if v >= 0 {
        v as u16
    } else {
        (v as i32 + 0x1_0000) as u16
    }
}

fn to_signed16(b: u16) -> (v: i16)
    ensures
        v == signed16(b),
{
    if b < 0x8000 {
        b as i16
    } else {
        (b as i32 - 0x1_0000) as i16
    }
}

fn to_unsigned32(v: i32) -> (b: u32)
    ensures
        b == unsigned32(v),
{
    if v >= 0 {
        v as u32
    } else {
        (v as i64 + 0x1_0000_0000) as u32
    }
}

fn to_signed32(b: u32) -> (v: i32)
    ensures
        v == signed32(b),
{
    if b < 0x8000_0000 {
        b as i32
    } else {
        (b as i64 - 0x1_0000_0000) as i32
    }
}

/// The four bytes of `v`, lowest first.
pub open spec fn le_bytes(v: u32) -> Seq<u8> {
    seq![
        (v & 0xff) as u8,
        ((v >> 8) & 0xff) as u8,
        ((v >> 16) & 0xff) as u8,
        ((v >> 24) & 0xff) as u8,
    ]
}

/// `u32::pack_to_slice` of ethercrab's wire layer into a buffer of four
/// bytes: the number in little-endian order.
#[verifier::external_body]
fn pack_u32(v: u32) -> (b: [u8; 4])
    ensures
        b@ == le_bytes(v),
{
    let mut b = [0u8; 4];
    let _ = v.pack_to_slice(&mut b);
    b
}

impl SdoValue {
    /// The kind of the value.
    pub open spec fn spec_kind(self) -> SdoKind {
        match self {
            SdoValue::U8(_) => SdoKind::U8,
            SdoValue::U16(_) => SdoKind::U16,
            SdoValue::U32(_) => SdoKind::U32,
            SdoValue::I8(_) => SdoKind::I8,
            SdoValue::I16(_) => SdoKind::I16,
            SdoValue::I32(_) => SdoKind::I32,
        }
    }

    pub fn kind(&self) -> (k: SdoKind)
        ensures
            k == self.spec_kind(),
    {
        match self {
            SdoValue::U8(_) => SdoKind::U8,
            SdoValue::U16(_) => SdoKind::U16,
            SdoValue::U32(_) => SdoKind::U32,
            SdoValue::I8(_) => SdoKind::I8,
            SdoValue::I16(_) => SdoKind::I16,
            SdoValue::I32(_) => SdoKind::I32,
        }
    }

    /// Number of bytes of the value.
    pub open spec fn spec_len(self) -> u8 {
        self.spec_kind().spec_len()
    }

    pub fn len(&self) -> (n: u8)
        ensures
            n == self.spec_len(),
    {
        self.kind().len()
    }

    /// The value as an unsigned number: a signed value in two's complement
    /// of its own width.
    pub open spec fn spec_number(self) -> u32 {
        match self {
            SdoValue::U8(v) => v as u32,
            SdoValue::U16(v) => v as u32,
            SdoValue::U32(v) => v,
            SdoValue::I8(v) => unsigned8(v) as u32,
            SdoValue::I16(v) => unsigned16(v) as u32,
            SdoValue::I32(v) => unsigned32(v),
        }
    }

    /// The value in little-endian order, zero-padded to four bytes.
    pub fn pack(&self) -> (b: [u8; 4])
        ensures
            b@ == le_bytes(self.spec_number()),
    {
        match self {
            SdoValue::U8(v) => pack_u32(*v as u32),
            SdoValue::U16(v) => pack_u32(*v as u32),
            SdoValue::U32(v) => pack_u32(*v),
            SdoValue::I8(v) => pack_u32(to_unsigned8(*v) as u32),
            SdoValue::I16(v) => pack_u32(to_unsigned16(*v) as u32),
            SdoValue::I32(v) => pack_u32(to_unsigned32(*v)),
        }
    }

    /// The value of kind `kind` that `payload` holds in little-endian order:
    /// the payload must be as long as the kind.
    pub open spec fn spec_read(payload: Seq<u8>, kind: SdoKind) -> Option<SdoValue> {
        if payload.len() != kind.spec_len() {
            None
        } else {
            Some(
                match kind {
                    SdoKind::U8 => SdoValue::U8(payload[0]),
                    SdoKind::U16 => SdoValue::U16(le_u16(payload, 0)),
                    SdoKind::U32 => SdoValue::U32(le_u32(payload, 0)),
                    SdoKind::I8 => SdoValue::I8(signed8(payload[0])),
                    SdoKind::I16 => SdoValue::I16(signed16(le_u16(payload, 0))),
                    SdoKind::I32 => SdoValue::I32(signed32(le_u32(payload, 0))),
                },
            )
        }
    }

    /// Decodes the payload of an upload as a value of kind `kind`.
    pub fn read(payload: &[u8], kind: SdoKind) -> (r: Option<SdoValue>)
        ensures
            r == Self::spec_read(payload@, kind),
    {
        if payload.len() != kind.len() as usize {
            return None;
        }
        match kind {
            SdoKind::U8 => Some(SdoValue::U8(payload[0])),
            SdoKind::I8 => Some(SdoValue::I8(to_signed8(payload[0]))),
            SdoKind::U16 => match crate::wire::read_u16(payload, 0) {
                Ok(v) => Some(SdoValue::U16(v)),
                Err(_) => None,
            },
            SdoKind::I16 => match crate::wire::read_u16(payload, 0) {
                Ok(v) => Some(SdoValue::I16(to_signed16(v))),
                Err(_) => None,
            },
            SdoKind::U32 => match read_u32(payload, 0) {
                Ok(v) => Some(SdoValue::U32(v)),
                Err(_) => None,
            },
            SdoKind::I32 => match read_u32(payload, 0) {
                Ok(v) => Some(SdoValue::I32(to_signed32(v))),
                Err(_) => None,
            },
        }
    }

    /// The unsigned value of `len` bytes that `payload` holds in little-endian
    /// order.
    pub open spec fn spec_unpack(payload: Seq<u8>, len: u8) -> Option<SdoValue> {
        if payload.len() != len {
            None
        } else if len == 1 {
            Some(SdoValue::U8(payload[0]))
        } else if len == 2 {
            Some(SdoValue::U16(le_u16(payload, 0)))
        } else if len == 4 {
            Some(SdoValue::U32(le_u32(payload, 0)))
        } else {
            None
        }
    }

    /// Decodes the payload of an upload as an unsigned value of `len` bytes.
    pub fn unpack(payload: &[u8], len: u8) -> (r: Option<SdoValue>)
        ensures
            r == Self::spec_unpack(payload@, len),
    {
        if payload.len() != len as usize {
            None
        } else if len == 1 {
            Some(SdoValue::U8(payload[0]))
        } else if len == 2 {
            match crate::wire::read_u16(payload, 0) {
                Ok(v) => Some(SdoValue::U16(v)),
                Err(_) => None,
            }
        } else if len == 4 {
            match read_u32(payload, 0) {
                Ok(v) => Some(SdoValue::U32(v)),
                Err(_) => None,
            }
        } else {
            None
        }
    }
}

/// The upload request for an object.
pub open spec fn spec_upload(counter: u8, index: u16, sub_index: SubIndex) -> CoeRequest {
    CoeRequest { download: false, counter, index, sub_index, data: crate::eeprom::zeros::<4>(), len: 0 }
}

/// The expedited download request that writes `data` to an object.
pub open spec fn spec_download(
    counter: u8,
    index: u16,
    sub_index: SubIndex,
    data: [u8; 4],
    len: u8,
) -> CoeRequest {
    CoeRequest { download: true, counter, index, sub_index, data, len }
}

/// Where the payload of a reply lies within the mailbox content `data`: its
/// start and its length. An expedited reply holds `4 - size` bytes (none
/// where `size` is 4 or more) right behind the headers. A normal reply holds a four-byte total size and then
/// the data, whose length follows from the mailbox header; sizes that
/// disagree with what was received are rejected.
pub open spec fn spec_payload(reply: SdoReply, data: Seq<u8>) -> Result<(int, int), Error> {
    let body = data.len() - SDO_HEADERS_LEN;
    if body < 0 {
        Err(Error::WireCodec)
    } else if reply.expedited {
        let len = if reply.size >= 4 {
            0
        } else {
            4 - reply.size
        };
        if body < len {
            Err(Error::WireCodec)
        } else {
            Ok((SDO_HEADERS_LEN as int, len))
        }
    } else {
        let len = if reply.length >= 0x0a {
            reply.length - 0x0a
        } else {
            0
        };
        if body < 4 {
            Err(Error::WireCodec)
        } else {
            let size = le_u32(data, SDO_HEADERS_LEN as int);
            if size > body || size < len || body - 4 < len {
                Err(Error::WireCodec)
            } else {
                Ok((SDO_HEADERS_LEN + 4, len))
            }
        }
    }
}

/// Finds the payload of a reply; see [`spec_payload`].
pub fn payload(reply: &SdoReply, data: &[u8]) -> (r: Result<(usize, usize), Error>)
    ensures
        match spec_payload(*reply, data@) {
            Ok((at, len)) => r == Ok::<(usize, usize), Error>((at as usize, len as usize)) && at
                + len <= data@.len(),
            Err(e) => r == Err::<(usize, usize), Error>(e),
        },
{
    if data.len() < SDO_HEADERS_LEN {
        return Err(Error::WireCodec);
    }
    let body = data.len() - SDO_HEADERS_LEN;
    if reply.expedited {
        let len: usize = if reply.size >= 4 {
            0
        } else {
            (4 - reply.size) as usize
        };
        if body < len {
            return Err(Error::WireCodec);
        }
        Ok((SDO_HEADERS_LEN, len))
    } else {
        let len: usize = if reply.length >= 0x0a {
            (reply.length - 0x0a) as usize
        } else {
            0
        };
        if body < 4 {
            return Err(Error::WireCodec);
        }
        let size = read_u32(data, SDO_HEADERS_LEN)?;
        if size as u64 > body as u64 || (size as u64) < len as u64 || body - 4 < len {
            return Err(Error::WireCodec);
        }
        Ok((SDO_HEADERS_LEN + 4, len))
    }
}

/// The upload of one object.
#[derive(Clone, Copy, Debug, PartialEq, Eq)]
pub struct SdoRead {
    pub inner: MbxWriteRead,
    pub finished: bool,
}

impl SdoRead {
    pub fn finished(&self) -> (f: bool)
        ensures
            f == self.finished,
    {
        self.finished
    }

    pub open spec fn spec_new(mailbox_count: u8, index: u16, subindex: SubIndex) -> Self {
        SdoRead {
            inner: MbxWriteRead::spec_new(spec_upload(mailbox_count, index, subindex)),
            finished: false,
        }
    }

    pub fn new(mailbox_count: u8, index: u16, subindex: SubIndex) -> (s: Self)
        ensures
            s == Self::spec_new(mailbox_count, index, subindex),
    {
        let req = CoeRequest {
            download: false,
            counter: mailbox_count,
            index,
            sub_index: subindex,
            data: crate::eeprom::zeroed::<4>(),
            len: 0,
        };
        SdoRead { inner: MbxWriteRead::new(req), finished: false }
    }

    /// Begins the upload; `identifier` is the caller's own tag.
    pub fn start(
        &self,
        write_mbx: &Mailbox,
        read_mbx: &Mailbox,
        configured_addr: u16,
        identifier: Option<u8>,
        idx: u16,
        out: &mut Vec<Request>,
    )
        ensures
            final(out)@ == old(out)@ + self.inner.spec_start(
                *write_mbx,
                *read_mbx,
                configured_addr,
                identifier,
                idx,
            ),
    {
        self.inner.start(write_mbx, read_mbx, configured_addr, identifier, idx, out);
    }

    /// One answer applied to the upload. The result is the place of the
    /// object's data within the answer, `(start, length)`, once the reply has
    /// come; from then on the upload counts as finished.
    pub open spec fn spec_update(
        self,
        data: Seq<u8>,
        write_mbx: Mailbox,
        read_mbx: Mailbox,
        configured_addr: u16,
        identifier: Option<u8>,
        idx: u16,
    ) -> Step<Self, Option<(int, int)>> {
        let inner = self.inner.spec_update(
            data,
            write_mbx,
            read_mbx,
            configured_addr,
            identifier,
            idx,
        );
        match inner.result {
            Err(e) => failed(self, e),
            Ok(None) => Step {
                next: SdoRead { inner: inner.next, ..self },
                sent: inner.sent,
                result: Ok(None),
            },
            Ok(Some(reply)) => match spec_payload(reply, data) {
                Err(e) => failed(self, e),
                Ok(place) => quiet(SdoRead { inner: inner.next, finished: true }, Some(place)),
            },
        }
    }

    /// Applies one answer and hands out the headers of the reply, once it has
    /// come, without looking for the object's data.
    pub fn update_raw(
        &mut self,
        received: &[u8],
        write_mbx: &Mailbox,
        read_mbx: &Mailbox,
        configured_addr: u16,
        identifier: Option<u8>,
        idx: u16,
        out: &mut Vec<Request>,
    ) -> (r: Result<Option<SdoReply>, Error>)
        ensures
            ({
                let step = old(self).inner.spec_update(
                    received@,
                    *write_mbx,
                    *read_mbx,
                    configured_addr,
                    identifier,
                    idx,
                );
                &&& *final(self) == (SdoRead { inner: step.next, ..*old(self) })
                &&& final(out)@ == old(out)@ + step.sent
                &&& r == step.result
            }),
    {
        self.inner.update(received, write_mbx, read_mbx, configured_addr, identifier, idx, out)
    }

    /// Applies one answer; `Ok(Some((start, length)))` when `received` is the
    /// reply and holds the object's data at that place.
    pub fn update(
        &mut self,
        received: &[u8],
        write_mbx: &Mailbox,
        read_mbx: &Mailbox,
        configured_addr: u16,
        identifier: Option<u8>,
        idx: u16,
        out: &mut Vec<Request>,
    ) -> (r: Result<Option<(usize, usize)>, Error>)
        ensures
            ({
                let step = old(self).spec_update(
                    received@,
                    *write_mbx,
                    *read_mbx,
                    configured_addr,
                    identifier,
                    idx,
                );
                &&& *final(self) == step.next
                &&& final(out)@ == old(out)@ + step.sent
                &&& match step.result {
                    Err(e) => r == Err::<Option<(usize, usize)>, Error>(e),
                    Ok(None) => r == Ok::<Option<(usize, usize)>, Error>(None),
                    Ok(Some((at, len))) => r == Ok::<Option<(usize, usize)>, Error>(
                        Some((at as usize, len as usize)),
                    ) && at + len <= received@.len(),
                }
            }),
    {
        proof {
            lemma_sent_nothing(out@);
        }
        let mut exchange = self.inner;
        match exchange.update(received, write_mbx, read_mbx, configured_addr, identifier, idx, out)? {
            None => {
                self.inner = exchange;
                Ok(None)
            },
            Some(reply) => {
                let place = payload(&reply, received)?;
                self.inner = exchange;
                self.finished = true;
                Ok(Some(place))
            },
        }
    }
}

impl SdoRead {
    /// One answer applied to the upload of a value of kind `kind`. The
    /// result is the object's value, once the reply has come; a reply whose
    /// data is not as long as the kind is malformed.
    pub open spec fn spec_update_value(
        self,
        kind: SdoKind,
        data: Seq<u8>,
        write_mbx: Mailbox,
        read_mbx: Mailbox,
        configured_addr: u16,
        identifier: Option<u8>,
        idx: u16,
    ) -> Step<Self, Option<SdoValue>> {
        let step = self.spec_update(data, write_mbx, read_mbx, configured_addr, identifier, idx);
        match step.result {
            Err(e) => failed(self, e),
            Ok(None) => Step { next: step.next, sent: step.sent, result: Ok(None) },
            Ok(Some(place)) => match SdoValue::spec_read(payload_bytes(data, place), kind) {
                None => failed(self, Error::WireCodec),
                Some(value) => Step { next: step.next, sent: step.sent, result: Ok(Some(value)) },
            },
        }
    }

    /// Applies one answer; `Ok(Some(value))` when `received` is the reply and
    /// holds a value of kind `kind`.
    pub fn update_value(
        &mut self,
        kind: SdoKind,
        received: &[u8],
        write_mbx: &Mailbox,
        read_mbx: &Mailbox,
        configured_addr: u16,
        identifier: Option<u8>,
        idx: u16,
        out: &mut Vec<Request>,
    ) -> (r: Result<Option<SdoValue>, Error>)
        ensures
            ({
                let step = old(self).spec_update_value(
                    kind,
                    received@,
                    *write_mbx,
                    *read_mbx,
                    configured_addr,
                    identifier,
                    idx,
                );
                &&& *final(self) == step.next
                &&& final(out)@ == old(out)@ + step.sent
                &&& r == step.result
            }),
    {
        proof {
            lemma_sent_nothing(out@);
        }
        let before = *self;
        match self.update(received, write_mbx, read_mbx, configured_addr, identifier, idx, out)? {
            None => Ok(None),
            Some((at, len)) => {
                let bytes = vstd::slice::slice_subrange(received, at, at + len);
                match SdoValue::read(bytes, kind) {
                    Some(value) => Ok(Some(value)),
                    None => {
                        *self = before;
                        Err(Error::WireCodec)
                    },
                }
            },
        }
    }
}

/// The expedited download of one value.
#[derive(Clone, Copy, Debug, PartialEq, Eq)]
pub struct SdoWrite {
    pub inner: MbxWriteRead,
}

impl SdoWrite {
    /// The download of `value`, tagged with the counter `counter`.
    pub open spec fn spec_new(counter: u8, index: u16, subindex: SubIndex, value: SdoValue) -> Self {
        SdoWrite {
            inner: MbxWriteRead::spec_new(
                spec_download(
                    counter,
                    index,
                    subindex,
                    crate::list::array_of::<u8, 4>(le_bytes(value.spec_number())),
                    value.spec_len(),
                ),
            ),
        }
    }

    /// Prepares the download of `value` to the object `index`, `subindex`
    /// of `subdev`, and takes the device's next mailbox counter for it.
    pub fn new(subdev: &mut SubDevice, index: u16, subindex: SubIndex, value: SdoValue) -> (s: Self)
        ensures
            s == Self::spec_new(old(subdev).mailbox_counter, index, subindex, value),
            *final(subdev) == (SubDevice {
                mailbox_counter: SubDevice::next_counter(old(subdev).mailbox_counter),
                ..*old(subdev)
            }),
    {
        let data = value.pack();
        proof {
            crate::list::lemma_array_of(data);
        }
        let req = CoeRequest {
            download: true,
            counter: subdev.mailbox_counter(),
            index,
            sub_index: subindex,
            data,
            len: value.len(),
        };
        SdoWrite { inner: MbxWriteRead::new(req) }
    }

    /// Begins the download; `identifier` is the caller's own tag.
    pub fn start(
        &self,
        write_mbx: &Mailbox,
        read_mbx: &Mailbox,
        configured_addr: u16,
        identifier: Option<u8>,
        idx: u16,
        out: &mut Vec<Request>,
    )
        ensures
            final(out)@ == old(out)@ + self.inner.spec_start(
                *write_mbx,
                *read_mbx,
                configured_addr,
                identifier,
                idx,
            ),
    {
        self.inner.start(write_mbx, read_mbx, configured_addr, identifier, idx, out);
    }

    /// One answer applied to the download; `true` when the device has
    /// confirmed it.
    pub open spec fn spec_update(
        self,
        data: Seq<u8>,
        write_mbx: Mailbox,
        read_mbx: Mailbox,
        configured_addr: u16,
        identifier: Option<u8>,
        idx: u16,
    ) -> Step<Self, bool> {
        let inner = self.inner.spec_update(
            data,
            write_mbx,
            read_mbx,
            configured_addr,
            identifier,
            idx,
        );
        match inner.result {
            Err(e) => failed(self, e),
            Ok(reply) => Step {
                next: SdoWrite { inner: inner.next },
                sent: inner.sent,
                result: Ok(reply is Some),
            },
        }
    }

    pub fn update(
        &mut self,
        received: &[u8],
        write_mbx: &Mailbox,
        read_mbx: &Mailbox,
        configured_addr: u16,
        identifier: Option<u8>,
        idx: u16,
        out: &mut Vec<Request>,
    ) -> (r: Result<bool, Error>)
        ensures
            ({
                let step = old(self).spec_update(
                    received@,
                    *write_mbx,
                    *read_mbx,
                    configured_addr,
                    identifier,
                    idx,
                );
                &&& *final(self) == step.next
                &&& final(out)@ == old(out)@ + step.sent
                &&& r == step.result
            }),
    {
        let reply = self.inner.update(
            received,
            write_mbx,
            read_mbx,
            configured_addr,
            identifier,
            idx,
            out,
        )?;
        Ok(reply.is_some())
    }
}

/// The bytes of an SDO reply's payload, given its place.
pub open spec fn payload_bytes(data: Seq<u8>, place: (int, int)) -> Seq<u8> {
    data.subrange(place.0, place.0 + place.1)
}

/// An expedited read gives back what an expedited write stored. A device that
/// keeps the bytes of a download and answers an upload of the same object
/// with an expedited reply of as many bytes, returns a payload that decodes
/// to the value that was written.
pub proof fn law_expedited_round_trip(value: SdoValue, counter: u8, index: u16, subindex: SubIndex, reply: Seq<u8>)
    requires
        reply.len() >= SDO_HEADERS_LEN + 4,
        SdoReply::spec_parse(reply, spec_upload(counter, index, subindex)) matches Ok(headers)
            && headers.expedited && headers.size == 4 - value.spec_len(),
        reply.subrange(SDO_HEADERS_LEN as int, SDO_HEADERS_LEN + 4) == SdoWrite::spec_new(
            counter,
            index,
            subindex,
            value,
        ).inner.req.data@,
    ensures
        spec_payload(
            SdoReply::spec_parse(reply, spec_upload(counter, index, subindex))->Ok_0,
            reply,
        ) matches Ok(place) && SdoValue::spec_read(payload_bytes(reply, place), value.spec_kind())
            == Some(value),
{
    let headers = SdoReply::spec_parse(reply, spec_upload(counter, index, subindex))->Ok_0;
    let stored = SdoWrite::spec_new(counter, index, subindex, value).inner.req.data;
    let number = value.spec_number();
    let packed = le_bytes(number);
    assert(stored@ == packed) by {
        lemma_packed_is_array(number);
    }
    let place = (SDO_HEADERS_LEN as int, value.spec_len() as int);
    assert(spec_payload(headers, reply) == Ok::<(int, int), Error>(place));
    let bytes = payload_bytes(reply, place);
    assert(bytes =~= packed.take(value.spec_len() as int));
    assert(bytes.len() == value.spec_len());
    lemma_le_round_trip(number);
    match value {
        SdoValue::U8(v) => {
            assert(bytes[0] == packed[0]);
            assert(v as u32 & 0xff == v as u32) by (bit_vector);
        },
        SdoValue::U16(v) => {
            assert(bytes[0] == packed[0] && bytes[1] == packed[1]);
            let n = v as u32;
            assert(n <= 0xffff ==> (((n & 0xff) as u8) as u16) | ((((n >> 8) & 0xff) as u8) as u16)
                << 8 == n) by (bit_vector);
        },
        SdoValue::U32(v) => {
            assert(bytes =~= packed);
        },
        SdoValue::I8(v) => {
            assert(bytes[0] == packed[0]);
            let n = unsigned8(v) as u32;
            assert(n <= 0xff ==> (n & 0xff) as u8 == n) by (bit_vector);
        },
        SdoValue::I16(v) => {
            assert(bytes[0] == packed[0] && bytes[1] == packed[1]);
            let n = unsigned16(v) as u32;
            assert(n <= 0xffff ==> (((n & 0xff) as u8) as u16) | ((((n >> 8) & 0xff) as u8) as u16)
                << 8 == n) by (bit_vector);
        },
        SdoValue::I32(v) => {
            assert(bytes =~= packed);
        },
    }
}

/// Four bytes are the contents of some array of four bytes.
proof fn lemma_packed_is_array(v: u32)
    ensures
        crate::list::array_of::<u8, 4>(le_bytes(v))@ == le_bytes(v),
{
    let b = le_bytes(v);
    let a: [u8; 4] = [b[0], b[1], b[2], b[3]];
    assert(a@ =~= b);
}

/// Reading the little-endian bytes of a number gives the number.
proof fn lemma_le_round_trip(v: u32)
    ensures
        le_u32(le_bytes(v), 0) == v,
{
    assert((((v & 0xff) as u8) as u32) | ((((v >> 8) & 0xff) as u8) as u32) << 8 | ((((v >> 16)
        & 0xff) as u8) as u32) << 16 | ((((v >> 24) & 0xff) as u8) as u32) << 24 == v)
        by (bit_vector);
}

} // verus!
