//! Readers of a sub-device's EEPROM. The EEPROM is read a few bytes at a time
//! through a register protocol: ask for a word address, poll until the
//! interface is no longer busy, fetch the data. On top of that cycle stand a
//! reader of byte ranges, a scanner of the category list and a walker of the
//! string table.

use crate::error::Error;
use crate::list::{array_of, lemma_array_of};
use crate::request::{send, Pdu, Request, Step};
use crate::wire::{le_u16, read_u16, CategoryType, SiiControl};
use vstd::prelude::*;

verus! {

/// A region of the EEPROM: the word address at which it starts, whether it
/// starts at the second byte of that word rather than at the first, and its
/// length in bytes. Its first byte is byte `2 * start + (odd ? 1 : 0)` of the
/// EEPROM.
#[derive(Clone, Copy, Debug, PartialEq, Eq, Structural)]
pub struct Found {
    pub start: u16,
    pub odd: bool,
    pub len: u16,
}

impl Found {
    /// The byte address of the region's first byte.
    pub open spec fn spec_first_byte(self) -> int {
        2 * self.start + if self.odd {
            1int
        } else {
            0int
        }
    }
}


/// `buf` with `src` written over it from index `at` on.
pub open spec fn overwrite(buf: Seq<u8>, at: int, src: Seq<u8>) -> Seq<u8> {
    Seq::new(
        buf.len(),
        |i: int|
            if at <= i < at + src.len() {
                src[i - at]
            } else {
                buf[i]
            },
    )
}

/// Copies `count` bytes of `src`, from `from` on, into `buf` at `at`.
fn copy_into<const N: usize>(
    buf: &mut [u8; N],
    at: usize,
    src: &[u8],
    from: usize,
    count: usize,
)
    requires
        at + count <= N,
        from + count <= src@.len(),
    ensures
        final(buf)@ == overwrite(old(buf)@, at as int, src@.subrange(from as int, from + count)),
{
    let n = src.len();
    let mut i: usize = 0;
    while i < count
        invariant
            i <= count,
            at + count <= N,
            n == src@.len(),
            from + count <= n,
            buf@ == overwrite(old(buf)@, at as int, src@.subrange(from as int, from + i)),
        decreases count - i,
    {
        let b = src[from + i];
        buf[at + i] = b;
        i = i + 1;
        assert(buf@ =~= overwrite(old(buf)@, at as int, src@.subrange(from as int, from + i)));
    }
}

/// The register cycle that reads one chunk of the EEPROM.
#[derive(Clone, Copy, Debug, PartialEq, Eq, Structural)]
pub enum RegisterReadState {
    /// The read request is on the wire.
    RequestRead,
    /// The interface is being polled.
    WaitForDevice,
    /// The data fetch is on the wire; its answer carries the chunk.
    ReadData,
}

/// A request of the register cycle, tagged for the device and the reader.
pub open spec fn eeprom_request(pdu: Pdu, idx: u16, identifier: u8) -> Seq<Request> {
    seq![Request { pdu, index: Some(idx), identifier: Some(identifier) }]
}

impl RegisterReadState {
    /// Asks the device at `configured_addr` to read at word `start_addr`.
    pub fn start(
        &mut self,
        configured_addr: u16,
        start_addr: u16,
        idx: u16,
        identifier: u8,
        out: &mut Vec<Request>,
    )
        ensures
            *final(self) == RegisterReadState::RequestRead,
            final(out)@ == old(out)@ + eeprom_request(
                Pdu::ReadEepromChunk { address: configured_addr, start: start_addr },
                idx,
                identifier,
            ),
    {
        let pdu = Pdu::ReadEepromChunk { address: configured_addr, start: start_addr };
        send(out, pdu, Some(idx), Some(identifier));
        *self = RegisterReadState::RequestRead;
        assert(out@ =~= old(out)@ + eeprom_request(pdu, idx, identifier));
    }

    /// One answer applied to the cycle. The answer to the request starts the
    /// polling; a poll that finds the interface busy is repeated, one that
    /// finds it free fetches the data; the answer to the fetch is the chunk,
    /// which is reported by `true`.
    pub open spec fn spec_update(
        self,
        data: Seq<u8>,
        configured_addr: u16,
        idx: u16,
        identifier: u8,
    ) -> Step<RegisterReadState, bool> {
        let wait = eeprom_request(
            Pdu::WaitForEepromChunk { address: configured_addr },
            idx,
            identifier,
        );
        match self {
            RegisterReadState::RequestRead => Step {
                next: RegisterReadState::WaitForDevice,
                sent: wait,
                result: Ok(false),
            },
            RegisterReadState::WaitForDevice => match SiiControl::spec_decode(data) {
                Err(e) => Step { next: self, sent: seq![], result: Err(e) },
                Ok(ctrl) => if ctrl.busy {
                    Step { next: self, sent: wait, result: Ok(false) }
                } else {
                    Step {
                        next: RegisterReadState::ReadData,
                        sent: eeprom_request(
                            Pdu::ReadEepromData { address: configured_addr, len: ctrl.read_len },
                            idx,
                            identifier,
                        ),
                        result: Ok(false),
                    }
                },
            },
            RegisterReadState::ReadData => Step { next: self, sent: seq![], result: Ok(true) },
        }
    }

    /// Applies one answer; `Ok(true)` when `received` is the chunk itself.
    pub fn update(
        &mut self,
        received: &[u8],
        configured_addr: u16,
        idx: u16,
        identifier: u8,
        out: &mut Vec<Request>,
    ) -> (r: Result<bool, Error>)
        ensures
            *final(self) == old(self).spec_update(received@, configured_addr, idx, identifier).next,
            final(out)@ == old(out)@ + old(self).spec_update(
                received@,
                configured_addr,
                idx,
                identifier,
            ).sent,
            r == old(self).spec_update(received@, configured_addr, idx, identifier).result,
    {
        let ghost step = old(self).spec_update(received@, configured_addr, idx, identifier);
        match self {
            RegisterReadState::RequestRead => {
                send(
                    out,
                    Pdu::WaitForEepromChunk { address: configured_addr },
                    Some(idx),
                    Some(identifier),
                );
                *self = RegisterReadState::WaitForDevice;
                assert(out@ =~= old(out)@ + step.sent);
                Ok(false)
            },
            RegisterReadState::WaitForDevice => {
                let ctrl = match SiiControl::decode(received) {
                    Ok(c) => c,
                    Err(e) => {
                        assert(out@ =~= old(out)@ + step.sent);
                        return Err(e);
                    },
                };
                if ctrl.busy {
                    send(
                        out,
                        Pdu::WaitForEepromChunk { address: configured_addr },
                        Some(idx),
                        Some(identifier),
                    );
                } else {
                    *self = RegisterReadState::ReadData;
                    send(
                        out,
                        Pdu::ReadEepromData { address: configured_addr, len: ctrl.read_len },
                        Some(idx),
                        Some(identifier),
                    );
                }
                assert(out@ =~= old(out)@ + step.sent);
                Ok(false)
            },
            RegisterReadState::ReadData => {
                assert(out@ =~= old(out)@ + step.sent);
                Ok(true)
            },
        }
    }
}

/// Reads `len` bytes of the EEPROM into a buffer of `N` bytes, chunk by
/// chunk. The bytes begin in the word at `start`: at its first byte, or at
/// its second where `odd` is set. `offset` counts the bytes read so far; the
/// buffer is filled from `offset % N` on, so that a reader that is started
/// again after a full buffer fills it anew with what follows.
#[derive(Clone, Copy, Debug)]
pub struct RangeReader<const N: usize> {
    pub start: u16,
    pub odd: bool,
    pub offset: u16,
    pub len: u16,
    pub buffer: [u8; N],
    pub state: RegisterReadState,
    pub identifier: u8,
}

impl<const N: usize> RangeReader<N> {
    pub fn new(start: u16, len: u16, buffer: [u8; N], identifier: u8) -> (r: Self)
        ensures
            r == (RangeReader::<N> {
                start,
                odd: false,
                offset: 0,
                len,
                buffer,
                state: RegisterReadState::RequestRead,
                identifier,
            }),
    {
        RangeReader {
            start,
            odd: false,
            len,
            buffer,
            state: RegisterReadState::RequestRead,
            offset: 0,
            identifier,
        }
    }

    /// A reader for the region `found`, which may begin in the middle of a
    /// word.
    pub open spec fn spec_over(found: Found, buffer: [u8; N], identifier: u8) -> Self {
        RangeReader {
            start: found.start,
            odd: found.odd,
            offset: 0,
            len: found.len,
            buffer,
            state: RegisterReadState::RequestRead,
            identifier,
        }
    }

    pub fn over(found: Found, buffer: [u8; N], identifier: u8) -> (r: Self)
        ensures
            r == Self::spec_over(found, buffer, identifier),
    {
        RangeReader {
            start: found.start,
            odd: found.odd,
            len: found.len,
            buffer,
            state: RegisterReadState::RequestRead,
            offset: 0,
            identifier,
        }
    }

    /// How many bytes lie between the first byte of the word at `start` and
    /// the next byte to read.
    pub open spec fn spec_byte(self) -> int {
        self.offset + if self.odd {
            1int
        } else {
            0int
        }
    }

    /// The word address that the next chunk is read from.
    pub open spec fn spec_address(self) -> int {
        self.start + self.spec_byte() / 2
    }

    /// How many bytes at the head of the next chunk lie before the next byte
    /// to read.
    pub open spec fn spec_skip(self) -> int {
        self.spec_byte() % 2
    }

    fn byte(&self) -> (r: u32)
        ensures
            r == self.spec_byte(),
    {
        let lead: u32 = if self.odd {
            1
        } else {
            0
        };
        self.offset as u32 + lead
    }

    /// Starting (or continuing) the read: the chunk at the current word
    /// address is asked for. An address beyond the EEPROM's address space is
    /// an error.
    pub open spec fn spec_start(self, configured_addr: u16, idx: u16) -> Step<Self, ()> {
        if self.spec_address() > u16::MAX {
            Step { next: self, sent: seq![], result: Err(Error::WireCodec) }
        } else {
            Step {
                next: RangeReader { state: RegisterReadState::RequestRead, ..self },
                sent: eeprom_request(
                    Pdu::ReadEepromChunk {
                        address: configured_addr,
                        start: self.spec_address() as u16,
                    },
                    idx,
                    self.identifier,
                ),
                result: Ok(()),
            }
        }
    }

    pub fn start(&mut self, configured_addr: u16, idx: u16, out: &mut Vec<Request>) -> (r: Result<
        (),
        Error,
    >)
        ensures
            *final(self) == old(self).spec_start(configured_addr, idx).next,
            final(out)@ == old(out)@ + old(self).spec_start(configured_addr, idx).sent,
            r == old(self).spec_start(configured_addr, idx).result,
    {
        let half: u32 = self.byte() / 2;
        if half > (u16::MAX - self.start) as u32 {
            assert(out@ =~= old(out)@ + Seq::<Request>::empty());
            return Err(Error::WireCodec);
        }
        self.state.start(configured_addr, self.start + half as u16, idx, self.identifier, out);
        Ok(())
    }

    /// Index of the buffer at which the next chunk goes.
    pub open spec fn spec_lo(self) -> int {
        if N == 0 {
            0
        } else if (self.offset as int) % (N as int) < self.len {
            (self.offset as int) % (N as int)
        } else {
            self.len as int
        }
    }

    /// End of the part of the buffer that is to be filled.
    pub open spec fn spec_hi(self) -> int {
        if self.len <= N {
            self.len as int
        } else {
            N as int
        }
    }

    /// One answer applied to the reader. While the register cycle is under
    /// way the answer only moves it on. The answer that carries a chunk is
    /// copied into the buffer, leaving out its first byte where the offset is
    /// odd: if it fills the rest of the buffer the read is complete (`true`),
    /// otherwise the next chunk is asked for.
    pub open spec fn spec_update(self, data: Seq<u8>, configured_addr: u16, idx: u16) -> Step<
        Self,
        bool,
    > {
        let inner = self.state.spec_update(data, configured_addr, idx, self.identifier);
        let fail = Step::<Self, bool> { next: self, sent: seq![], result: Err(Error::WireCodec) };
        match inner.result {
            Err(e) => Step { next: self, sent: seq![], result: Err(e) },
            Ok(false) => Step {
                next: RangeReader { state: inner.next, ..self },
                sent: inner.sent,
                result: Ok(false),
            },
            Ok(true) => {
                let skip = self.spec_skip();
                if data.len() < skip {
                    fail
                } else {
                    let chunk = data.skip(skip);
                    let lo = self.spec_lo();
                    let room = self.spec_hi() - lo;
                    if room <= chunk.len() {
                        if self.offset + room > u16::MAX {
                            fail
                        } else {
                            Step {
                                next: RangeReader {
                                    offset: (self.offset + room) as u16,
                                    buffer: array_of(
                                        overwrite(self.buffer@, lo, chunk.take(room)),
                                    ),
                                    ..self
                                },
                                sent: seq![],
                                result: Ok(true),
                            }
                        }
                    } else {
                        if self.offset + chunk.len() > u16::MAX {
                            fail
                        } else {
                            let moved = RangeReader {
                                offset: (self.offset + chunk.len()) as u16,
                                buffer: array_of(overwrite(self.buffer@, lo, chunk)),
                                ..self
                            };
                            let again = moved.spec_start(configured_addr, idx);
                            if again.result is Err {
                                fail
                            } else {
                                Step { next: again.next, sent: again.sent, result: Ok(false) }
                            }
                        }
                    }
                }
            },
        }
    }

    /// Applies one answer; `Ok(true)` when the buffer holds the bytes asked for.
    pub fn update(
        &mut self,
        received: &[u8],
        configured_addr: u16,
        idx: u16,
        out: &mut Vec<Request>,
    ) -> (r: Result<bool, Error>)
        ensures
            *final(self) == old(self).spec_update(received@, configured_addr, idx).next,
            final(out)@ == old(out)@ + old(self).spec_update(received@, configured_addr, idx).sent,
            r == old(self).spec_update(received@, configured_addr, idx).result,
    {
        let ghost step = old(self).spec_update(received@, configured_addr, idx);
        let ghost before = *old(self);
        let mut cycle = self.state;
        let mut sent: Vec<Request> = Vec::new();
        match cycle.update(received, configured_addr, idx, self.identifier, &mut sent) {
            Err(e) => {
                assert(out@ =~= old(out)@ + step.sent);
                return Err(e);
            },
            Ok(false) => {
                self.state = cycle;
                out.append(&mut sent);
                assert(out@ =~= old(out)@ + step.sent);
                return Ok(false);
            },
            Ok(true) => {},
        }
        let skip: usize = (self.byte() % 2) as usize;
        if received.len() < skip {
            assert(out@ =~= old(out)@ + step.sent);
            return Err(Error::WireCodec);
        }
        let avail: usize = received.len() - skip;
        let len: usize = self.len as usize;
        let lo: usize = if N == 0 {
            0
        } else if (self.offset as usize) % N < len {
            (self.offset as usize) % N
        } else {
            len
        };
        let hi: usize = if len <= N {
            len
        } else {
            N
        };
        let room: usize = hi - lo;
        let ghost chunk = received@.skip(skip as int);
        if room <= avail {
            if room > (u16::MAX - self.offset) as usize {
                assert(out@ =~= old(out)@ + step.sent);
                return Err(Error::WireCodec);
            }
            copy_into(&mut self.buffer, lo, received, skip, room);
            self.offset = self.offset + room as u16;
            proof {
                assert(received@.subrange(skip as int, skip + room) =~= chunk.take(room as int));
                lemma_array_of(self.buffer);
                assert(out@ =~= old(out)@ + step.sent);
            }
            Ok(true)
        } else {
            if avail > (u16::MAX - self.offset) as usize {
                assert(out@ =~= old(out)@ + step.sent);
                return Err(Error::WireCodec);
            }
            let offset: u16 = self.offset + avail as u16;
            let lead: u32 = if self.odd {
                1
            } else {
                0
            };
            if (offset as u32 + lead) / 2 > (u16::MAX - self.start) as u32 {
                assert(out@ =~= old(out)@ + step.sent);
                return Err(Error::WireCodec);
            }
            copy_into(&mut self.buffer, lo, received, skip, avail);
            self.offset = offset;
            proof {
                assert(received@.subrange(skip as int, skip + avail) =~= chunk);
                lemma_array_of(self.buffer);
            }
            let _ = self.start(configured_addr, idx, out);
            Ok(false)
        }
    }
}

/// Word address of the first category of the EEPROM.
pub const SII_FIRST_CATEGORY_START: u16 = 0x0040;

/// Number of empty categories in a row after which a scan gives up.
pub const MAX_EMPTY_CATEGORIES: u16 = 32;

/// Scans the category list for one category type. Every category starts with
/// two words, its type and its length in words.
#[derive(Clone, Copy, Debug)]
pub struct CategoryReader {
    pub found: Option<Found>,
    pub state: RegisterReadState,
    /// Word address of the category header that is read next.
    pub addr: u16,
    pub category: CategoryType,
    /// Number of categories of length zero seen in a row.
    pub empty_category_count: u16,
    pub identifier: u8,
}

impl CategoryReader {
    /// A scan for `category` that begins at the first category.
    pub open spec fn spec_new(category: CategoryType, identifier: u8) -> Self {
        CategoryReader {
            found: None,
            state: RegisterReadState::RequestRead,
            addr: SII_FIRST_CATEGORY_START,
            category,
            empty_category_count: 0,
            identifier,
        }
    }

    pub fn new(category: CategoryType, identifier: u8) -> (r: Self)
        ensures
            r == Self::spec_new(category, identifier),
    {
        CategoryReader {
            found: None,
            state: RegisterReadState::RequestRead,
            addr: SII_FIRST_CATEGORY_START,
            category,
            empty_category_count: 0,
            identifier,
        }
    }

    /// Asks for the category header at the current address.
    pub fn start(&mut self, configured_addr: u16, idx: u16, out: &mut Vec<Request>)
        ensures
            *final(self) == (CategoryReader { state: RegisterReadState::RequestRead, ..*old(self) }),
            final(out)@ == old(out)@ + eeprom_request(
                Pdu::ReadEepromChunk { address: configured_addr, start: old(self).addr },
                idx,
                old(self).identifier,
            ),
    {
        self.state.start(configured_addr, self.addr, idx, self.identifier, out);
    }

    /// What a category header does to the scan, once the register cycle has
    /// delivered it. The scan ends without a find where the address space is
    /// used up, after 32 empty categories in a row, and at the end marker; it
    /// ends with a find at the category looked for; otherwise it moves on to
    /// the header behind the category's payload.
    pub open spec fn spec_header(self, data: Seq<u8>, configured_addr: u16, idx: u16) -> Step<
        Self,
        bool,
    > {
        let stop = Step::<Self, bool> {
            next: CategoryReader { found: None, ..self },
            sent: seq![],
            result: Ok(true),
        };
        if self.addr + 2 > u16::MAX {
            stop
        } else if data.len() < 4 {
            Step { next: self, sent: seq![], result: Err(Error::WireCodec) }
        } else {
            let ty = CategoryType::spec_from_u16(le_u16(data, 0));
            let len_words = le_u16(data, 2);
            let payload = (self.addr + 2) as u16;
            let empties = if len_words != 0 {
                0u16
            } else if self.empty_category_count < MAX_EMPTY_CATEGORIES {
                (self.empty_category_count + 1) as u16
            } else {
                MAX_EMPTY_CATEGORIES
            };
            let counted = CategoryReader { addr: payload, empty_category_count: empties, ..self };
            if empties >= MAX_EMPTY_CATEGORIES {
                Step { next: counted, sent: seq![], result: Ok(true) }
            } else if ty == self.category {
                if len_words * 2 > u16::MAX {
                    Step { next: self, sent: seq![], result: Err(Error::WireCodec) }
                } else {
                    Step {
                        next: CategoryReader {
                            found: Some(
                                Found { start: payload, odd: false, len: (len_words * 2) as u16 },
                            ),
                            ..counted
                        },
                        sent: seq![],
                        result: Ok(true),
                    }
                }
            } else if ty == CategoryType::End {
                Step { next: CategoryReader { found: None, ..counted }, sent: seq![], result: Ok(true) }
            } else if payload + len_words > u16::MAX {
                Step { next: CategoryReader { found: None, ..counted }, sent: seq![], result: Ok(true) }
            } else {
                Step {
                    next: CategoryReader {
                        addr: (payload + len_words) as u16,
                        state: RegisterReadState::RequestRead,
                        ..counted
                    },
                    sent: eeprom_request(
                        Pdu::ReadEepromChunk {
                            address: configured_addr,
                            start: (payload + len_words) as u16,
                        },
                        idx,
                        self.identifier,
                    ),
                    result: Ok(false),
                }
            }
        }
    }

    /// One answer applied to the scan: it moves the register cycle on, and
    /// where it carries a category header, the scan.
    pub open spec fn spec_update(self, data: Seq<u8>, configured_addr: u16, idx: u16) -> Step<
        Self,
        bool,
    > {
        let inner = self.state.spec_update(data, configured_addr, idx, self.identifier);
        match inner.result {
            Err(e) => Step { next: self, sent: seq![], result: Err(e) },
            Ok(false) => Step {
                next: CategoryReader { state: inner.next, ..self },
                sent: inner.sent,
                result: Ok(false),
            },
            Ok(true) => self.spec_header(data, configured_addr, idx),
        }
    }

    /// Applies one answer; `Ok(true)` when the scan has ended, with the
    /// region of the category in `found` if it was met.
    pub fn update(
        &mut self,
        received: &[u8],
        configured_addr: u16,
        idx: u16,
        out: &mut Vec<Request>,
    ) -> (r: Result<bool, Error>)
        ensures
            *final(self) == old(self).spec_update(received@, configured_addr, idx).next,
            final(out)@ == old(out)@ + old(self).spec_update(received@, configured_addr, idx).sent,
            r == old(self).spec_update(received@, configured_addr, idx).result,
    {
        let ghost step = old(self).spec_update(received@, configured_addr, idx);
        let mut cycle = self.state;
        let mut sent: Vec<Request> = Vec::new();
        match cycle.update(received, configured_addr, idx, self.identifier, &mut sent) {
            Err(e) => {
                assert(out@ =~= old(out)@ + step.sent);
                return Err(e);
            },
            Ok(false) => {
                self.state = cycle;
                out.append(&mut sent);
                assert(out@ =~= old(out)@ + step.sent);
                return Ok(false);
            },
            Ok(true) => {},
        }
        if self.addr > u16::MAX - 2 {
            self.found = None;
            assert(out@ =~= old(out)@ + step.sent);
            return Ok(true);
        }
        if received.len() < 4 {
            assert(out@ =~= old(out)@ + step.sent);
            return Err(Error::WireCodec);
        }
        let raw_ty = match read_u16(received, 0) {
            Ok(v) => v,
            Err(e) => {
                assert(out@ =~= old(out)@ + step.sent);
                return Err(e);
            },
        };
        let len_words = match read_u16(received, 2) {
            Ok(v) => v,
            Err(e) => {
                assert(out@ =~= old(out)@ + step.sent);
                return Err(e);
            },
        };
        let ty = CategoryType::from_u16(raw_ty);
        let payload: u16 = self.addr + 2;
        let empties: u16 = if len_words == 0 {
            if self.empty_category_count < MAX_EMPTY_CATEGORIES {
                self.empty_category_count + 1
            } else {
                MAX_EMPTY_CATEGORIES
            }
        } else {
            0
        };
        if ty == self.category && empties < MAX_EMPTY_CATEGORIES && len_words > u16::MAX / 2 {
            assert(out@ =~= old(out)@ + step.sent);
            return Err(Error::WireCodec);
        }
        self.addr = payload;
        self.empty_category_count = empties;
        if empties >= MAX_EMPTY_CATEGORIES {
            assert(out@ =~= old(out)@ + step.sent);
            return Ok(true);
        }
        if ty == self.category {
            self.found = Some(Found { start: payload, odd: false, len: len_words * 2 });
            assert(out@ =~= old(out)@ + step.sent);
            return Ok(true);
        }
        if ty == CategoryType::End || len_words > u16::MAX - payload {
            self.found = None;
            assert(out@ =~= old(out)@ + step.sent);
            return Ok(true);
        }
        self.addr = payload + len_words;
        self.start(configured_addr, idx, out);
        Ok(false)
    }
}

impl CategoryReader {
    /// The scan fed with category headers one after the other, up to the
    /// first that ends it.
    pub open spec fn spec_scan(
        self,
        headers: Seq<Seq<u8>>,
        configured_addr: u16,
        idx: u16,
    ) -> Step<Self, bool>
        decreases headers.len(),
    {
        if headers.len() == 0 {
            Step { next: self, sent: seq![], result: Ok(false) }
        } else {
            let step = self.spec_header(headers[0], configured_addr, idx);
            if step.result == Ok::<bool, Error>(false) {
                step.next.spec_scan(headers.skip(1), configured_addr, idx)
            } else {
                step
            }
        }
    }
}

/// A scan of the category list is a single pass over the address space: a
/// header that does not end the scan moves it on by at least the two words of
/// the header, and never past the last word address.
pub proof fn law_category_header_advances(
    reader: CategoryReader,
    data: Seq<u8>,
    configured_addr: u16,
    idx: u16,
)
    ensures
        reader.spec_header(data, configured_addr, idx).result == Ok::<bool, Error>(false) ==> {
            &&& reader.addr + 2 <= reader.spec_header(data, configured_addr, idx).next.addr
            &&& reader.spec_header(data, configured_addr, idx).next.found == reader.found
        },
        reader.found is None && reader.spec_header(data, configured_addr, idx).result == Ok::<
            bool,
            Error,
        >(true) && reader.spec_header(data, configured_addr, idx).next.found is Some ==> data.len()
            >= 4 && CategoryType::spec_from_u16(le_u16(data, 0)) == reader.category,
{
}

/// Whatever the EEPROM holds, a scan that is still running after `n` headers
/// stands at least `2 n` words behind where it began: it is over after at
/// most 32767 headers, before any address is read twice. A scan that began
/// with nothing found and ends without meeting its category reports nothing
/// found.
pub proof fn law_category_scan_is_one_pass(
    reader: CategoryReader,
    headers: Seq<Seq<u8>>,
    configured_addr: u16,
    idx: u16,
)
    ensures
        reader.spec_scan(headers, configured_addr, idx).result == Ok::<bool, Error>(false) ==> {
            &&& reader.addr + 2 * headers.len() <= reader.spec_scan(
                headers,
                configured_addr,
                idx,
            ).next.addr
            &&& 2 * headers.len() <= u16::MAX
        },
        reader.found is None && (forall|i: int|
            0 <= i < headers.len() ==> (#[trigger] headers[i]).len() >= 4
                && CategoryType::spec_from_u16(le_u16(headers[i], 0)) != reader.category)
            ==> reader.spec_scan(headers, configured_addr, idx).next.found is None
            && !(reader.spec_scan(headers, configured_addr, idx).result is Err),
    decreases headers.len(),
{
    if headers.len() > 0 {
        let step = reader.spec_header(headers[0], configured_addr, idx);
        law_category_header_advances(reader, headers[0], configured_addr, idx);
        if step.result == Ok::<bool, Error>(false) {
            let rest = headers.skip(1);
            law_category_scan_is_one_pass(step.next, rest, configured_addr, idx);
            assert forall|i: int| 0 <= i < rest.len() implies (#[trigger] rest[i]) == headers[i
                + 1] by {}
        }
    }
}

/// An array of `N` zero bytes.
pub open spec fn zeros<const N: usize>() -> [u8; N] {
    array_of(Seq::new(N as nat, |i: int| 0u8))
}

/// The contents of the zero array are zeros.
pub proof fn lemma_zeros_view<const N: usize>()
    ensures
        zeros::<N>()@ == Seq::new(N as nat, |i: int| 0u8),
{
    let a: [u8; N] = vstd::array::spec_array_fill_for_copy_type(0u8);
    assert(a@ =~= Seq::new(N as nat, |i: int| 0u8));
}

/// An array of `N` zero bytes.
pub fn zeroed<const N: usize>() -> (a: [u8; N])
    ensures
        a == zeros::<N>(),
{
    let a = [0u8; N];
    proof {
        assert(a@ =~= Seq::new(N as nat, |i: int| 0u8));
        lemma_array_of(a);
    }
    a
}

/// `N` as a length in bytes, cut off at what a `u16` holds.
pub open spec fn record_len<const N: usize>() -> u16 {
    if N > u16::MAX {
        u16::MAX
    } else {
        N as u16
    }
}

/// Walks the records of one category: first the category is looked for, then
/// its payload is read record by record, each record `N` bytes long.
#[derive(Clone, Copy, Debug)]
pub enum CategoryIter<const N: usize> {
    Categories(CategoryReader),
    Category(RangeReader<N>, Found),
}

impl<const N: usize> CategoryIter<N> {
    pub fn new(category: CategoryType, identifier: u8) -> (r: Self)
        ensures
            r == CategoryIter::<N>::Categories(CategoryReader::spec_new(category, identifier)),
    {
        CategoryIter::Categories(CategoryReader::new(category, identifier))
    }

    /// Starting the walk: the scan for the category begins; on a walk that
    /// has found its category the next record is asked for.
    pub open spec fn spec_start(self, configured_addr: u16, idx: u16) -> Step<Self, ()> {
        match self {
            CategoryIter::Categories(cat) => Step {
                next: CategoryIter::Categories(
                    CategoryReader { state: RegisterReadState::RequestRead, ..cat },
                ),
                sent: eeprom_request(
                    Pdu::ReadEepromChunk { address: configured_addr, start: cat.addr },
                    idx,
                    cat.identifier,
                ),
                result: Ok(()),
            },
            CategoryIter::Category(reader, found) => {
                let st = reader.spec_start(configured_addr, idx);
                Step { next: CategoryIter::Category(st.next, found), sent: st.sent, result: st.result }
            },
        }
    }

    pub fn start(&mut self, configured_addr: u16, idx: u16, out: &mut Vec<Request>) -> (r: Result<
        (),
        Error,
    >)
        ensures
            *final(self) == old(self).spec_start(configured_addr, idx).next,
            final(out)@ == old(out)@ + old(self).spec_start(configured_addr, idx).sent,
            r == old(self).spec_start(configured_addr, idx).result,
    {
        match self {
            CategoryIter::Categories(cat) => {
                cat.start(configured_addr, idx, out);
                Ok(())
            },
            CategoryIter::Category(reader, _) => reader.start(configured_addr, idx, out),
        }
    }

    /// The reader of the first record of a category found at `found`.
    pub open spec fn spec_first_record(found: Found, identifier: u8) -> RangeReader<N> {
        RangeReader {
            start: found.start,
            odd: false,
            offset: 0,
            len: record_len::<N>(),
            buffer: zeros::<N>(),
            state: RegisterReadState::RequestRead,
            identifier,
        }
    }

    /// One answer applied to the walk. `Some(true)`: a record is in the
    /// buffer and more follow; `Some(false)`: the walk is over, and the buffer
    /// holds the last record unless the category was not found at all;
    /// `None`: still reading.
    pub open spec fn spec_update(self, data: Seq<u8>, configured_addr: u16, idx: u16) -> Step<
        Self,
        Option<bool>,
    > {
        match self {
            CategoryIter::Categories(cat) => {
                let inner = cat.spec_update(data, configured_addr, idx);
                match inner.result {
                    Err(e) => Step { next: self, sent: seq![], result: Err(e) },
                    Ok(false) => Step {
                        next: CategoryIter::Categories(inner.next),
                        sent: inner.sent,
                        result: Ok(None),
                    },
                    Ok(true) => match inner.next.found {
                        None => Step {
                            next: CategoryIter::Categories(inner.next),
                            sent: seq![],
                            result: Ok(Some(false)),
                        },
                        Some(found) => {
                            let st = Self::spec_first_record(found, cat.identifier).spec_start(
                                configured_addr,
                                idx,
                            );
                            Step {
                                next: CategoryIter::Category(st.next, found),
                                sent: st.sent,
                                result: Ok(None),
                            }
                        },
                    },
                }
            },
            CategoryIter::Category(reader, found) => {
                let inner = reader.spec_update(data, configured_addr, idx);
                match inner.result {
                    Err(e) => Step { next: self, sent: seq![], result: Err(e) },
                    Ok(false) => Step {
                        next: CategoryIter::Category(inner.next, found),
                        sent: inner.sent,
                        result: Ok(None),
                    },
                    Ok(true) => if inner.next.spec_address() >= found.start + found.len / 2 {
                        Step {
                            next: CategoryIter::Category(inner.next, found),
                            sent: seq![],
                            result: Ok(Some(false)),
                        }
                    } else {
                        let st = inner.next.spec_start(configured_addr, idx);
                        Step {
                            next: CategoryIter::Category(st.next, found),
                            sent: st.sent,
                            result: Ok(Some(true)),
                        }
                    },
                }
            },
        }
    }

    pub fn update(
        &mut self,
        received: &[u8],
        configured_addr: u16,
        idx: u16,
        out: &mut Vec<Request>,
    ) -> (r: Result<Option<bool>, Error>)
        ensures
            *final(self) == old(self).spec_update(received@, configured_addr, idx).next,
            final(out)@ == old(out)@ + old(self).spec_update(received@, configured_addr, idx).sent,
            r == old(self).spec_update(received@, configured_addr, idx).result,
    {
        let ghost step = old(self).spec_update(received@, configured_addr, idx);
        match *self {
            CategoryIter::Categories(cat) => {
                let mut scan = cat;
                match scan.update(received, configured_addr, idx, out) {
                    Err(e) => Err(e),
                    Ok(false) => {
                        *self = CategoryIter::Categories(scan);
                        Ok(None)
                    },
                    Ok(true) => match scan.found {
                        None => {
                            *self = CategoryIter::Categories(scan);
                            Ok(Some(false))
                        },
                        Some(found) => {
                            let len: u16 = if N > u16::MAX as usize {
                                u16::MAX
                            } else {
                                N as u16
                            };
                            let mut reader = RangeReader::new(
                                found.start,
                                len,
                                zeroed::<N>(),
                                cat.identifier,
                            );
                            let _ = reader.start(configured_addr, idx, out);
                            *self = CategoryIter::Category(reader, found);
                            assert(out@ =~= old(out)@ + step.sent);
                            Ok(None)
                        },
                    },
                }
            },
            CategoryIter::Category(reader, found) => {
                let mut record = reader;
                match record.update(received, configured_addr, idx, out) {
                    Err(e) => Err(e),
                    Ok(false) => {
                        *self = CategoryIter::Category(record, found);
                        Ok(None)
                    },
                    Ok(true) => {
                        let at: u32 = record.start as u32 + record.byte() / 2;
                        let end: u32 = found.start as u32 + (found.len / 2) as u32;
                        if at >= end {
                            *self = CategoryIter::Category(record, found);
                            Ok(Some(false))
                        } else {
                            let _ = record.start(configured_addr, idx, out);
                            *self = CategoryIter::Category(record, found);
                            assert(out@ =~= old(out)@ + step.sent);
                            Ok(Some(true))
                        }
                    },
                }
            },
        }
    }

    /// The record read last, once the category has been found.
    pub fn buffer(&self) -> (r: Option<&[u8; N]>)
        ensures
            match *self {
                CategoryIter::Categories(_) => r is None,
                CategoryIter::Category(reader, _) => r == Some(&reader.buffer),
            },
    {
        match self {
            CategoryIter::Category(reader, _) => Some(&reader.buffer),
            CategoryIter::Categories(_) => None,
        }
    }
}

/// Walks the string table to the string with a given index. The table starts
/// with the number of strings; every string is its length in one byte and
/// then its bytes. Indices count from 1; index 0 stands for "no string".
#[derive(Clone, Copy, Debug)]
pub struct StringReader {
    pub first: bool,
    /// Number of strings still to be stepped over, the wanted one included.
    pub string_offset: u8,
    /// Byte offset, from the first byte of the table, of the length byte
    /// read next; once the string is found, of its first byte.
    pub offset: u16,
    /// Word address of the table.
    pub start: u16,
    pub state: RegisterReadState,
    pub identifier: u8,
    /// The bytes of the wanted string, without its length byte.
    pub found: Option<Found>,
}

impl StringReader {
    pub fn new(string_offset: u8, start: u16, identifier: u8) -> (r: Self)
        ensures
            r == (StringReader {
                first: true,
                string_offset,
                offset: 0,
                start,
                state: RegisterReadState::RequestRead,
                identifier,
                found: None,
            }),
    {
        StringReader {
            found: None,
            first: true,
            string_offset,
            offset: 0,
            start,
            state: RegisterReadState::RequestRead,
            identifier,
        }
    }

    /// Asking for the chunk at the current offset. An address beyond the
    /// EEPROM's address space is an error.
    pub open spec fn spec_start(self, configured_addr: u16, idx: u16) -> Step<Self, ()> {
        if self.start + self.offset / 2 > u16::MAX {
            Step { next: self, sent: seq![], result: Err(Error::WireCodec) }
        } else {
            Step {
                next: StringReader { state: RegisterReadState::RequestRead, ..self },
                sent: eeprom_request(
                    Pdu::ReadEepromChunk {
                        address: configured_addr,
                        start: (self.start + self.offset / 2) as u16,
                    },
                    idx,
                    self.identifier,
                ),
                result: Ok(()),
            }
        }
    }

    pub fn start(&mut self, configured_addr: u16, idx: u16, out: &mut Vec<Request>) -> (r: Result<
        (),
        Error,
    >)
        ensures
            *final(self) == old(self).spec_start(configured_addr, idx).next,
            final(out)@ == old(out)@ + old(self).spec_start(configured_addr, idx).sent,
            r == old(self).spec_start(configured_addr, idx).result,
    {
        let half = self.offset / 2;
        if half > u16::MAX - self.start {
            assert(out@ =~= old(out)@ + Seq::<Request>::empty());
            return Err(Error::WireCodec);
        }
        self.state.start(configured_addr, self.start + half, idx, self.identifier, out);
        Ok(())
    }

    /// What a chunk of the table does to the walk. The first chunk starts
    /// with the number of strings: a wanted index of 0 or beyond that number
    /// ends the walk without a find. The length byte of the current string
    /// follows; if the current string is the wanted one the walk ends with
    /// its region, otherwise it steps over the string.
    pub open spec fn spec_chunk(self, data: Seq<u8>, configured_addr: u16, idx: u16) -> Step<
        Self,
        bool,
    > {
        let fail = Step::<Self, bool> { next: self, sent: seq![], result: Err(Error::WireCodec) };
        let skip = self.offset % 2;
        let at_len = if self.first {
            skip + 1
        } else {
            skip as int
        };
        if data.len() <= skip {
            fail
        } else if self.first && (self.string_offset == 0 || data[skip as int] < self.string_offset) {
            Step { next: StringReader { first: false, ..self }, sent: seq![], result: Ok(true) }
        } else if !self.first && self.string_offset == 0 {
            fail
        } else if data.len() <= at_len {
            fail
        } else {
            let len = data[at_len];
            let offset = self.offset + (at_len - skip) + 1;
            let left = (self.string_offset - 1) as u8;
            if left == 0 {
                if self.start + offset / 2 > u16::MAX || offset > u16::MAX {
                    fail
                } else {
                    Step {
                        next: StringReader {
                            first: false,
                            string_offset: left,
                            offset: offset as u16,
                            found: Some(
                                Found {
                                    start: (self.start + offset / 2) as u16,
                                    odd: offset % 2 == 1,
                                    len: len as u16,
                                },
                            ),
                            ..self
                        },
                        sent: seq![],
                        result: Ok(true),
                    }
                }
            } else if offset + len > u16::MAX {
                fail
            } else {
                let moved = StringReader {
                    first: false,
                    string_offset: left,
                    offset: (offset + len) as u16,
                    ..self
                };
                let st = moved.spec_start(configured_addr, idx);
                if st.result is Err {
                    fail
                } else {
                    Step { next: st.next, sent: st.sent, result: Ok(false) }
                }
            }
        }
    }

    /// One answer applied to the walk: it moves the register cycle on, and
    /// where it carries a chunk, the walk.
    pub open spec fn spec_update(self, data: Seq<u8>, configured_addr: u16, idx: u16) -> Step<
        Self,
        bool,
    > {
        let inner = self.state.spec_update(data, configured_addr, idx, self.identifier);
        match inner.result {
            Err(e) => Step { next: self, sent: seq![], result: Err(e) },
            Ok(false) => Step {
                next: StringReader { state: inner.next, ..self },
                sent: inner.sent,
                result: Ok(false),
            },
            Ok(true) => self.spec_chunk(data, configured_addr, idx),
        }
    }

    /// Applies one answer; `Ok(true)` when the walk has ended, with the
    /// region of the string in `found` if there is one.
    pub fn update(
        &mut self,
        received: &[u8],
        configured_addr: u16,
        idx: u16,
        out: &mut Vec<Request>,
    ) -> (r: Result<bool, Error>)
        ensures
            *final(self) == old(self).spec_update(received@, configured_addr, idx).next,
            final(out)@ == old(out)@ + old(self).spec_update(received@, configured_addr, idx).sent,
            r == old(self).spec_update(received@, configured_addr, idx).result,
    {
        let ghost step = old(self).spec_update(received@, configured_addr, idx);
        let mut cycle = self.state;
        let mut sent: Vec<Request> = Vec::new();
        match cycle.update(received, configured_addr, idx, self.identifier, &mut sent) {
            Err(e) => {
                assert(out@ =~= old(out)@ + step.sent);
                return Err(e);
            },
            Ok(false) => {
                self.state = cycle;
                out.append(&mut sent);
                assert(out@ =~= old(out)@ + step.sent);
                return Ok(false);
            },
            Ok(true) => {},
        }
        assert(out@ =~= old(out)@ + Seq::<Request>::empty());
        let skip: usize = (self.offset % 2) as usize;
        if received.len() <= skip {
            return Err(Error::WireCodec);
        }
        let mut at_len: usize = skip;
        if self.first {
            if self.string_offset == 0 || received[skip] < self.string_offset {
                self.first = false;
                return Ok(true);
            }
            at_len = skip + 1;
        } else if self.string_offset == 0 {
            return Err(Error::WireCodec);
        }
        if received.len() <= at_len {
            return Err(Error::WireCodec);
        }
        let len: u8 = received[at_len];
        let step_over: u32 = self.offset as u32 + (at_len - skip) as u32 + 1;
        let left: u8 = self.string_offset - 1;
        if left == 0 {
            if step_over > u16::MAX as u32 || self.start as u32 + step_over / 2 > u16::MAX as u32 {
                return Err(Error::WireCodec);
            }
            self.first = false;
            self.string_offset = left;
            self.offset = step_over as u16;
            self.found = Some(
                Found {
                    start: self.start + (step_over / 2) as u16,
                    odd: step_over % 2 == 1,
                    len: len as u16,
                },
            );
            return Ok(true);
        }
        let offset: u32 = step_over + len as u32;
        if offset > u16::MAX as u32 || self.start as u32 + offset / 2 > u16::MAX as u32 {
            return Err(Error::WireCodec);
        }
        self.first = false;
        self.string_offset = left;
        self.offset = offset as u16;
        let _ = self.start(configured_addr, idx, out);
        Ok(false)
    }
}

/// Byte offset, within a table of strings, of the length byte of string `k`
/// (counted from 1): behind the leading count, and behind each earlier
/// string with its length byte.
pub open spec fn spec_length_at(table: Seq<u8>, k: int) -> int
    decreases k,
{
    if k <= 1 {
        1
    } else {
        let before = spec_length_at(table, k - 1);
        if 0 <= before < table.len() {
            before + 1 + table[before]
        } else {
            before + 1
        }
    }
}

/// `data` holds bytes of `table`, from the word that holds byte `offset` on.
pub open spec fn chunk_of(table: Seq<u8>, offset: int, data: Seq<u8>) -> bool {
    forall|i: int|
        0 <= i < data.len() ==> 2 * (offset / 2) + i < table.len() && #[trigger] data[i] == table[2
            * (offset / 2) + i]
}

impl StringReader {
    /// The walk for string `n` of `table` stands before string `k`.
    pub open spec fn walking(self, table: Seq<u8>, k: int, n: int) -> bool {
        &&& 1 <= k <= n
        &&& self.string_offset == n - k + 1
        &&& self.found is None
        &&& if k == 1 {
            self.first && self.offset == 0
        } else {
            !self.first && self.offset == spec_length_at(table, k)
        }
    }
}

/// The next byte that a range reader stores is the byte `offset` bytes behind
/// the first byte of its region; a reader over a found region begins at that
/// region's first byte.
pub proof fn law_range_reads_from_first_byte<const N: usize>(
    found: Found,
    buffer: [u8; N],
    identifier: u8,
    reader: RangeReader<N>,
)
    ensures
        2 * reader.spec_address() + reader.spec_skip() == 2 * reader.start + reader.spec_byte(),
        2 * RangeReader::<N>::spec_over(found, buffer, identifier).spec_address() + RangeReader::<
            N,
        >::spec_over(found, buffer, identifier).spec_skip() == found.spec_first_byte(),
{
}

/// A walk that stands before string `k` of a table that holds the wanted
/// string `n`, given a chunk of that table that reaches the string's length
/// byte: for `k == n` it ends with the string's region, which begins at the
/// byte behind the length byte and has the length that this byte gives; for
/// `k < n` it stands before string `k + 1` and has asked for one chunk, the
/// one that holds the next length byte.
pub proof fn law_string_walk_step(
    r: StringReader,
    table: Seq<u8>,
    k: int,
    n: int,
    data: Seq<u8>,
    configured_addr: u16,
    idx: u16,
)
    requires
        r.walking(table, k, n),
        0 < table.len(),
        n <= table[0],
        chunk_of(table, r.offset as int, data),
        spec_length_at(table, k) - 2 * (r.offset / 2) < data.len(),
        spec_length_at(table, k + 1) <= u16::MAX,
        r.start + spec_length_at(table, k + 1) / 2 <= u16::MAX,
    ensures
        ({
            let step = r.spec_chunk(data, configured_addr, idx);
            let at = spec_length_at(table, k);
            &&& 0 <= at < table.len()
            &&& k == n ==> {
                &&& step.result == Ok::<bool, Error>(true)
                &&& step.sent == Seq::<Request>::empty()
                &&& step.next.found is Some
                &&& step.next.found->0.spec_first_byte() == 2 * r.start + at + 1
                &&& step.next.found->0.len == table[at]
            }
            &&& k < n ==> {
                &&& step.result == Ok::<bool, Error>(false)
                &&& step.next.walking(table, k + 1, n)
                &&& step.sent == eeprom_request(
                    Pdu::ReadEepromChunk {
                        address: configured_addr,
                        start: (r.start + spec_length_at(table, k + 1) / 2) as u16,
                    },
                    idx,
                    r.identifier,
                )
            }
        }),
{
    let at = spec_length_at(table, k);
    let skip = r.offset % 2;
    assert(r.offset as int == 2 * (r.offset / 2) + skip);
    if k == 1 {
        assert(data[0] == table[0]);
        assert(data[1] == table[1]);
    } else {
        assert(data[skip as int] == table[at]);
    }
    assert(spec_length_at(table, k + 1) == at + 1 + table[at]);
}

/// A walk for string 0, or for a string beyond the table's count, ends on
/// the first chunk without a find and asks for nothing.
pub proof fn law_string_absent(r: StringReader, data: Seq<u8>, configured_addr: u16, idx: u16)
    requires
        r.first,
        r.offset == 0,
        r.found is None,
        0 < data.len(),
        r.string_offset == 0 || data[0] < r.string_offset,
    ensures
        r.spec_chunk(data, configured_addr, idx).result == Ok::<bool, Error>(true),
        r.spec_chunk(data, configured_addr, idx).next.found is None,
        r.spec_chunk(data, configured_addr, idx).sent == Seq::<Request>::empty(),
{
}

} // verus!
