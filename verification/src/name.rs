//! Finds the name of a sub-device in its EEPROM: the `General` category names
//! a string index, the `Strings` category holds the strings.

use crate::eeprom::{eeprom_request, zeroed, zeros, CategoryReader, RangeReader, RegisterReadState,
    StringReader, SII_FIRST_CATEGORY_START};
use crate::error::Error;
use crate::request::{failed, lemma_sent_nothing, quiet, Pdu, Request, Step};
use crate::subdevice::DeviceName;
use crate::wire::{CategoryType, SiiGeneral};
use vstd::prelude::*;

verus! {

#[derive(Clone, Copy, Debug)]
pub enum NameState {
    /// The `General` category is looked for.
    FindingCategory(CategoryReader),
    /// The `General` category is read.
    ReadingCategory(RangeReader<18>),
    /// The `Strings` category is looked for; the index of the name is known.
    FindingStrings(CategoryReader, u8),
    /// The string table is walked to the name.
    ReadingStrings(StringReader),
    /// The bytes of the name are read.
    ReadingName(RangeReader<64>),
    /// The search is over; a device may have no name.
    Name(Option<DeviceName>),
}

impl NameState {
    pub open spec fn spec_new(identifier: u8) -> Self {
        NameState::FindingCategory(CategoryReader::spec_new(CategoryType::General, identifier))
    }

    pub fn new(identifier: u8) -> (s: Self)
        ensures
            s == Self::spec_new(identifier),
    {
        NameState::FindingCategory(CategoryReader::new(CategoryType::General, identifier))
    }

    /// What `start` sends and leaves: the scan for the `General` category
    /// begins. On a search that is past that point nothing happens.
    pub open spec fn spec_start(self, configured_addr: u16, idx: u16) -> Step<Self, ()> {
        match self {
            NameState::FindingCategory(cat) => Step {
                next: NameState::FindingCategory(
                    CategoryReader { state: RegisterReadState::RequestRead, ..cat },
                ),
                sent: eeprom_request(
                    Pdu::ReadEepromChunk { address: configured_addr, start: cat.addr },
                    idx,
                    cat.identifier,
                ),
                result: Ok(()),
            },
            _ => quiet(self, ()),
        }
    }

    pub fn start(&mut self, configured_addr: u16, idx: u16, out: &mut Vec<Request>)
        ensures
            *final(self) == old(self).spec_start(configured_addr, idx).next,
            final(out)@ == old(out)@ + old(self).spec_start(configured_addr, idx).sent,
    {
        proof {
            lemma_sent_nothing(out@);
        }
        match self {
            NameState::FindingCategory(cat) => {
                cat.start(configured_addr, idx, out);
            },
            _ => {},
        }
    }

    /// The search given up: the device has no name.
    pub open spec fn spec_fallback(complete_access: bool) -> Step<(NameState, bool), bool> {
        quiet((NameState::Name(None), complete_access), true)
    }

    /// The reader of the `len` bytes at `start`.
    pub open spec fn spec_range<const N: usize>(start: u16, len: u16, identifier: u8) -> RangeReader<
        N,
    > {
        RangeReader {
            start,
            odd: false,
            offset: 0,
            len,
            buffer: zeros::<N>(),
            state: RegisterReadState::RequestRead,
            identifier,
        }
    }

    /// One answer applied to the search; the state is paired with the
    /// device's complete-access flag, which the `General` category settles.
    /// `true` when the search is over. Whatever goes wrong on the way, be it
    /// a category that is missing or a record that cannot be decoded, ends
    /// the search without a name. An answer after the end is an error.
    pub open spec fn spec_update(
        self,
        data: Seq<u8>,
        configured_addr: u16,
        idx: u16,
        complete_access: bool,
    ) -> Step<(NameState, bool), bool> {
        let fallback = Self::spec_fallback(complete_access);
        match self {
            NameState::FindingCategory(cat) => {
                let inner = cat.spec_update(data, configured_addr, idx);
                match inner.result {
                    Err(_) => fallback,
                    Ok(false) => Step {
                        next: (NameState::FindingCategory(inner.next), complete_access),
                        sent: inner.sent,
                        result: Ok(false),
                    },
                    Ok(true) => match inner.next.found {
                        None => fallback,
                        Some(found) => {
                            let st = Self::spec_range::<18>(
                                found.start,
                                found.len,
                                cat.identifier,
                            ).spec_start(configured_addr, idx);
                            Step {
                                next: (NameState::ReadingCategory(st.next), complete_access),
                                sent: st.sent,
                                result: Ok(false),
                            }
                        },
                    },
                }
            },
            NameState::ReadingCategory(reader) => {
                let inner = reader.spec_update(data, configured_addr, idx);
                match inner.result {
                    Err(_) => fallback,
                    Ok(false) => Step {
                        next: (NameState::ReadingCategory(inner.next), complete_access),
                        sent: inner.sent,
                        result: Ok(false),
                    },
                    Ok(true) => match SiiGeneral::spec_decode(inner.next.buffer@) {
                        Err(_) => fallback,
                        Ok(general) => Step {
                            next: (
                                NameState::FindingStrings(
                                    CategoryReader::spec_new(
                                        CategoryType::Strings,
                                        reader.identifier,
                                    ),
                                    general.name_string_idx,
                                ),
                                general.spec_complete_access(),
                            ),
                            sent: eeprom_request(
                                Pdu::ReadEepromChunk {
                                    address: configured_addr,
                                    start: SII_FIRST_CATEGORY_START,
                                },
                                idx,
                                reader.identifier,
                            ),
                            result: Ok(false),
                        },
                    },
                }
            },
            NameState::FindingStrings(cat, name_idx) => {
                let inner = cat.spec_update(data, configured_addr, idx);
                match inner.result {
                    Err(_) => fallback,
                    Ok(false) => Step {
                        next: (NameState::FindingStrings(inner.next, name_idx), complete_access),
                        sent: inner.sent,
                        result: Ok(false),
                    },
                    Ok(true) => match inner.next.found {
                        None => fallback,
                        Some(found) => {
                            let st = StringReader {
                                first: true,
                                string_offset: name_idx,
                                offset: 0,
                                start: found.start,
                                state: RegisterReadState::RequestRead,
                                identifier: cat.identifier,
                                found: None,
                            }.spec_start(configured_addr, idx);
                            Step {
                                next: (NameState::ReadingStrings(st.next), complete_access),
                                sent: st.sent,
                                result: Ok(false),
                            }
                        },
                    },
                }
            },
            NameState::ReadingStrings(strings) => {
                let inner = strings.spec_update(data, configured_addr, idx);
                match inner.result {
                    Err(_) => fallback,
                    Ok(false) => Step {
                        next: (NameState::ReadingStrings(inner.next), complete_access),
                        sent: inner.sent,
                        result: Ok(false),
                    },
                    Ok(true) => match inner.next.found {
                        None => fallback,
                        Some(found) => {
                            let st = RangeReader::<64>::spec_over(
                                found,
                                zeros::<64>(),
                                strings.identifier,
                            ).spec_start(configured_addr, idx);
                            Step {
                                next: (NameState::ReadingName(st.next), complete_access),
                                sent: st.sent,
                                result: Ok(false),
                            }
                        },
                    },
                }
            },
            NameState::ReadingName(reader) => {
                let inner = reader.spec_update(data, configured_addr, idx);
                match inner.result {
                    Err(_) => fallback,
                    Ok(false) => Step {
                        next: (NameState::ReadingName(inner.next), complete_access),
                        sent: inner.sent,
                        result: Ok(false),
                    },
                    Ok(true) => quiet(
                        (
                            NameState::Name(
                                DeviceName::spec_from_bytes(inner.next.buffer, reader.len),
                            ),
                            complete_access,
                        ),
                        true,
                    ),
                }
            },
            NameState::Name(_) => failed((self, complete_access), Error::WireCodec),
        }
    }

    /// Applies one answer; `Ok(true)` when the search is over.
    pub fn update(
        &mut self,
        received: &[u8],
        configured_addr: u16,
        idx: u16,
        complete_access: &mut bool,
        out: &mut Vec<Request>,
    ) -> (r: Result<bool, Error>)
        ensures
            ({
                let step = old(self).spec_update(
                    received@,
                    configured_addr,
                    idx,
                    *old(complete_access),
                );
                &&& (*final(self), *final(complete_access)) == step.next
                &&& final(out)@ == old(out)@ + step.sent
                &&& r == step.result
            }),
    {
        proof {
            lemma_sent_nothing(out@);
        }
        match *self {
            NameState::FindingCategory(cat) => {
                let mut scan = cat;
                match scan.update(received, configured_addr, idx, out) {
                    Ok(false) => {
                        *self = NameState::FindingCategory(scan);
                        return Ok(false);
                    },
                    Ok(true) => match scan.found {
                        Some(found) => {
                            let mut reader = RangeReader::<18>::new(
                                found.start,
                                found.len,
                                zeroed::<18>(),
                                cat.identifier,
                            );
                            let _ = reader.start(configured_addr, idx, out);
                            *self = NameState::ReadingCategory(reader);
                            return Ok(false);
                        },
                        None => {},
                    },
                    Err(_) => {},
                }
            },
            NameState::ReadingCategory(reader) => {
                let mut range = reader;
                match range.update(received, configured_addr, idx, out) {
                    Ok(false) => {
                        *self = NameState::ReadingCategory(range);
                        return Ok(false);
                    },
                    Ok(true) => match SiiGeneral::decode(vstd::array::array_as_slice(&range.buffer)) {
                        Ok(general) => {
                            *complete_access = general.complete_access();
                            let mut strings = CategoryReader::new(
                                CategoryType::Strings,
                                reader.identifier,
                            );
                            strings.start(configured_addr, idx, out);
                            *self = NameState::FindingStrings(strings, general.name_string_idx);
                            return Ok(false);
                        },
                        Err(_) => {},
                    },
                    Err(_) => {},
                }
            },
            NameState::FindingStrings(cat, name_idx) => {
                let mut scan = cat;
                match scan.update(received, configured_addr, idx, out) {
                    Ok(false) => {
                        *self = NameState::FindingStrings(scan, name_idx);
                        return Ok(false);
                    },
                    Ok(true) => match scan.found {
                        Some(found) => {
                            let mut strings = StringReader::new(
                                name_idx,
                                found.start,
                                cat.identifier,
                            );
                            let _ = strings.start(configured_addr, idx, out);
                            *self = NameState::ReadingStrings(strings);
                            return Ok(false);
                        },
                        None => {},
                    },
                    Err(_) => {},
                }
            },
            NameState::ReadingStrings(strings) => {
                let mut walk = strings;
                match walk.update(received, configured_addr, idx, out) {
                    Ok(false) => {
                        *self = NameState::ReadingStrings(walk);
                        return Ok(false);
                    },
                    Ok(true) => match walk.found {
                        Some(found) => {
                            let mut reader = RangeReader::<64>::over(
                                found,
                                zeroed::<64>(),
                                strings.identifier,
                            );
                            let _ = reader.start(configured_addr, idx, out);
                            *self = NameState::ReadingName(reader);
                            return Ok(false);
                        },
                        None => {},
                    },
                    Err(_) => {},
                }
            },
            NameState::ReadingName(reader) => {
                let mut range = reader;
                match range.update(received, configured_addr, idx, out) {
                    Ok(false) => {
                        *self = NameState::ReadingName(range);
                        return Ok(false);
                    },
                    Ok(true) => {
                        *self = NameState::Name(DeviceName::from_bytes(range.buffer, reader.len));
                        return Ok(true);
                    },
                    Err(_) => {},
                }
            },
            NameState::Name(_) => {
                return Err(Error::WireCodec);
            },
        }
        *self = NameState::Name(None);
        Ok(true)
    }
}

} // verus!
