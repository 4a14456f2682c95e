//! The record kept for each sub-device found on the segment.

use crate::eeprom::{zeroed, zeros};
use crate::wire::{Ports, SubDeviceIdentity, SupportFlags};
use vstd::prelude::*;
use vstd::utf8::valid_utf8;

verus! {

/// Most bytes a device name can have.
pub const MAX_NAME_LEN: usize = 64;

/// Most sync-manager types kept from a device's CoE object dictionary.
pub const MAX_SM_TYPES: usize = 16;

/// One mailbox of a sub-device: where it lies in device memory and which sync
/// manager guards it.
#[derive(Clone, Copy, Debug, PartialEq, Eq, Structural)]
pub struct Mailbox {
    pub address: u16,
    pub len: u16,
    pub sync_manager: u8,
}

/// A contiguous byte range `[start, end)` of the process image.
#[derive(Clone, Copy, Debug, PartialEq, Eq, Structural)]
pub struct PdiSegment {
    pub start: u32,
    pub end: u32,
}

impl PdiSegment {
    pub open spec fn spec_len(self) -> int {
        self.end - self.start
    }

    pub open spec fn wf(self) -> bool {
        self.start <= self.end
    }

    /// Two ranges share no byte.
    pub open spec fn disjoint(self, other: PdiSegment) -> bool {
        self.end <= other.start || other.end <= self.start || self.start == self.end || other.start
            == other.end
    }

    /// The range lies within `[lo, hi)`.
    pub open spec fn within(self, lo: int, hi: int) -> bool {
        self.start == self.end || (lo <= self.start && self.end <= hi)
    }

    pub fn empty() -> (s: PdiSegment)
        ensures
            s == (PdiSegment { start: 0, end: 0 }),
    {
        PdiSegment { start: 0, end: 0 }
    }
}

/// The byte ranges of the process image that belong to a sub-device.
#[derive(Clone, Copy, Debug, PartialEq, Eq, Structural)]
pub struct IoRanges {
    pub input: PdiSegment,
    pub output: PdiSegment,
}

/// The name of a device as read from its EEPROM: `len` bytes of UTF-8.
#[derive(Clone, Copy, Debug, PartialEq, Eq)]
pub struct DeviceName {
    pub bytes: [u8; 64],
    pub len: u8,
}

/// `heapless::String::from_utf8` on the first `len` bytes of the buffer, held
/// in a `heapless::Vec`: whether they are valid UTF-8.
#[verifier::external_body]
fn name_is_utf8(bytes: &[u8; 64], len: usize) -> (ok: bool)
    requires
        len <= 64,
    ensures
        ok == valid_utf8(bytes@.take(len as int)),
{
    match heapless::Vec::<u8, 64>::from_slice(&bytes[..len]) {
        Ok(v) => heapless::String::<64>::from_utf8(v).is_ok(),
        Err(_) => false,
    }
}

impl DeviceName {
    pub open spec fn wf(self) -> bool {
        self.len <= 64 && valid_utf8(self.bytes@.take(self.len as int))
    }

    /// The name held in the first `len` bytes of `bytes` (at most 64 of
    /// them), if they are valid UTF-8.
    pub open spec fn spec_from_bytes(bytes: [u8; 64], len: u16) -> Option<DeviceName> {
        let n = if len > 64 {
            64u8
        } else {
            len as u8
        };
        if valid_utf8(bytes@.take(n as int)) {
            Some(DeviceName { bytes, len: n })
        } else {
            None
        }
    }

    pub fn from_bytes(bytes: [u8; 64], len: u16) -> (r: Option<DeviceName>)
        ensures
            r == Self::spec_from_bytes(bytes, len),
            r is Some ==> r->0.wf(),
    {
        let n: u8 = if len > 64 {
            64
        } else {
            len as u8
        };
        if name_is_utf8(&bytes, n as usize) {
            Some(DeviceName { bytes, len: n })
        } else {
            None
        }
    }
}

/// What is known of a sub-device's mailboxes.
#[derive(Clone, Copy, Debug, PartialEq, Eq)]
pub struct MailboxSetup {
    /// The mailbox the main device reads from.
    pub read: Option<Mailbox>,
    /// The mailbox the main device writes to.
    pub write: Option<Mailbox>,
    pub supported_protocols: u8,
    pub has_coe: bool,
    /// SDO complete access is supported.
    pub complete_access: bool,
    /// The sync-manager types as the device's object dictionary lists them;
    /// the first `coe_sync_manager_count` entries count.
    pub coe_sync_manager_types: [u8; 16],
    pub coe_sync_manager_count: u8,
}

#[derive(Clone, Copy, Debug, PartialEq, Eq)]
pub struct SubDeviceConfig {
    pub io: IoRanges,
    pub mailbox: MailboxSetup,
}

/// One sub-device of the segment.
#[derive(Clone, Copy, Debug, PartialEq, Eq)]
pub struct SubDevice {
    pub configured_address: u16,
    pub alias_address: u16,
    /// Position in the ring, counted from the main device.
    pub index: u16,
    pub identity: SubDeviceIdentity,
    pub name: Option<DeviceName>,
    pub flags: SupportFlags,
    pub ports: Ports,
    pub dc_receive_time: u64,
    /// The counter that tags the next CoE service, from 1 to 7.
    pub mailbox_counter: u8,
    pub config: SubDeviceConfig,
}

impl SubDevice {
    /// A record that holds nothing but the station address and the position.
    pub open spec fn spec_new(configured_address: u16, index: u16) -> SubDevice {
        SubDevice {
            configured_address,
            alias_address: 0,
            index,
            identity: SubDeviceIdentity { vendor_id: 0, product_id: 0, revision: 0, serial: 0 },
            name: None,
            flags: SupportFlags { raw: 0 },
            ports: Ports {
                active0: false,
                active3: false,
                active1: false,
                active2: false,
                time0: 0,
                time3: 0,
                time1: 0,
                time2: 0,
            },
            dc_receive_time: 0,
            mailbox_counter: 1,
            config: SubDeviceConfig {
                io: IoRanges {
                    input: PdiSegment { start: 0, end: 0 },
                    output: PdiSegment { start: 0, end: 0 },
                },
                mailbox: MailboxSetup {
                    read: None,
                    write: None,
                    supported_protocols: 0,
                    has_coe: false,
                    complete_access: false,
                    coe_sync_manager_types: zeros::<16>(),
                    coe_sync_manager_count: 0,
                },
            },
        }
    }

    pub fn new(configured_address: u16, index: u16) -> (d: SubDevice)
        ensures
            d == Self::spec_new(configured_address, index),
    {
        SubDevice {
            configured_address,
            alias_address: 0,
            index,
            identity: SubDeviceIdentity { vendor_id: 0, product_id: 0, revision: 0, serial: 0 },
            name: None,
            flags: SupportFlags { raw: 0 },
            ports: Ports {
                active0: false,
                active3: false,
                active1: false,
                active2: false,
                time0: 0,
                time3: 0,
                time1: 0,
                time2: 0,
            },
            dc_receive_time: 0,
            mailbox_counter: 1,
            config: SubDeviceConfig {
                io: IoRanges { input: PdiSegment::empty(), output: PdiSegment::empty() },
                mailbox: MailboxSetup {
                    read: None,
                    write: None,
                    supported_protocols: 0,
                    has_coe: false,
                    complete_access: false,
                    coe_sync_manager_types: zeroed::<16>(),
                    coe_sync_manager_count: 0,
                },
            },
        }
    }

    pub fn configured_address(&self) -> (a: u16)
        ensures
            a == self.configured_address,
    {
        self.configured_address
    }

    /// The counter after `n`: from 1 to 7 and round again, never 0.
    pub open spec fn next_counter(n: u8) -> u8 {
        if n >= 7 {
            1
        } else {
            (n + 1) as u8
        }
    }

    /// The counter for the next CoE service; the record moves on to the one
    /// after it.
    pub fn mailbox_counter(&mut self) -> (n: u8)
        ensures
            n == old(self).mailbox_counter,
            *final(self) == (SubDevice {
                mailbox_counter: Self::next_counter(old(self).mailbox_counter),
                ..*old(self)
            }),
    {
        let n = self.mailbox_counter;
        self.mailbox_counter = if n >= 7 {
            1
        } else {
            n + 1
        };
        n
    }
}

} // verus!
