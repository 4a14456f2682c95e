//! Plain-value views of what travels on the wire: PDU headers, register
//! contents and the records stored in a sub-device's EEPROM.

use crate::error::{Error, SubDeviceState};
use ethercrab::EtherCrabWireRead;
use vstd::prelude::*;
use vstd::slice::slice_subrange;

verus! {

/// Header of one answered PDU, reduced to what the controllers look at.
#[derive(Clone, Copy, Debug, PartialEq, Eq, Structural)]
pub struct PduHeader {
    pub command_code: u8,
    pub index: u8,
    /// The four address bytes of the PDU read as one little-endian word: the
    /// station address in the low half, the register in the high half.
    pub command_raw: u32,
}

impl PduHeader {
    pub open spec fn spec_register(self) -> u16 {
        (self.command_raw >> 16) as u16
    }

    pub open spec fn spec_address(self) -> u16 {
        (self.command_raw & 0xffff) as u16
    }

    /// The register the PDU addressed: the upper 16 bits of the command word.
    pub fn register(&self) -> (r: u16)
        ensures
            r == self.spec_register(),
    {
        let raw = self.command_raw;
        assert(raw >> 16 <= 0xffff) by (bit_vector);
        (raw >> 16) as u16
    }

    /// The station address the PDU addressed: the lower 16 bits of the command word.
    pub fn address(&self) -> (r: u16)
        ensures
            r == self.spec_address(),
    {
        let raw = self.command_raw;
        assert(raw & 0xffff <= 0xffff) by (bit_vector);
        (raw & 0xffff) as u16
    }
}

/// Command codes of the PDU kinds the controllers tell apart.
pub const CMD_APWR: u8 = 2;

pub const CMD_FPRD: u8 = 4;

pub const CMD_FPWR: u8 = 5;

pub const CMD_BRD: u8 = 7;

pub const CMD_BWR: u8 = 8;

pub const CMD_LRW: u8 = 12;

pub const CMD_FRMW: u8 = 14;

/// Register addresses used to tell answers apart.
pub const REG_SUPPORT_FLAGS: u16 = 0x0008;

pub const REG_STATION_ALIAS: u16 = 0x0012;

pub const REG_DL_STATUS: u16 = 0x0110;

pub const REG_SII_CONTROL: u16 = 0x0502;

pub const REG_SII_DATA: u16 = 0x0508;

pub const REG_DC_TIME_PORT0: u16 = 0x0900;

pub const REG_DC_RECEIVE_TIME: u16 = 0x0918;

pub const REG_DC_SYSTEM_TIME_OFFSET: u16 = 0x0920;

pub const REG_DC_TRANSMISSION_DELAY: u16 = 0x0928;

/// Little-endian value of two bytes at `at`.
pub open spec fn le_u16(b: Seq<u8>, at: int) -> u16 {
    (b[at] as u16) | ((b[at + 1] as u16) << 8)
}

/// Little-endian value of four bytes at `at`.
pub open spec fn le_u32(b: Seq<u8>, at: int) -> u32 {
    (b[at] as u32) | ((b[at + 1] as u32) << 8) | ((b[at + 2] as u32) << 16) | ((b[at + 3] as u32)
        << 24)
}

/// Little-endian value of eight bytes at `at`.
pub open spec fn le_u64(b: Seq<u8>, at: int) -> u64 {
    (le_u32(b, at) as u64) | ((le_u32(b, at + 4) as u64) << 32)
}

/// A little-endian `u16` at `at`, where the buffer reaches that far.
pub open spec fn spec_read_u16(b: Seq<u8>, at: int) -> Result<u16, Error> {
    if at + 2 <= b.len() {
        Ok(le_u16(b, at))
    } else {
        Err(Error::WireCodec)
    }
}

/// A little-endian `u32` at `at`, where the buffer reaches that far.
pub open spec fn spec_read_u32(b: Seq<u8>, at: int) -> Result<u32, Error> {
    if at + 4 <= b.len() {
        Ok(le_u32(b, at))
    } else {
        Err(Error::WireCodec)
    }
}

/// A little-endian `u64` at `at`, where the buffer reaches that far.
pub open spec fn spec_read_u64(b: Seq<u8>, at: int) -> Result<u64, Error> {
    if at + 8 <= b.len() {
        Ok(le_u64(b, at))
    } else {
        Err(Error::WireCodec)
    }
}

/// `u16::unpack_from_slice` of ethercrab's wire layer: the first two bytes of
/// the buffer as a little-endian number, or an error when there are fewer.
#[verifier::external_body]
fn unpack_u16(buf: &[u8]) -> (r: Result<u16, Error>)
    ensures
        r == spec_read_u16(buf@, 0),
{
    match u16::unpack_from_slice(buf) {
        Ok(v) => Ok(v),
        Err(_) => Err(Error::WireCodec),
    }
}

/// `u32::unpack_from_slice` of ethercrab's wire layer: the first four bytes of
/// the buffer as a little-endian number, or an error when there are fewer.
#[verifier::external_body]
fn unpack_u32(buf: &[u8]) -> (r: Result<u32, Error>)
    ensures
        r == spec_read_u32(buf@, 0),
{
    match u32::unpack_from_slice(buf) {
        Ok(v) => Ok(v),
        Err(_) => Err(Error::WireCodec),
    }
}

/// `u64::unpack_from_slice` of ethercrab's wire layer: the first eight bytes of
/// the buffer as a little-endian number, or an error when there are fewer.
#[verifier::external_body]
fn unpack_u64(buf: &[u8]) -> (r: Result<u64, Error>)
    ensures
        r == spec_read_u64(buf@, 0),
{
    match u64::unpack_from_slice(buf) {
        Ok(v) => Ok(v),
        Err(_) => Err(Error::WireCodec),
    }
}

/// Reads a little-endian `u16` at byte offset `at`.
pub fn read_u16(buf: &[u8], at: usize) -> (r: Result<u16, Error>)
    ensures
        r == spec_read_u16(buf@, at as int),
{
    if at > buf.len() || buf.len() - at < 2 {
        return Err(Error::WireCodec);
    }
    unpack_u16(slice_subrange(buf, at, buf.len()))
}

/// Reads a little-endian `u32` at byte offset `at`.
pub fn read_u32(buf: &[u8], at: usize) -> (r: Result<u32, Error>)
    ensures
        r == spec_read_u32(buf@, at as int),
{
    if at > buf.len() || buf.len() - at < 4 {
        return Err(Error::WireCodec);
    }
    unpack_u32(slice_subrange(buf, at, buf.len()))
}

/// Reads a little-endian `u64` at byte offset `at`.
pub fn read_u64(buf: &[u8], at: usize) -> (r: Result<u64, Error>)
    ensures
        r == spec_read_u64(buf@, at as int),
{
    if at > buf.len() || buf.len() - at < 8 {
        return Err(Error::WireCodec);
    }
    unpack_u64(slice_subrange(buf, at, buf.len()))
}

/// The state that a raw AL state number stands for.
pub open spec fn state_of(raw: u8) -> SubDeviceState {
    if raw == 0 {
        SubDeviceState::NoState
    } else if raw == 1 {
        SubDeviceState::Init
    } else if raw == 2 {
        SubDeviceState::PreOp
    } else if raw == 3 {
        SubDeviceState::Bootstrap
    } else if raw == 4 {
        SubDeviceState::SafeOp
    } else if raw == 8 {
        SubDeviceState::Op
    } else {
        SubDeviceState::Other(raw)
    }
}

/// `SubDeviceState::from(u8)` of ethercrab: the five known states and "none"
/// by their numbers, every other number kept in the catch-all variant.
#[verifier::external_body]
fn decode_state(raw: u8) -> (s: SubDeviceState)
    ensures
        s == state_of(raw),
{
    match ethercrab::SubDeviceState::from(raw) {
        ethercrab::SubDeviceState::None => SubDeviceState::NoState,
        ethercrab::SubDeviceState::Init => SubDeviceState::Init,
        ethercrab::SubDeviceState::PreOp => SubDeviceState::PreOp,
        ethercrab::SubDeviceState::Bootstrap => SubDeviceState::Bootstrap,
        ethercrab::SubDeviceState::SafeOp => SubDeviceState::SafeOp,
        ethercrab::SubDeviceState::Op => SubDeviceState::Op,
        ethercrab::SubDeviceState::Other(v) => SubDeviceState::Other(v),
    }
}

/// The AL control / status word of one sub-device.
#[derive(Clone, Copy, Debug, PartialEq, Eq, Structural)]
pub struct AlControl {
    pub state: SubDeviceState,
    pub error: bool,
}

impl AlControl {
    /// State in the low four bits of the first byte, error flag in bit 4.
    pub open spec fn spec_decode(b: Seq<u8>) -> Result<AlControl, Error> {
        if b.len() < 2 {
            Err(Error::WireCodec)
        } else {
            Ok(AlControl { state: state_of(b[0] & 0x0f), error: b[0] & 0x10 != 0 })
        }
    }

    pub fn decode(buf: &[u8]) -> (r: Result<AlControl, Error>)
        ensures
            r == Self::spec_decode(buf@),
    {
        if buf.len() < 2 {
            return Err(Error::WireCodec);
        }
        let b0 = buf[0];
        Ok(AlControl { state: decode_state(b0 & 0x0f), error: b0 & 0x10 != 0 })
    }
}

/// The EEPROM interface's control word, reduced to what a read cycle needs.
#[derive(Clone, Copy, Debug, PartialEq, Eq, Structural)]
pub struct SiiControl {
    /// The interface is still working on the last request.
    pub busy: bool,
    /// Bytes delivered per read: 4 or 8.
    pub read_len: u8,
}

impl SiiControl {
    /// Busy flag in bit 15, read size in bit 6 of the little-endian word.
    pub open spec fn spec_decode(b: Seq<u8>) -> Result<SiiControl, Error> {
        if b.len() < 2 {
            Err(Error::WireCodec)
        } else {
            Ok(
                SiiControl {
                    busy: b[1] & 0x80 != 0,
                    read_len: if b[0] & 0x40 != 0 {
                        8
                    } else {
                        4
                    },
                },
            )
        }
    }

    pub fn decode(buf: &[u8]) -> (r: Result<SiiControl, Error>)
        ensures
            r == Self::spec_decode(buf@),
    {
        if buf.len() < 2 {
            return Err(Error::WireCodec);
        }
        let read_len: u8 = if buf[0] & 0x40 != 0 {
            8
        } else {
            4
        };
        Ok(SiiControl { busy: buf[1] & 0x80 != 0, read_len })
    }
}

/// Status byte of a sync-manager channel, reduced to the mailbox flag.
#[derive(Clone, Copy, Debug, PartialEq, Eq, Structural)]
pub struct SmStatus {
    pub mailbox_full: bool,
}

impl SmStatus {
    /// Mailbox-full flag in bit 3 of the status byte.
    pub open spec fn spec_decode(b: Seq<u8>) -> Result<SmStatus, Error> {
        if b.len() < 1 {
            Err(Error::WireCodec)
        } else {
            Ok(SmStatus { mailbox_full: b[0] & 0x08 != 0 })
        }
    }

    pub fn decode(buf: &[u8]) -> (r: Result<SmStatus, Error>)
        ensures
            r == Self::spec_decode(buf@),
    {
        if buf.len() < 1 {
            return Err(Error::WireCodec);
        }
        Ok(SmStatus { mailbox_full: buf[0] & 0x08 != 0 })
    }
}

/// One FMMU entry: a window of the logical process image mapped onto device
/// memory.
#[derive(Clone, Copy, Debug, PartialEq, Eq, Structural)]
pub struct Fmmu {
    pub logical_start_address: u32,
    pub length_bytes: u16,
    pub logical_start_bit: u8,
    pub logical_end_bit: u8,
    pub physical_start_address: u16,
    pub physical_start_bit: u8,
    pub read_enable: bool,
    pub write_enable: bool,
    pub enable: bool,
}

impl Fmmu {
    /// The sixteen-byte register layout of an FMMU entry.
    pub open spec fn spec_decode(b: Seq<u8>) -> Result<Fmmu, Error> {
        if b.len() < 16 {
            Err(Error::WireCodec)
        } else {
            Ok(
                Fmmu {
                    logical_start_address: le_u32(b, 0),
                    length_bytes: le_u16(b, 4),
                    logical_start_bit: b[6] & 0x07,
                    logical_end_bit: b[7] & 0x07,
                    physical_start_address: le_u16(b, 8),
                    physical_start_bit: b[10] & 0x07,
                    read_enable: b[11] & 0x01 != 0,
                    write_enable: b[11] & 0x02 != 0,
                    enable: b[12] & 0x01 != 0,
                },
            )
        }
    }

    pub fn decode(buf: &[u8]) -> (r: Result<Fmmu, Error>)
        ensures
            r == Self::spec_decode(buf@),
    {
        if buf.len() < 16 {
            return Err(Error::WireCodec);
        }
        let logical_start_address = read_u32(buf, 0)?;
        let length_bytes = read_u16(buf, 4)?;
        let physical_start_address = read_u16(buf, 8)?;
        Ok(
            Fmmu {
                logical_start_address,
                length_bytes,
                logical_start_bit: buf[6] & 0x07,
                logical_end_bit: buf[7] & 0x07,
                physical_start_address,
                physical_start_bit: buf[10] & 0x07,
                read_enable: buf[11] & 0x01 != 0,
                write_enable: buf[11] & 0x02 != 0,
                enable: buf[12] & 0x01 != 0,
            },
        )
    }
}

/// What a sync manager is used for.
#[derive(Clone, Copy, Debug, PartialEq, Eq, Structural)]
pub enum SyncManagerType {
    Unknown,
    MailboxWrite,
    MailboxRead,
    ProcessDataWrite,
    ProcessDataRead,
}

impl SyncManagerType {
    pub open spec fn spec_from_u8(raw: u8) -> SyncManagerType {
        if raw == 1 {
            SyncManagerType::MailboxWrite
        } else if raw == 2 {
            SyncManagerType::MailboxRead
        } else if raw == 3 {
            SyncManagerType::ProcessDataWrite
        } else if raw == 4 {
            SyncManagerType::ProcessDataRead
        } else {
            SyncManagerType::Unknown
        }
    }

    /// The usage a raw type byte stands for; unlisted numbers are `Unknown`.
    pub fn from_u8(raw: u8) -> (t: SyncManagerType)
        ensures
            t == Self::spec_from_u8(raw),
    {
        if raw == 1 {
            SyncManagerType::MailboxWrite
        } else if raw == 2 {
            SyncManagerType::MailboxRead
        } else if raw == 3 {
            SyncManagerType::ProcessDataWrite
        } else if raw == 4 {
            SyncManagerType::ProcessDataRead
        } else {
            SyncManagerType::Unknown
        }
    }
}

/// A sync-manager record of the EEPROM's `SyncManager` category.
#[derive(Clone, Copy, Debug, PartialEq, Eq, Structural)]
pub struct SyncManager {
    pub start_addr: u16,
    pub length: u16,
    pub control: u8,
    pub enable: u8,
    pub usage: SyncManagerType,
}

impl SyncManager {
    /// An all-zero record.
    pub open spec fn spec_empty() -> SyncManager {
        SyncManager { start_addr: 0, length: 0, control: 0, enable: 0, usage: SyncManagerType::Unknown }
    }

    pub fn empty() -> (s: SyncManager)
        ensures
            s == Self::spec_empty(),
    {
        SyncManager { start_addr: 0, length: 0, control: 0, enable: 0, usage: SyncManagerType::Unknown }
    }

    /// The eight-byte record: start address, length, control byte, a spare
    /// byte, enable flags (only the low four bits may be set) and usage type.
    pub open spec fn spec_decode(b: Seq<u8>) -> Result<SyncManager, Error> {
        if b.len() < 8 || b[6] & 0xf0 != 0 {
            Err(Error::WireCodec)
        } else {
            Ok(
                SyncManager {
                    start_addr: le_u16(b, 0),
                    length: le_u16(b, 2),
                    control: b[4],
                    enable: b[6],
                    usage: SyncManagerType::spec_from_u8(b[7]),
                },
            )
        }
    }

    pub fn decode(buf: &[u8]) -> (r: Result<SyncManager, Error>)
        ensures
            r == Self::spec_decode(buf@),
    {
        if buf.len() < 8 {
            return Err(Error::WireCodec);
        }
        if buf[6] & 0xf0 != 0 {
            return Err(Error::WireCodec);
        }
        let start_addr = read_u16(buf, 0)?;
        let length = read_u16(buf, 2)?;
        Ok(
            SyncManager {
                start_addr,
                length,
                control: buf[4],
                enable: buf[6],
                usage: SyncManagerType::from_u8(buf[7]),
            },
        )
    }

    /// The usage type of the record; where the record leaves it unknown it
    /// follows from the control byte: mailbox mode is 2 in bits 0-1, the
    /// master writes where bits 2-3 hold 1.
    pub open spec fn spec_usage_type(self) -> SyncManagerType {
        if self.usage != SyncManagerType::Unknown {
            self.usage
        } else {
            let mailbox = self.control & 0x03 == 2;
            let master_write = (self.control >> 2) & 0x03 == 1;
            if mailbox {
                if master_write {
                    SyncManagerType::MailboxWrite
                } else {
                    SyncManagerType::MailboxRead
                }
            } else {
                if master_write {
                    SyncManagerType::ProcessDataWrite
                } else {
                    SyncManagerType::ProcessDataRead
                }
            }
        }
    }

    pub fn usage_type(&self) -> (t: SyncManagerType)
        ensures
            t == self.spec_usage_type(),
    {
        if self.usage != SyncManagerType::Unknown {
            self.usage
        } else {
            let mailbox = self.control & 0x03 == 2;
            let master_write = (self.control >> 2) & 0x03 == 1;
            if mailbox {
                if master_write {
                    SyncManagerType::MailboxWrite
                } else {
                    SyncManagerType::MailboxRead
                }
            } else {
                if master_write {
                    SyncManagerType::ProcessDataWrite
                } else {
                    SyncManagerType::ProcessDataRead
                }
            }
        }
    }
}

/// What an FMMU slot is meant for, from the EEPROM's `Fmmu` category.
#[derive(Clone, Copy, Debug, PartialEq, Eq, Structural)]
pub enum FmmuUsage {
    Unused,
    Outputs,
    Inputs,
    SyncManagerStatus,
}

impl FmmuUsage {
    /// One byte: 0 or 0xff unused, 1 outputs, 2 inputs, 3 sync-manager status.
    pub open spec fn spec_decode(b: Seq<u8>) -> Result<FmmuUsage, Error> {
        if b.len() < 1 {
            Err(Error::WireCodec)
        } else if b[0] == 0 || b[0] == 0xff {
            Ok(FmmuUsage::Unused)
        } else if b[0] == 1 {
            Ok(FmmuUsage::Outputs)
        } else if b[0] == 2 {
            Ok(FmmuUsage::Inputs)
        } else if b[0] == 3 {
            Ok(FmmuUsage::SyncManagerStatus)
        } else {
            Err(Error::WireCodec)
        }
    }

    pub fn decode(buf: &[u8]) -> (r: Result<FmmuUsage, Error>)
        ensures
            r == Self::spec_decode(buf@),
    {
        if buf.len() < 1 {
            return Err(Error::WireCodec);
        }
        let b = buf[0];
        if b == 0 || b == 0xff {
            Ok(FmmuUsage::Unused)
        } else if b == 1 {
            Ok(FmmuUsage::Outputs)
        } else if b == 2 {
            Ok(FmmuUsage::Inputs)
        } else if b == 3 {
            Ok(FmmuUsage::SyncManagerStatus)
        } else {
            Err(Error::WireCodec)
        }
    }
}

/// Category types of the EEPROM's category list.
#[derive(Clone, Copy, Debug, PartialEq, Eq, Structural)]
pub enum CategoryType {
    Nop,
    DeviceSpecific,
    Strings,
    DataTypes,
    General,
    Fmmu,
    SyncManager,
    FmmuExtended,
    SyncUnit,
    TxPdo,
    RxPdo,
    DistributedClock,
    End,
}

impl CategoryType {
    pub open spec fn spec_from_u16(raw: u16) -> CategoryType {
        if 1 <= raw <= 9 {
            CategoryType::DeviceSpecific
        } else if raw == 10 {
            CategoryType::Strings
        } else if raw == 20 {
            CategoryType::DataTypes
        } else if raw == 30 {
            CategoryType::General
        } else if raw == 40 {
            CategoryType::Fmmu
        } else if raw == 41 {
            CategoryType::SyncManager
        } else if raw == 42 {
            CategoryType::FmmuExtended
        } else if raw == 43 {
            CategoryType::SyncUnit
        } else if raw == 50 {
            CategoryType::TxPdo
        } else if raw == 51 {
            CategoryType::RxPdo
        } else if raw == 60 {
            CategoryType::DistributedClock
        } else if raw == 0xffff {
            CategoryType::End
        } else {
            CategoryType::Nop
        }
    }

    /// The category a type word stands for; unlisted numbers are `Nop`.
    pub fn from_u16(raw: u16) -> (t: CategoryType)
        ensures
            t == Self::spec_from_u16(raw),
    {
        if 1 <= raw && raw <= 9 {
            CategoryType::DeviceSpecific
        } else if raw == 10 {
            CategoryType::Strings
        } else if raw == 20 {
            CategoryType::DataTypes
        } else if raw == 30 {
            CategoryType::General
        } else if raw == 40 {
            CategoryType::Fmmu
        } else if raw == 41 {
            CategoryType::SyncManager
        } else if raw == 42 {
            CategoryType::FmmuExtended
        } else if raw == 43 {
            CategoryType::SyncUnit
        } else if raw == 50 {
            CategoryType::TxPdo
        } else if raw == 51 {
            CategoryType::RxPdo
        } else if raw == 60 {
            CategoryType::DistributedClock
        } else if raw == 0xffff {
            CategoryType::End
        } else {
            CategoryType::Nop
        }
    }
}

/// The EEPROM's `General` category, reduced to the fields that bring-up reads.
#[derive(Clone, Copy, Debug, PartialEq, Eq, Structural)]
pub struct SiiGeneral {
    pub name_string_idx: u8,
    pub coe_details: u8,
}

/// Bit of `coe_details` that announces SDO complete access.
pub const COE_ENABLE_COMPLETE_ACCESS: u8 = 0x20;

impl SiiGeneral {
    /// Name string index in byte 3, CoE details in byte 5 (two top bits
    /// clear), flags in byte 11 (three top bits clear).
    pub open spec fn spec_decode(b: Seq<u8>) -> Result<SiiGeneral, Error> {
        if b.len() < 18 || b[5] & 0xc0 != 0 || b[11] & 0xe0 != 0 {
            Err(Error::WireCodec)
        } else {
            Ok(SiiGeneral { name_string_idx: b[3], coe_details: b[5] })
        }
    }

    pub fn decode(buf: &[u8]) -> (r: Result<SiiGeneral, Error>)
        ensures
            r == Self::spec_decode(buf@),
    {
        if buf.len() < 18 {
            return Err(Error::WireCodec);
        }
        if buf[5] & 0xc0 != 0 || buf[11] & 0xe0 != 0 {
            return Err(Error::WireCodec);
        }
        Ok(SiiGeneral { name_string_idx: buf[3], coe_details: buf[5] })
    }

    pub open spec fn spec_complete_access(self) -> bool {
        self.coe_details & COE_ENABLE_COMPLETE_ACCESS != 0
    }

    /// Whether the device announces SDO complete access.
    pub fn complete_access(&self) -> (r: bool)
        ensures
            r == self.spec_complete_access(),
    {
        self.coe_details & COE_ENABLE_COMPLETE_ACCESS != 0
    }
}

/// Bit of the mailbox protocol set that stands for CoE.
pub const PROTOCOL_COE: u8 = 0x04;

/// The default mailbox layout stored in the EEPROM at word 0x0018.
#[derive(Clone, Copy, Debug, PartialEq, Eq, Structural)]
pub struct DefaultMailbox {
    pub subdevice_receive_offset: u16,
    pub subdevice_receive_size: u16,
    pub subdevice_send_offset: u16,
    pub subdevice_send_size: u16,
    pub supported_protocols: u8,
}

impl DefaultMailbox {
    /// Four little-endian words and the protocol set (two top bits clear).
    pub open spec fn spec_decode(b: Seq<u8>) -> Result<DefaultMailbox, Error> {
        if b.len() < 10 || b[8] & 0xc0 != 0 {
            Err(Error::WireCodec)
        } else {
            Ok(
                DefaultMailbox {
                    subdevice_receive_offset: le_u16(b, 0),
                    subdevice_receive_size: le_u16(b, 2),
                    subdevice_send_offset: le_u16(b, 4),
                    subdevice_send_size: le_u16(b, 6),
                    supported_protocols: b[8],
                },
            )
        }
    }

    pub fn decode(buf: &[u8]) -> (r: Result<DefaultMailbox, Error>)
        ensures
            r == Self::spec_decode(buf@),
    {
        if buf.len() < 10 {
            return Err(Error::WireCodec);
        }
        if buf[8] & 0xc0 != 0 {
            return Err(Error::WireCodec);
        }
        let subdevice_receive_offset = read_u16(buf, 0)?;
        let subdevice_receive_size = read_u16(buf, 2)?;
        let subdevice_send_offset = read_u16(buf, 4)?;
        let subdevice_send_size = read_u16(buf, 6)?;
        Ok(
            DefaultMailbox {
                subdevice_receive_offset,
                subdevice_receive_size,
                subdevice_send_offset,
                subdevice_send_size,
                supported_protocols: buf[8],
            },
        )
    }
}

/// The support flags register (0x0008), kept as read.
#[derive(Clone, Copy, Debug, PartialEq, Eq, Structural)]
pub struct SupportFlags {
    pub raw: u16,
}

impl SupportFlags {
    pub open spec fn spec_decode(b: Seq<u8>) -> Result<SupportFlags, Error> {
        if b.len() < 2 {
            Err(Error::WireCodec)
        } else {
            Ok(SupportFlags { raw: le_u16(b, 0) })
        }
    }

    pub fn decode(buf: &[u8]) -> (r: Result<SupportFlags, Error>)
        ensures
            r == Self::spec_decode(buf@),
    {
        let raw = read_u16(buf, 0)?;
        Ok(SupportFlags { raw })
    }

    pub open spec fn spec_dc_supported(self) -> bool {
        self.raw & 0x0004 != 0
    }

    /// Whether the device takes part in distributed clocks (bit 2).
    pub fn dc_supported(&self) -> (r: bool)
        ensures
            r == self.spec_dc_supported(),
    {
        self.raw & 0x0004 != 0
    }
}

/// Link state of the four ports, in EtherCAT port order 0, 3, 1, 2, with the
/// receive times that the distributed-clock stage latches.
#[derive(Clone, Copy, Debug, PartialEq, Eq, Structural)]
pub struct Ports {
    pub active0: bool,
    pub active3: bool,
    pub active1: bool,
    pub active2: bool,
    pub time0: u32,
    pub time3: u32,
    pub time1: u32,
    pub time2: u32,
}

impl Ports {
    /// Link flags of ports 0 to 3 in bits 4 to 7 of the DL status word.
    pub open spec fn spec_from_dl_status(b: Seq<u8>) -> Result<Ports, Error> {
        if b.len() < 2 {
            Err(Error::WireCodec)
        } else {
            Ok(
                Ports {
                    active0: b[0] & 0x10 != 0,
                    active3: b[0] & 0x80 != 0,
                    active1: b[0] & 0x20 != 0,
                    active2: b[0] & 0x40 != 0,
                    time0: 0,
                    time3: 0,
                    time1: 0,
                    time2: 0,
                },
            )
        }
    }

    pub fn from_dl_status(buf: &[u8]) -> (r: Result<Ports, Error>)
        ensures
            r == Self::spec_from_dl_status(buf@),
    {
        if buf.len() < 2 {
            return Err(Error::WireCodec);
        }
        let b = buf[0];
        Ok(
            Ports {
                active0: b & 0x10 != 0,
                active3: b & 0x80 != 0,
                active1: b & 0x20 != 0,
                active2: b & 0x40 != 0,
                time0: 0,
                time3: 0,
                time1: 0,
                time2: 0,
            },
        )
    }

    /// The ports with the receive times of the port-time registers, which
    /// hold ports 0, 1, 2, 3 in that order.
    pub open spec fn spec_with_receive_times(self, b: Seq<u8>) -> Result<Ports, Error> {
        if b.len() < 16 {
            Err(Error::WireCodec)
        } else {
            Ok(
                Ports {
                    time0: le_u32(b, 0),
                    time1: le_u32(b, 4),
                    time2: le_u32(b, 8),
                    time3: le_u32(b, 12),
                    ..self
                },
            )
        }
    }

    pub fn with_receive_times(self, buf: &[u8]) -> (r: Result<Ports, Error>)
        ensures
            r == self.spec_with_receive_times(buf@),
    {
        if buf.len() < 16 {
            return Err(Error::WireCodec);
        }
        let time0 = read_u32(buf, 0)?;
        let time1 = read_u32(buf, 4)?;
        let time2 = read_u32(buf, 8)?;
        let time3 = read_u32(buf, 12)?;
        Ok(Ports { time0, time1, time2, time3, ..self })
    }
}

/// Identity of a sub-device as stored in its EEPROM.
#[derive(Clone, Copy, Debug, PartialEq, Eq, Structural)]
pub struct SubDeviceIdentity {
    pub vendor_id: u32,
    pub product_id: u32,
    pub revision: u32,
    pub serial: u32,
}

impl SubDeviceIdentity {
    /// Four little-endian words: vendor, product, revision, serial.
    pub open spec fn spec_decode(b: Seq<u8>) -> Result<SubDeviceIdentity, Error> {
        if b.len() < 16 {
            Err(Error::WireCodec)
        } else {
            Ok(
                SubDeviceIdentity {
                    vendor_id: le_u32(b, 0),
                    product_id: le_u32(b, 4),
                    revision: le_u32(b, 8),
                    serial: le_u32(b, 12),
                },
            )
        }
    }

    /// `SubDeviceIdentity::unpack_from_slice` of ethercrab: the four identity
    /// words of a sixteen-byte record, or an error when the buffer is shorter.
    #[verifier::external_body]
    pub(crate) fn decode(buf: &[u8]) -> (r: Result<SubDeviceIdentity, Error>)
        ensures
            r == Self::spec_decode(buf@),
    {
        match ethercrab::SubDeviceIdentity::unpack_from_slice(buf) {
            Ok(id) => Ok(
                SubDeviceIdentity {
                    vendor_id: id.vendor_id,
                    product_id: id.product_id,
                    revision: id.revision,
                    serial: id.serial,
                },
            ),
            Err(_) => Err(Error::WireCodec),
        }
    }
}

} // verus!
