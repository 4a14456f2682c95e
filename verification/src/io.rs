//! How a submission's 64-bit user data is laid out: the correlation id of
//! the PDU in the low 24 bits, and above them one bit for each kind of
//! submission that concerns that PDU.

use vstd::prelude::*;

verus! {

/// The bits of the user data that hold the correlation id.
pub const KEY_MASK: u64 = 0xff_ffff;

/// Marks the completion of a frame write.
pub const WRITE_MASK: u64 = 0x0100_0000;

/// Marks a firing of a PDU's multi-shot timeout.
pub const TIMEOUT_MASK: u64 = 0x0200_0000;

/// Marks the completion of the removal of a PDU's timeout.
pub const TIMEOUT_CLEAR_MASK: u64 = 0x0400_0000;

/// What a completion is about.
#[derive(Clone, Copy, Debug, PartialEq, Eq, Structural)]
pub enum CompletionKind {
    /// The timeout of the PDU `key` was removed: the PDU's last event.
    TimeoutClear { key: u64 },
    /// A frame write was accepted.
    Write { key: u64 },
    /// The timeout of the PDU `key` fired.
    Timeout { key: u64 },
    /// None of these: a received frame.
    Frame,
}

/// The kind of completion that `user_data` marks. The removal bit is looked
/// at first, then the write bit, then the timeout bit.
pub open spec fn spec_classify(user_data: u64) -> CompletionKind {
    if user_data & TIMEOUT_CLEAR_MASK == TIMEOUT_CLEAR_MASK {
        CompletionKind::TimeoutClear { key: user_data & KEY_MASK }
    } else if user_data & WRITE_MASK == WRITE_MASK {
        CompletionKind::Write { key: user_data & KEY_MASK }
    } else if user_data & TIMEOUT_MASK == TIMEOUT_MASK {
        CompletionKind::Timeout { key: user_data & KEY_MASK }
    } else {
        CompletionKind::Frame
    }
}

pub fn classify(user_data: u64) -> (k: CompletionKind)
    ensures
        k == spec_classify(user_data),
{
    if user_data & TIMEOUT_CLEAR_MASK == TIMEOUT_CLEAR_MASK {
        CompletionKind::TimeoutClear { key: user_data & KEY_MASK }
    } else if user_data & WRITE_MASK == WRITE_MASK {
        CompletionKind::Write { key: user_data & KEY_MASK }
    } else if user_data & TIMEOUT_MASK == TIMEOUT_MASK {
        CompletionKind::Timeout { key: user_data & KEY_MASK }
    } else {
        CompletionKind::Frame
    }
}

/// The three kinds of submission of one PDU are told apart, and each gives
/// the PDU's correlation id back: user data made of an id of at most 24 bits
/// and one of the three marks is classified as that mark, with that id.
pub proof fn law_marks_are_disjoint(id: u64)
    requires
        id <= KEY_MASK,
    ensures
        spec_classify(id | WRITE_MASK) == (CompletionKind::Write { key: id }),
        spec_classify(id | TIMEOUT_MASK) == (CompletionKind::Timeout { key: id }),
        spec_classify(id | TIMEOUT_CLEAR_MASK) == (CompletionKind::TimeoutClear { key: id }),
        spec_classify(id) == CompletionKind::Frame,
{
    assert(id <= 0xff_ffff ==> (id | 0x0100_0000) & 0x0400_0000 != 0x0400_0000 && (id
        | 0x0100_0000) & 0x0100_0000 == 0x0100_0000 && (id | 0x0100_0000) & 0xff_ffff == id)
        by (bit_vector);
    assert(id <= 0xff_ffff ==> (id | 0x0200_0000) & 0x0400_0000 != 0x0400_0000 && (id
        | 0x0200_0000) & 0x0100_0000 != 0x0100_0000 && (id | 0x0200_0000) & 0x0200_0000
        == 0x0200_0000 && (id | 0x0200_0000) & 0xff_ffff == id) by (bit_vector);
    assert(id <= 0xff_ffff ==> (id | 0x0400_0000) & 0x0400_0000 == 0x0400_0000 && (id
        | 0x0400_0000) & 0xff_ffff == id) by (bit_vector);
    assert(id <= 0xff_ffff ==> id & 0x0400_0000 != 0x0400_0000 && id & 0x0100_0000 != 0x0100_0000
        && id & 0x0200_0000 != 0x0200_0000) by (bit_vector);
}

} // verus!
