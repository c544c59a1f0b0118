//! The clock that says whether a deadline has been reached.
//!
//! The auction does not read the clock: the host asks whether a block has
//! been authored in the deadline's slot and passes the answer on. Here is
//! how that answer, and the status that comes with it, are read.

use vstd::prelude::*;
use vstd::std_specs::convert::FromSpecImpl;

verus! {

/// The status with which the host reports that the slot is known.
pub const STATUS_OK: u32 = 0;

/// The status with which the host reports that it could not look at the slot.
pub const STATUS_FAIL_CHECK_SLOT: u32 = 1101;

/// Why the host could not answer.
#[derive(Clone, Copy, Debug, PartialEq, Eq, Structural)]
pub enum EtfErrorCode {
    /// The host could not check for a block in the slot.
    FailCheckSlot,
}

/// What can go wrong when the clock is asked.
#[derive(Clone, Copy, Debug, PartialEq, Eq, Structural)]
pub enum EtfError {
    /// The host refused, with this code.
    ErrorCode(EtfErrorCode),
    /// The answer did not fit the buffer that was offered.
    BufferTooSmall { required_bytes: u32 },
}

impl From<EtfErrorCode> for EtfError {
    fn from(error_code: EtfErrorCode) -> (error: EtfError) {
        EtfError::ErrorCode(error_code)
    }
}

impl FromSpecImpl<EtfErrorCode> for EtfError {
    open spec fn obeys_from_spec() -> bool {
        true
    }

    open spec fn from_spec(error_code: EtfErrorCode) -> EtfError {
        EtfError::ErrorCode(error_code)
    }
}

impl EtfErrorCode {
    /// Whether the host is known to use this status.
    pub open spec fn is_known_status(status_code: u32) -> bool {
        status_code == STATUS_OK || status_code == STATUS_FAIL_CHECK_SLOT
    }

    /// Reads a status of the host: success, or the failure it stands for.
    pub fn from_status_code(status_code: u32) -> (r: Result<(), EtfErrorCode>)
        requires
            Self::is_known_status(status_code),
        ensures
            r is Ok <==> status_code == STATUS_OK,
            r is Err ==> r == Err::<(), EtfErrorCode>(EtfErrorCode::FailCheckSlot),
    {
        if status_code == STATUS_OK {
            Ok(())
        } else {
            Err(EtfErrorCode::FailCheckSlot)
        }
    }
}

/// Whether the host's answer says that a block has been authored in the
/// slot: the answer is then the single byte 1.
pub fn slot_reached(answer: &[u8]) -> (reached: bool)
    ensures
        reached == (answer@ == seq![1u8]),
{
    let reached = answer.len() == 1 && answer[0] == 1;
    proof {
        if reached {
            assert(answer@ =~= seq![1u8]);
        } else if answer@ == seq![1u8] {
            assert(seq![1u8].len() == 1);
            assert(seq![1u8][0] == 1u8);
        }
    }
    reached
}

/// Whether the host's answer says that no block has been authored in the
/// slot yet: the answer is then the single byte 0. A claim is held back on
/// this answer and on no other.
pub fn slot_pending(answer: &[u8]) -> (pending: bool)
    ensures
        pending == (answer@ == seq![0u8]),
{
    let pending = answer.len() == 1 && answer[0] == 0;
    proof {
        if pending {
            assert(answer@ =~= seq![0u8]);
        } else if answer@ == seq![0u8] {
            assert(seq![0u8].len() == 1);
            assert(seq![0u8][0] == 0u8);
        }
    }
    pending
}

} // verus!
