//! The randomness beacon, and a holder for the randomness drawn from it.
//!
//! The host fetches the randomness; here is how the status that comes with
//! it is read, and where the latest value is kept.

use vstd::prelude::*;
use vstd::std_specs::convert::FromSpecImpl;
use crate::error::Error;

verus! {

/// Thirty-two bytes of randomness.
pub type Randomness = [u8; 32];

/// The status with which the host reports that it has a pulse.
pub const STATUS_OK: u32 = 0;

/// The status with which the host reports that no pulse was gathered during
/// the block.
pub const STATUS_INVALID_BLOCK_NUMBER: u32 = 1101;

/// Why the host has no randomness.
#[derive(Clone, Copy, Debug, PartialEq, Eq, Structural)]
pub enum DrandErrorCode {
    /// No pulse was gathered during that block.
    InvalidBlockNumber,
}

/// What can go wrong when the beacon is asked.
#[derive(Clone, Copy, Debug, PartialEq, Eq, Structural)]
pub enum DrandError {
    /// The host refused, with this code.
    ErrorCode(DrandErrorCode),
    /// The answer did not fit the buffer that was offered.
    BufferTooSmall { required_bytes: u32 },
}

impl From<DrandErrorCode> for DrandError {
    fn from(error_code: DrandErrorCode) -> (error: DrandError) {
        DrandError::ErrorCode(error_code)
    }
}

impl FromSpecImpl<DrandErrorCode> for DrandError {
    open spec fn obeys_from_spec() -> bool {
        true
    }

    open spec fn from_spec(error_code: DrandErrorCode) -> DrandError {
        DrandError::ErrorCode(error_code)
    }
}

impl DrandErrorCode {
    /// Whether the host is known to use this status.
    pub open spec fn is_known_status(status_code: u32) -> bool {
        status_code == STATUS_OK || status_code == STATUS_INVALID_BLOCK_NUMBER
    }

    /// Reads a status of the host: success, or the failure it stands for.
    pub fn from_status_code(status_code: u32) -> (r: Result<(), DrandErrorCode>)
        requires
            Self::is_known_status(status_code),
        ensures
            r is Ok <==> status_code == STATUS_OK,
            r is Err ==> r == Err::<(), DrandErrorCode>(DrandErrorCode::InvalidBlockNumber),
    {
        if status_code == STATUS_OK {
            Ok(())
        } else {
            Err(DrandErrorCode::InvalidBlockNumber)
        }
    }
}

/// Keeps the randomness that was fetched last.
pub struct Template {
    random: Randomness,
}

impl Template {
    /// The randomness that is kept.
    pub closed spec fn random(&self) -> Randomness {
        self.random
    }

    /// A holder that keeps thirty-two zero bytes until randomness is fetched.
    pub fn new() -> (template: Template)
        ensures
            template.random()@ == Seq::new(32, |i: int| 0u8),
    {
        let template = Template { random: [0u8;32] };
        assert(template.random@ =~= Seq::new(32, |i: int| 0u8));
        template
    }

    /// The randomness that is kept.
    pub fn get_random(&self) -> (random: Randomness)
        ensures
            random == self.random(),
    {
        self.random
    }

    /// Keeps `random`, which the host has fetched, in place of what was kept.
    pub fn mutate_random(&mut self, random: Randomness) -> (r: Result<(), Error>)
        ensures
            r is Ok,
            final(self).random() == random,
    {
        self.random = random;
        Ok(())
    }
}

impl Default for Template {
    fn default() -> (template: Template)
        ensures
            template.random()@ == Seq::new(32, |i: int| 0u8),
    {
        Template::new()
    }
}

} // verus!
