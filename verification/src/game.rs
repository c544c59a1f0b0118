//! What the time-locked games share: rounds, slots, sealed messages, events
//! and clocks.

use vstd::prelude::*;
use crate::account::AccountId;

verus! {

/// The number of a round of a game: 0, 1, 2, ...
pub type RoundNumber = u64;

/// The number of a slot of the chain.
pub type SlotNumber = u64;

/// A message that is sealed until a slot is reached.
#[derive(Clone, Debug, PartialEq, Eq)]
pub struct TlockMessage {
    /// The encrypted message.
    pub ciphertext: Vec<u8>,
    /// The nonce of the encryption.
    pub nonce: Vec<u8>,
    /// The encrypted key material.
    pub capsule: Vec<u8>,
    /// The commitment to the message.
    pub commitment: Vec<u8>,
}

/// Something that happens in a game at a slot.
#[derive(Clone, Debug, PartialEq, Eq)]
pub struct GameEvent {
    /// A name for the event.
    pub name: Option<[u8; 32]>,
    /// The slot at which the event happens.
    pub slot: SlotNumber,
    /// What can be revealed at that slot.
    pub data: Vec<TlockMessage>,
}

/// What a participant sealed, as it was decrypted.
#[derive(Clone, Debug, PartialEq, Eq)]
pub struct DecryptedData<T> {
    /// The participant.
    pub address: AccountId,
    /// What was sealed.
    pub data: T,
    /// The key that opened it.
    pub msk: [u8; 32],
}

/// How the clock of a game's events is set.
#[derive(Clone, Copy, Debug, PartialEq, Eq, Structural)]
pub struct EventConfig {
    /// The slot at which the clock starts.
    pub initial_slot: SlotNumber,
    /// The number of slots between two events.
    pub interval: SlotNumber,
}

/// Why a clock refused.
#[derive(Clone, Copy, Debug, PartialEq, Eq, Structural)]
pub enum ClockError {
    InitializationFailed,
    ExecutionFailed,
    ContinueFailed,
}

/// A clock that a game runs on: it takes an input of each player during a
/// round and works out the result of the round.
pub trait ClockU8 {
    /// Takes the input of a player.
    fn execute(&mut self, input: u8) -> Result<(), ClockError>;

    /// Works out the result of `round`.
    fn calculate_result(&mut self, round: RoundNumber) -> Result<(), ClockError>;
}

} // verus!
