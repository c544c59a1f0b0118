//! Sealed proposals.

use vstd::prelude::*;
use crate::account::AccountId;

verus! {

/// A sealed bid as it is stored: the deposit that came with it, the
/// time-locked ciphertext, and the commitment that the revealed value must
/// reproduce. The ciphertext, nonce and capsule are kept for whoever
/// decrypts; nothing here reads them.
#[derive(Clone, Debug, PartialEq, Eq)]
pub struct Proposal {
    /// The amount escrowed with the proposal.
    pub deposit: u128,
    /// The encrypted bid.
    pub ciphertext: Vec<u8>,
    /// The nonce of the encryption.
    pub nonce: Vec<u8>,
    /// The encrypted key material.
    pub capsule: Vec<u8>,
    /// The digest of the bid.
    pub commitment: Vec<u8>,
}

/// What a proposal holds, as plain values.
pub struct SealedBid {
    pub deposit: u128,
    pub ciphertext: Seq<u8>,
    pub nonce: Seq<u8>,
    pub capsule: Seq<u8>,
    pub commitment: Seq<u8>,
}

impl View for Proposal {
    type V = SealedBid;

    open spec fn view(&self) -> SealedBid {
        SealedBid {
            deposit: self.deposit,
            ciphertext: self.ciphertext@,
            nonce: self.nonce@,
            capsule: self.capsule@,
            commitment: self.commitment@,
        }
    }
}

/// A copy of a byte string.
pub fn copy_bytes(bytes: &Vec<u8>) -> (copy: Vec<u8>)
    ensures
        copy@ == bytes@,
{
    let mut copy: Vec<u8> = Vec::new();
    let mut i: usize = 0;
    while i < bytes.len()
        invariant
            i <= bytes@.len(),
            copy@ == bytes@.take(i as int),
        decreases bytes@.len() - i,
    {
        copy.push(bytes[i]);
        assert(bytes@.take(i + 1) =~= bytes@.take(i as int).push(bytes@[i as int]));
        i += 1;
    }
    assert(bytes@.take(i as int) =~= bytes@);
    copy
}

impl Proposal {
    /// A copy of the proposal.
    pub fn duplicate(&self) -> (copy: Proposal)
        ensures
            copy@ == self@,
    {
        Proposal {
            deposit: self.deposit,
            ciphertext: copy_bytes(&self.ciphertext),
            nonce: copy_bytes(&self.nonce),
            capsule: copy_bytes(&self.capsule),
            commitment: copy_bytes(&self.commitment),
        }
    }
}

/// A bid as it is revealed: who bid, and the value they say they bid.
#[derive(Clone, Copy, Debug, PartialEq, Eq)]
pub struct RevealedBid {
    /// The bidder.
    pub bidder: AccountId,
    /// The revealed value.
    pub bid: u128,
}

/// How an auction ended: who won, and what the winner owes.
#[derive(Clone, Copy, Debug, PartialEq, Eq)]
pub struct AuctionResult {
    /// The winner.
    pub winner: AccountId,
    /// The amount the winner owes: the second-highest valid bid.
    pub debt: u128,
}

} // verus!
