//! A society's record of verified ciphertexts.
//!
//! Members publish ciphertexts with a proof that they are well formed.
//! Checking the proof is the host's work; what passed is kept here under the
//! hash of the ciphertext.

use vstd::prelude::*;
use crate::account::AccountId;
use crate::store::AccountMap;

verus! {

/// The two group elements by which a ciphertext was verified.
#[derive(Clone, Copy, Debug, PartialEq, Eq)]
pub struct CiphertextVerification {
    pub u: [u8; 32],
    pub w: [u8; 32],
}

/// What a society holds: its identifier, and what was verified, by hash.
pub struct Records {
    pub society_id: [u8; 32],
    pub fs: Map<[u8; 32], CiphertextVerification>,
}

/// A society.
pub struct Society {
    society_id: [u8; 32],
    fs: AccountMap<CiphertextVerification>,
}

/// The records that are kept under thirty-two bytes each.
pub open spec fn by_hash(entries: Map<AccountId, CiphertextVerification>) -> Map<
    [u8; 32],
    CiphertextVerification,
> {
    Map::new(
        |h: [u8; 32]| entries.contains_key(AccountId { bytes: h }),
        |h: [u8; 32]| entries[AccountId { bytes: h }],
    )
}

impl View for Society {
    type V = Records;

    closed spec fn view(&self) -> Records {
        Records { society_id: self.society_id, fs: by_hash(self.fs@) }
    }
}

impl Society {
    /// The representation invariant.
    pub closed spec fn wf(&self) -> bool {
        self.fs.wf()
    }

    /// A society with nothing on record.
    pub fn new(society_id: [u8; 32]) -> (society: Society)
        ensures
            society.wf(),
            society@ == (Records { society_id, fs: Map::empty() }),
    {
        let society = Society { society_id, fs: AccountMap::new() };
        assert(society@.fs =~= Map::<[u8; 32], CiphertextVerification>::empty());
        society
    }

    /// The identifier of the society.
    pub fn get_society_id(&self) -> (id: [u8; 32])
        ensures
            id == self@.society_id,
    {
        self.society_id
    }

    /// What is on record under `hash`, if anything.
    pub fn get(&self, hash: [u8; 32]) -> (r: Option<CiphertextVerification>)
        requires
            self.wf(),
        ensures
            r == (if self@.fs.contains_key(hash) {
                Some(self@.fs[hash])
            } else {
                None
            }),
    {
        match self.fs.get(&AccountId::new(hash)) {
            Some(v) => Some(*v),
            None => None,
        }
    }

    /// Puts `u` and `w` on record under `hash` where the ciphertext was found
    /// valid; where it was not, nothing changes.
    pub fn publish(&mut self, u: [u8; 32], hash: [u8; 32], w: [u8; 32], is_valid: bool)
        requires
            old(self).wf(),
        ensures
            final(self).wf(),
            final(self)@ == (if is_valid {
                Records {
                    fs: old(self)@.fs.insert(hash, CiphertextVerification { u, w }),
                    ..old(self)@
                }
            } else {
                old(self)@
            }),
    {
        if is_valid {
            self.fs.insert(AccountId::new(hash), CiphertextVerification { u, w });
            proof {
                let key = AccountId { bytes: hash };
                assert forall|h: [u8; 32]| h != hash implies (AccountId { bytes: h }) != key by {
                    if (AccountId { bytes: h }) == key {
                        assert((AccountId { bytes: h }).bytes == key.bytes);
                    }
                }
                assert(self@.fs =~= old(self)@.fs.insert(hash, CiphertextVerification { u, w }));
            }
        }
    }
}

impl Default for Society {
    fn default() -> (society: Society)
        ensures
            society.wf(),
            society@.society_id@ == Seq::new(32, |i: int| 0u8),
            society@.fs == Map::<[u8; 32], CiphertextVerification>::empty(),
    {
        let id = [0u8;32];
        assert(id@ =~= Seq::new(32, |i: int| 0u8));
        Society::new(id)
    }
}

} // verus!
