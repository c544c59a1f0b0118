//! The guessing game: players publish sealed guesses, which are opened
//! together once the key is out.
//!
//! Decrypting is the host's work. The game keeps the sealed guesses, hands
//! them out in the order in which the players joined, and keeps what they
//! were opened to.

use vstd::prelude::*;
use crate::account::AccountId;
use crate::proposal::copy_bytes;
use crate::registry::Registry;
use crate::store::AccountMap;

verus! {

/// What a guessing game holds.
pub struct Guesses {
    pub slots: Seq<u32>,
    pub public_key: Seq<u8>,
    pub nonce: Seq<u8>,
    pub encrypted_shares: Seq<u8>,
    pub participants: Seq<AccountId>,
    pub messages: Map<AccountId, Seq<u8>>,
    pub revealed_messages: Seq<Seq<u8>>,
}

impl Guesses {
    /// What always holds: nobody has joined twice, and those who joined are
    /// those who have a guess.
    pub open spec fn consistent(self) -> bool {
        &&& self.participants.no_duplicates()
        &&& forall|p: AccountId| self.participants.contains(p) <==> self.messages.contains_key(p)
    }

    /// The game after `caller` has published `msg`: the caller joins if new,
    /// and the guess replaces any earlier one of the caller.
    pub open spec fn publish(self, caller: AccountId, msg: Seq<u8>) -> Guesses {
        Guesses {
            participants: if self.participants.contains(caller) {
                self.participants
            } else {
                self.participants.push(caller)
            },
            messages: self.messages.insert(caller, msg),
            ..self
        }
    }

    /// The sealed guesses in the order in which the players joined.
    pub open spec fn sealed(self) -> Seq<Seq<u8>> {
        Seq::new(self.participants.len(), |i: int| self.messages[self.participants[i]])
    }
}

/// A game of sealed guesses.
pub struct TlockGuessANumber {
    slots: Vec<u32>,
    public_key: [u8; 32],
    nonce: Vec<u8>,
    encrypted_shares: Vec<u8>,
    messages: AccountMap<Vec<u8>>,
    participants: Registry,
    revealed_messages: Vec<Vec<u8>>,
}

/// Byte strings as plain values.
pub open spec fn plain(list: Seq<Vec<u8>>) -> Seq<Seq<u8>> {
    Seq::new(list.len(), |i: int| list[i]@)
}

impl View for TlockGuessANumber {
    type V = Guesses;

    closed spec fn view(&self) -> Guesses {
        Guesses {
            slots: self.slots@,
            public_key: self.public_key@,
            nonce: self.nonce@,
            encrypted_shares: self.encrypted_shares@,
            participants: self.participants@,
            messages: self.messages@.map_values(|m: Vec<u8>| m@),
            revealed_messages: plain(self.revealed_messages@),
        }
    }
}

impl TlockGuessANumber {
    /// The representation invariant. It implies that the game is consistent.
    pub closed spec fn wf(&self) -> bool {
        &&& self.participants.wf()
        &&& self.messages.wf()
        &&& self@.consistent()
    }

    /// A well-formed game is consistent.
    pub proof fn lemma_consistent(&self)
        requires
            self.wf(),
        ensures
            self@.consistent(),
    {
    }

    /// A game that nobody has joined.
    pub fn new(slots: Vec<u32>, public_key: [u8; 32], nonce: Vec<u8>, encrypted_shares: Vec<u8>) -> (game:
        TlockGuessANumber)
        ensures
            game.wf(),
            game@ == (Guesses {
                slots: slots@,
                public_key: public_key@,
                nonce: nonce@,
                encrypted_shares: encrypted_shares@,
                participants: Seq::empty(),
                messages: Map::empty(),
                revealed_messages: Seq::empty(),
            }),
    {
        let game = TlockGuessANumber {
            slots,
            public_key,
            nonce,
            encrypted_shares,
            messages: AccountMap::new(),
            participants: Registry::new(),
            revealed_messages: Vec::new(),
        };
        assert(game@.messages =~= Map::<AccountId, Seq<u8>>::empty());
        assert(game@.revealed_messages =~= Seq::<Seq<u8>>::empty());
        game
    }

    /// The nonce under which the guesses are sealed.
    pub fn get_nonce(&self) -> (nonce: Vec<u8>)
        ensures
            nonce@ == self@.nonce,
    {
        copy_bytes(&self.nonce)
    }

    /// The players in the order in which they joined.
    pub fn get_participants(&self) -> (v: Vec<AccountId>)
        ensures
            v@ == self@.participants,
    {
        self.participants.to_vec()
    }

    /// Publishes the sealed guess `msg` of `caller`.
    pub fn publish(&mut self, caller: AccountId, msg: Vec<u8>)
        requires
            old(self).wf(),
        ensures
            final(self).wf(),
            final(self)@ == old(self)@.publish(caller, msg@),
    {
        let ghost before = self.participants@;
        self.participants.register(caller);
        self.messages.insert(caller, msg);
        proof {
            assert(self@.messages =~= old(self)@.messages.insert(caller, msg@));
            assert forall|p: AccountId| self.participants@.contains(p) <==> (p == caller
                || before.contains(p)) by {
                if self.participants@.contains(p) {
                    let j = choose|j: int|
                        0 <= j < self.participants@.len() && self.participants@[j] == p;
                    if j < before.len() {
                        assert(before[j] == p);
                    }
                }
                if before.contains(p) {
                    let j = choose|j: int| 0 <= j < before.len() && before[j] == p;
                    assert(self.participants@[j] == p);
                }
                if p == caller && !before.contains(caller) {
                    assert(self.participants@[before.len() as int] == caller);
                }
            }
            assert forall|p: AccountId|
                self@.participants.contains(p) <==> self@.messages.contains_key(p) by {
                assert(old(self)@.participants.contains(p) <==> old(self)@.messages.contains_key(p));
                assert(self@.messages.contains_key(p) <==> (p == caller
                    || old(self)@.messages.contains_key(p)));
            }
        }
    }

    /// The sealed guesses in the order in which the players joined, for
    /// whoever decrypts them.
    pub fn sealed_messages(&self) -> (v: Vec<Vec<u8>>)
        requires
            self.wf(),
        ensures
            plain(v@) == self@.sealed(),
    {
        let mut v: Vec<Vec<u8>> = Vec::new();
        let n: usize = self.participants.len();
        let mut i: usize = 0;
        while i < n
            invariant
                i <= n,
                n == self@.participants.len(),
                self.wf(),
                v@.len() == i,
                forall|k: int| 0 <= k < i ==> v@[k]@ == self@.sealed()[k],
            decreases n - i,
        {
            let p = self.participants.get(i);
            assert(self@.participants.contains(p));
            match self.messages.get(&p) {
                Some(m) => {
                    v.push(copy_bytes(m));
                },
                None => {
                    v.push(Vec::new());
                },
            }
            i += 1;
        }
        assert(plain(v@) =~= self@.sealed());
        v
    }

    /// Keeps what the guesses were opened to, in place of what was kept.
    pub fn reveal_messages(&mut self, plaintexts: Vec<Vec<u8>>)
        requires
            old(self).wf(),
        ensures
            final(self).wf(),
            final(self)@ == (Guesses { revealed_messages: plain(plaintexts@), ..old(self)@ }),
    {
        self.revealed_messages = plaintexts;
    }

    /// What the guesses were opened to.
    pub fn get_revealed_messages(&self) -> (v: Vec<Vec<u8>>)
        ensures
            plain(v@) == self@.revealed_messages,
    {
        let mut v: Vec<Vec<u8>> = Vec::new();
        let mut i: usize = 0;
        while i < self.revealed_messages.len()
            invariant
                i <= self.revealed_messages@.len(),
                v@.len() == i,
                forall|k: int| 0 <= k < i ==> v@[k]@ == self.revealed_messages@[k]@,
            decreases self.revealed_messages@.len() - i,
        {
            v.push(copy_bytes(&self.revealed_messages[i]));
            i += 1;
        }
        assert(plain(v@) =~= self@.revealed_messages);
        v
    }
}

impl Default for TlockGuessANumber {
    fn default() -> (game: TlockGuessANumber)
        ensures
            game.wf(),
            game@ == (Guesses {
                slots: Seq::empty(),
                public_key: Seq::new(32, |i: int| 0u8),
                nonce: Seq::empty(),
                encrypted_shares: Seq::empty(),
                participants: Seq::empty(),
                messages: Map::empty(),
                revealed_messages: Seq::empty(),
            }),
    {
        let key = [0u8;32];
        assert(key@ =~= Seq::new(32, |i: int| 0u8));
        TlockGuessANumber::new(Vec::new(), key, Vec::new(), Vec::new())
    }
}

} // verus!
