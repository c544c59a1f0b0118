//! The sealed-bid auction that takes its calls from a proxy only.
//!
//! The proxy holds the deposits and watches the deadline; the auction keeps
//! the sealed proposals of whoever calls it with the proxy's authority, checks
//! the revealed bids against them, and applies the second-price rule.

use vstd::prelude::*;
use crate::account::AccountId;
use crate::auction::{honest_quotes, open_bids};
use crate::error::Error;
use crate::events::ProposalSuccess;
use crate::ledger::{quoted, Ledger, OpenedBid};
use crate::model::{quotes_of, Books, Quote};
use crate::proposal::{AuctionResult, Proposal};

verus! {

/// What a proxy-only auction holds.
pub struct SpsbState {
    pub proxy: AccountId,
    pub asset_id: u32,
    pub books: Books,
    pub resolved: bool,
}

impl SpsbState {
    /// What always holds: the books are consistent, and there is a result
    /// only once the auction has been resolved.
    pub open spec fn consistent(self) -> bool {
        self.books.consistent() && (!self.resolved ==> self.books.winner is None)
    }

    /// Whether `caller` has the proxy's authority, and the refusal if not.
    pub open spec fn check_caller(self, caller: AccountId) -> Result<(), Error> {
        if caller != self.proxy {
            Err(Error::UnathorizedOrigin)
        } else {
            Ok(())
        }
    }

    /// The auction after `caller` has tried to submit `bid`.
    pub open spec fn bid(self, caller: AccountId, bid: crate::proposal::SealedBid) -> SpsbState {
        if self.check_caller(caller) is Ok {
            SpsbState { books: self.books.submit(caller, bid), ..self }
        } else {
            self
        }
    }

    /// Whether `caller` may resolve the auction now, and why not if not.
    pub open spec fn complete_verdict(self, caller: AccountId) -> Result<(), Error> {
        if caller != self.proxy {
            Err(Error::UnathorizedOrigin)
        } else if self.resolved {
            Err(Error::AlreadyResolved)
        } else {
            Ok(())
        }
    }

    /// The auction after `caller` has tried to resolve it with these quotes,
    /// where `result` is what the second-price rule gave.
    pub open spec fn complete(
        self,
        caller: AccountId,
        quotes: Map<AccountId, Quote>,
        result: Option<AuctionResult>,
    ) -> SpsbState {
        if self.complete_verdict(caller) is Ok {
            SpsbState { books: self.books.resolve(quotes, result), resolved: true, ..self }
        } else {
            self
        }
    }
}

/// A sealed-bid auction behind a proxy.
pub struct SPSBAuction {
    proxy: AccountId,
    asset_id: u32,
    ledger: Ledger,
    resolved: bool,
}

impl View for SPSBAuction {
    type V = SpsbState;

    closed spec fn view(&self) -> SpsbState {
        SpsbState {
            proxy: self.proxy,
            asset_id: self.asset_id,
            books: self.ledger@,
            resolved: self.resolved,
        }
    }
}

impl SPSBAuction {
    /// The representation invariant. It implies that the auction is
    /// consistent.
    pub closed spec fn wf(&self) -> bool {
        self.ledger.wf() && self@.consistent()
    }

    /// A well-formed auction is consistent.
    pub proof fn lemma_consistent(&self)
        requires
            self.wf(),
        ensures
            self@.consistent(),
    {
    }

    /// A new auction of the asset `asset_id` behind `proxy`, with no
    /// participants.
    pub fn new(proxy: AccountId, asset_id: u32) -> (auction: SPSBAuction)
        ensures
            auction.wf(),
            auction@ == (SpsbState { proxy, asset_id, books: Books::empty(), resolved: false }),
    {
        let ledger = Ledger::new();
        proof {
            ledger.lemma_consistent();
        }
        SPSBAuction { proxy, asset_id, ledger, resolved: false }
    }

    /// The asset that is sold.
    pub fn get_asset_id(&self) -> (id: u32)
        ensures
            id == self@.asset_id,
    {
        self.asset_id
    }

    /// The proxy that the auction takes its calls from.
    pub fn get_proxy(&self) -> (proxy: AccountId)
        ensures
            proxy == self@.proxy,
    {
        self.proxy
    }

    /// The result, once there is one: the winner and the debt.
    pub fn get_winner(&self) -> (r: Option<(AccountId, u128)>)
        ensures
            r == match self@.books.winner {
                Some(result) => Some((result.winner, result.debt)),
                None => None,
            },
    {
        match self.ledger.winner() {
            Some(result) => Some((result.winner, result.debt)),
            None => None,
        }
    }

    /// The live proposal of `who`, if there is one.
    pub fn get_proposals(&self, who: AccountId) -> (r: Option<Proposal>)
        requires
            self.wf(),
        ensures
            match r {
                Some(p) => self@.books.proposals.contains_key(who) && p@
                    == self@.books.proposals[who],
                None => !self@.books.proposals.contains_key(who),
            },
    {
        self.ledger.proposal(&who)
    }

    /// The proposal of `who` that failed its reveal, if there is one.
    pub fn get_failed_proposals(&self, who: AccountId) -> (r: Option<Proposal>)
        requires
            self.wf(),
        ensures
            match r {
                Some(p) => self@.books.failed_proposals.contains_key(who) && p@
                    == self@.books.failed_proposals[who],
                None => !self@.books.failed_proposals.contains_key(who),
            },
    {
        self.ledger.failed_proposal(&who)
    }

    /// The participants in order of registration.
    pub fn get_participants(&self) -> (v: Vec<AccountId>)
        ensures
            v@ == self@.books.participants,
    {
        self.ledger.participants()
    }

    /// The bid of `who` as it was revealed and found valid, if it was.
    pub fn get_revealed_bid(&self, who: AccountId) -> (r: Option<u128>)
        requires
            self.wf(),
        ensures
            match r {
                Some(b) => self@.books.revealed_bids.contains_key(who) && b
                    == self@.books.revealed_bids[who],
                None => !self@.books.revealed_bids.contains_key(who),
            },
    {
        self.ledger.revealed_bid(&who)
    }

    /// Whether `caller` has the proxy's authority: `UnathorizedOrigin` if not.
    pub fn check_caller(&self, caller: AccountId) -> (r: Result<(), Error>)
        ensures
            r == self@.check_caller(caller),
    {
        if !caller.same(&self.proxy) {
            return Err(Error::UnathorizedOrigin);
        }
        Ok(())
    }

    /// Submits a sealed bid for `caller`, who must have the proxy's
    /// authority. The caller is registered if new, and the proposal, which
    /// holds no deposit, replaces any earlier one of the caller.
    pub fn bid(
        &mut self,
        caller: AccountId,
        ciphertext: Vec<u8>,
        nonce: Vec<u8>,
        capsule: Vec<u8>,
        commitment: Vec<u8>,
    ) -> (r: Result<ProposalSuccess, Error>)
        requires
            old(self).wf(),
        ensures
            final(self).wf(),
            r is Ok <==> old(self)@.check_caller(caller) is Ok,
            r matches Err(e) ==> old(self)@.check_caller(caller) == Err::<(), Error>(e),
            final(self)@ == old(self)@.bid(
                caller,
                (Proposal { deposit: 0, ciphertext, nonce, capsule, commitment })@,
            ),
    {
        match self.check_caller(caller) {
            Err(e) => {
                return Err(e);
            },
            Ok(_) => {},
        }
        let proposal = Proposal { deposit: 0, ciphertext, nonce, capsule, commitment };
        self.ledger.submit(caller, proposal);
        proof {
            self.ledger.lemma_consistent();
        }
        Ok(ProposalSuccess {  })
    }

    /// Resolves the auction for `caller` from bids whose digests have been
    /// computed. The call is refused with `UnathorizedOrigin` where the caller
    /// lacks the proxy's authority, else with `AlreadyResolved` where the
    /// auction has been resolved before.
    pub fn resolve_opened(&mut self, caller: AccountId, opened: &Vec<OpenedBid>) -> (r: Result<
        (),
        Error,
    >)
        requires
            old(self).wf(),
        ensures
            final(self).wf(),
            r == old(self)@.complete_verdict(caller),
            r is Ok ==> old(self)@.books.is_result(
                quotes_of(quoted(opened@)),
                final(self)@.books.winner,
            ),
            final(self)@ == old(self)@.complete(
                caller,
                quotes_of(quoted(opened@)),
                final(self)@.books.winner,
            ),
    {
        match self.check_caller(caller) {
            Err(e) => {
                return Err(e);
            },
            Ok(_) => {},
        }
        if self.resolved {
            return Err(Error::AlreadyResolved);
        }
        self.ledger.resolve(opened);
        self.resolved = true;
        proof {
            self.ledger.lemma_consistent();
        }
        Ok(())
    }

    /// Resolves the auction for `caller` from the revealed bids: computes the
    /// commitment to each revealed value and settles the books with them.
    pub fn complete(&mut self, caller: AccountId, revealed_bids: Vec<(AccountId, u128)>) -> (r:
        Result<(), Error>)
        requires
            old(self).wf(),
        ensures
            final(self).wf(),
            r == old(self)@.complete_verdict(caller),
            r is Ok ==> old(self)@.books.is_result(
                quotes_of(honest_quotes(revealed_bids@)),
                final(self)@.books.winner,
            ),
            final(self)@ == old(self)@.complete(
                caller,
                quotes_of(honest_quotes(revealed_bids@)),
                final(self)@.books.winner,
            ),
    {
        match self.check_caller(caller) {
            Err(e) => {
                return Err(e);
            },
            Ok(_) => {},
        }
        let opened = open_bids(&revealed_bids);
        self.resolve_opened(caller, &opened)
    }
}

} // verus!
