//! The mathematical model of an auction.
//!
//! The books of an auction hold the participants in order of registration,
//! one live proposal per participant at most, the proposals whose reveal
//! failed, the bids that were revealed and found valid, and the result once
//! there is one. An auction is its books together with its terms, the phase
//! it is in, and the note of who has had a deposit back. Every operation of
//! an auction is specified by a function here from the state before to the
//! state after.

use vstd::prelude::*;
use crate::account::AccountId;
use crate::error::Error;
use crate::pricing::{is_runner_up, is_top, no_bids};
use crate::proposal::{AuctionResult, SealedBid};

verus! {

/// A revealed value together with the digest that was computed for it.
pub struct Quote {
    pub value: u128,
    pub digest: Seq<u8>,
}

/// The lookup that a list of quotes stands for: where a bidder occurs more
/// than once, the last occurrence counts.
pub open spec fn quotes_of(list: Seq<(AccountId, Quote)>) -> Map<AccountId, Quote>
    decreases list.len(),
{
    if list.len() == 0 {
        Map::empty()
    } else {
        quotes_of(list.drop_last()).insert(list.last().0, list.last().1)
    }
}

/// The books of one auction.
pub struct Books {
    pub participants: Seq<AccountId>,
    pub proposals: Map<AccountId, SealedBid>,
    pub failed_proposals: Map<AccountId, SealedBid>,
    pub revealed_bids: Map<AccountId, u128>,
    pub winner: Option<AuctionResult>,
}

impl Books {
    /// The books of an auction that nobody has bid in.
    pub open spec fn empty() -> Books {
        Books {
            participants: Seq::empty(),
            proposals: Map::empty(),
            failed_proposals: Map::empty(),
            revealed_bids: Map::empty(),
            winner: None,
        }
    }

    /// What always holds of the books: nobody is registered twice, and only
    /// participants have proposals, revealed bids, or the win.
    pub open spec fn consistent(self) -> bool {
        &&& self.participants.no_duplicates()
        &&& forall|p: AccountId| #[trigger]
            self.proposals.contains_key(p) ==> self.participants.contains(p)
        &&& forall|p: AccountId| #[trigger]
            self.failed_proposals.contains_key(p) ==> self.participants.contains(p)
        &&& forall|p: AccountId| #[trigger]
            self.revealed_bids.contains_key(p) ==> self.participants.contains(p)
        &&& self.winner matches Some(result) ==> self.participants.contains(result.winner)
    }

    /// The deposit that the auction holds for `who`: the one that came with
    /// the live proposal, or else with the proposal that failed its reveal.
    pub open spec fn escrow_of(self, who: AccountId) -> Option<u128> {
        if self.proposals.contains_key(who) {
            Some(self.proposals[who].deposit)
        } else if self.failed_proposals.contains_key(who) {
            Some(self.failed_proposals[who].deposit)
        } else {
            None
        }
    }

    /// The books after `bidder` has submitted `bid`: the bidder is registered
    /// behind the others if new, and the bid replaces any earlier one.
    pub open spec fn submit(self, bidder: AccountId, bid: SealedBid) -> Books {
        Books {
            participants: if self.participants.contains(bidder) {
                self.participants
            } else {
                self.participants.push(bidder)
            },
            proposals: self.proposals.insert(bidder, bid),
            ..self
        }
    }

    /// Whether `p` is a participant with a live proposal for whom a value was
    /// quoted.
    pub open spec fn answers(self, quotes: Map<AccountId, Quote>, p: AccountId) -> bool {
        &&& self.participants.contains(p)
        &&& quotes.contains_key(p)
        &&& self.proposals.contains_key(p)
    }

    /// Whether the value quoted for `p` reproduces the commitment of `p`.
    pub open spec fn accepts(self, quotes: Map<AccountId, Quote>, p: AccountId) -> bool {
        self.answers(quotes, p) && quotes[p].digest == self.proposals[p].commitment
    }

    /// Whether the value quoted for `p` fails the commitment of `p`.
    pub open spec fn rejects(self, quotes: Map<AccountId, Quote>, p: AccountId) -> bool {
        self.answers(quotes, p) && quotes[p].digest != self.proposals[p].commitment
    }

    /// The valid bids, one place per participant in registration order.
    pub open spec fn standings(self, quotes: Map<AccountId, Quote>) -> Seq<Option<u128>> {
        Seq::new(
            self.participants.len(),
            |i: int|
                if self.accepts(quotes, self.participants[i]) {
                    Some(quotes[self.participants[i]].value)
                } else {
                    None
                },
        )
    }

    /// Whether `result` is what the second-price rule gives on the valid
    /// bids: the first participant to hold the highest valid bid, owing the
    /// highest valid bid among the others; where nobody bid validly, the
    /// result is what it was.
    pub open spec fn is_result(
        self,
        quotes: Map<AccountId, Quote>,
        result: Option<AuctionResult>,
    ) -> bool {
        let bids = self.standings(quotes);
        if no_bids(bids) {
            result == self.winner
        } else {
            &&& result matches Some(r)
            &&& exists|w: int|
                is_top(bids, w) && is_runner_up(bids, w, r.debt) && self.participants[w]
                    == r.winner
        }
    }

    /// The books after the quotes have been checked: every valid bid is
    /// recorded as revealed, every proposal that failed its check has moved
    /// from the live proposals to the failed ones, and `result` is recorded.
    pub open spec fn resolve(self, quotes: Map<AccountId, Quote>, result: Option<AuctionResult>)
        -> Books {
        Books {
            participants: self.participants,
            proposals: Map::new(
                |p: AccountId| self.proposals.contains_key(p) && !self.rejects(quotes, p),
                |p: AccountId| self.proposals[p],
            ),
            failed_proposals: Map::new(
                |p: AccountId| self.failed_proposals.contains_key(p) || self.rejects(quotes, p),
                |p: AccountId|
                    if self.rejects(quotes, p) {
                        self.proposals[p]
                    } else {
                        self.failed_proposals[p]
                    },
            ),
            revealed_bids: Map::new(
                |p: AccountId| self.revealed_bids.contains_key(p) || self.accepts(quotes, p),
                |p: AccountId|
                    if self.accepts(quotes, p) {
                        quotes[p].value
                    } else {
                        self.revealed_bids[p]
                    },
            ),
            winner: result,
        }
    }
}

/// Where an auction stands.
#[derive(Clone, Copy, Debug, PartialEq, Eq, Structural)]
pub enum Phase {
    /// Proposals are taken.
    Bidding,
    /// The bids have been checked and the result stands.
    Resolved,
    /// The winner has collected the asset.
    Claimed,
}

/// What a claimant is owed.
#[derive(Clone, Copy, Debug, PartialEq, Eq)]
pub enum Settlement {
    /// The winner is owed the asset.
    Asset { asset_id: u32, to: AccountId },
    /// A bidder who did not win is owed the deposit back.
    Refund { to: AccountId, amount: u128 },
}

/// One auction: what it sells and on what terms, where it stands, its books,
/// and who has had a deposit back.
pub struct AuctionState {
    pub owner: AccountId,
    pub registry: AccountId,
    pub asset_name: Seq<u8>,
    pub asset_id: u32,
    pub verified: bool,
    pub minimum_deposit: u128,
    pub deadline: u64,
    pub phase: Phase,
    pub books: Books,
    pub refunded: Seq<AccountId>,
}

impl AuctionState {
    /// What always holds of an auction.
    ///
    /// Its books are consistent. While it takes proposals, nothing has been
    /// revealed, nothing has failed, and there is no result. No participant
    /// has both a live and a failed proposal, and whoever has a revealed bid
    /// has a live proposal. The winner has a revealed bid and owes no more
    /// than that. Whoever has had a deposit back is a participant, and nobody
    /// has had it back twice.
    pub open spec fn consistent(self) -> bool {
        &&& self.books.consistent()
        &&& self.phase == Phase::Bidding ==> {
            &&& self.books.winner is None
            &&& self.books.failed_proposals == Map::<AccountId, SealedBid>::empty()
            &&& self.books.revealed_bids == Map::<AccountId, u128>::empty()
        }
        &&& forall|p: AccountId| #[trigger]
            self.books.failed_proposals.contains_key(p) ==> !self.books.proposals.contains_key(p)
        &&& forall|p: AccountId| #[trigger]
            self.books.revealed_bids.contains_key(p) ==> self.books.proposals.contains_key(p)
        &&& self.books.winner matches Some(result) ==> {
            &&& self.books.revealed_bids.contains_key(result.winner)
            &&& result.debt <= self.books.revealed_bids[result.winner]
        }
        &&& self.refunded.no_duplicates()
        &&& forall|p: AccountId| #[trigger]
            self.refunded.contains(p) ==> self.books.participants.contains(p)
    }

    /// Whether the item can be noted as taken into custody on a call of
    /// `caller`, and why not if not: only the owner may hand it over, and the
    /// hand-over must have gone through.
    pub open spec fn start_verdict(self, caller: AccountId, transferred: bool) -> Result<
        (),
        Error,
    > {
        if caller != self.owner {
            Err(Error::NotAuctionOwner)
        } else if !transferred {
            Err(Error::AssetTransferFailed)
        } else {
            Ok(())
        }
    }

    /// The auction after an attempt to take the item into custody.
    pub open spec fn start(self, caller: AccountId, transferred: bool) -> AuctionState {
        if self.start_verdict(caller, transferred) is Ok {
            AuctionState { verified: true, ..self }
        } else {
            self
        }
    }

    /// Whether a proposal with this deposit is taken, and why not if not. The
    /// deposit is looked at first.
    pub open spec fn propose_verdict(self, deposit: u128, deadline_reached: bool) -> Result<
        (),
        Error,
    > {
        if deposit < self.minimum_deposit {
            Err(Error::DepositTooLow)
        } else if deadline_reached || self.phase != Phase::Bidding {
            Err(Error::AuctionAlreadyComplete)
        } else {
            Ok(())
        }
    }

    /// The auction after `caller` has tried to submit `bid`.
    pub open spec fn propose(self, caller: AccountId, bid: SealedBid, deadline_reached: bool)
        -> AuctionState {
        if self.propose_verdict(bid.deposit, deadline_reached) is Ok {
            AuctionState { books: self.books.submit(caller, bid), ..self }
        } else {
            self
        }
    }

    /// Whether the auction can be resolved now, and why not if not.
    pub open spec fn complete_verdict(self, deadline_reached: bool) -> Result<(), Error> {
        if !deadline_reached {
            Err(Error::AuctionInProgress)
        } else if self.phase != Phase::Bidding {
            Err(Error::AlreadyResolved)
        } else {
            Ok(())
        }
    }

    /// The auction after an attempt to resolve it with these quotes, where
    /// `result` is what the second-price rule gave.
    pub open spec fn complete(
        self,
        quotes: Map<AccountId, Quote>,
        result: Option<AuctionResult>,
        deadline_reached: bool,
    ) -> AuctionState {
        if self.complete_verdict(deadline_reached) is Ok {
            AuctionState { books: self.books.resolve(quotes, result), phase: Phase::Resolved, ..self }
        } else {
            self
        }
    }

    /// Whether `caller` is the recorded winner.
    pub open spec fn is_winner(self, caller: AccountId) -> bool {
        self.books.winner matches Some(result) && result.winner == caller
    }

    /// What `caller` is owed on a claim that comes with `transferred`, or why
    /// the claim is refused.
    ///
    /// Before the deadline every claim is refused with `AuctionInProgress`.
    /// The winner is owed the asset against exactly the debt, once: any other
    /// amount is refused with `InvalidCurrencyAmountTransferred`, a second
    /// claim with `AlreadyClaimed`. The winner's own deposit stays with the
    /// auction. Anyone else is owed the deposit that the auction holds for
    /// them, once: the one that came with their live proposal, or else with
    /// their proposal that failed its reveal, for a failed reveal forfeits
    /// nothing. A second claim is refused with `AlreadyClaimed`, and one for
    /// whom no deposit is held with `NoDeposit`. Whether the item is in
    /// custody decides nothing here: where it is not, the transfer is what
    /// fails.
    pub open spec fn claim(self, caller: AccountId, transferred: u128, deadline_reached: bool)
        -> Result<Settlement, Error> {
        if !deadline_reached {
            Err(Error::AuctionInProgress)
        } else if self.is_winner(caller) {
            if transferred != self.books.winner->0.debt {
                Err(Error::InvalidCurrencyAmountTransferred)
            } else if self.phase == Phase::Claimed {
                Err(Error::AlreadyClaimed)
            } else {
                Ok(Settlement::Asset { asset_id: self.asset_id, to: caller })
            }
        } else if self.refunded.contains(caller) {
            Err(Error::AlreadyClaimed)
        } else {
            match self.books.escrow_of(caller) {
                Some(amount) => Ok(Settlement::Refund { to: caller, amount }),
                None => Err(Error::NoDeposit),
            }
        }
    }

    /// What a claim comes to once the transfer it called for has been tried:
    /// the refusal of the claim itself, or a failed transfer, or success.
    pub open spec fn claim_outcome(
        self,
        caller: AccountId,
        transferred: u128,
        deadline_reached: bool,
        delivered: bool,
    ) -> Result<Settlement, Error> {
        match self.claim(caller, transferred, deadline_reached) {
            Err(e) => Err(e),
            Ok(owed) => if delivered {
                Ok(owed)
            } else {
                Err(Error::AssetTransferFailed)
            },
        }
    }

    /// The auction after the transfer that a claim called for has been tried.
    /// Only a claim that was granted and delivered leaves a mark: the winner's
    /// closes the auction, another's is noted so that it is not paid again.
    pub open spec fn confirm_claim(
        self,
        caller: AccountId,
        transferred: u128,
        deadline_reached: bool,
        delivered: bool,
    ) -> AuctionState {
        match self.claim_outcome(caller, transferred, deadline_reached, delivered) {
            Err(_) => self,
            Ok(Settlement::Asset { .. }) => AuctionState { phase: Phase::Claimed, ..self },
            Ok(Settlement::Refund { .. }) => AuctionState {
                refunded: self.refunded.push(caller),
                ..self
            },
        }
    }
}

} // verus!
