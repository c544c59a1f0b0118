//! The time-locked sealed-bid auction.
//!
//! An auction takes proposals until its deadline is reached, is resolved once
//! after that, and then serves claims: the winner collects the asset against
//! the debt, everybody else collects their deposit. Whether the deadline has
//! been reached is for the caller to find out and to pass in; what a claim
//! calls for is handed back for the caller to carry out.

use vstd::prelude::*;
use crate::account::AccountId;
use crate::commitment::{commit, commitment_of};
use crate::error::Error;
use crate::events::{AuctionItemVerified, BidComplete, ProposalSuccess};
use crate::laws::{
    lemma_complete_consistent, lemma_confirm_claim_consistent, lemma_propose_consistent,
};
use crate::ledger::{quoted, Ledger, OpenedBid};
use crate::model::{quotes_of, AuctionState, Books, Phase, Quote, Settlement};
use crate::proposal::{copy_bytes, Proposal};
use crate::registry::Registry;

verus! {

/// The asset that an auction sells.
#[derive(Clone, Debug, PartialEq, Eq)]
pub struct AuctionItem {
    /// The name of the item.
    pub name: Vec<u8>,
    /// The identifier of the item in its registry.
    pub id: u32,
    /// Whether the item has been taken into the custody of the auction.
    pub verified: bool,
}

/// A time-locked sealed-bid second-price auction.
pub struct TlockAuction {
    erc721: AccountId,
    owner: AccountId,
    auction_item: AuctionItem,
    deposit: u128,
    deadline: u64,
    ledger: Ledger,
    phase: Phase,
    refunded: Registry,
}

impl View for TlockAuction {
    type V = AuctionState;

    closed spec fn view(&self) -> AuctionState {
        AuctionState {
            owner: self.owner,
            registry: self.erc721,
            asset_name: self.auction_item.name@,
            asset_id: self.auction_item.id,
            verified: self.auction_item.verified,
            minimum_deposit: self.deposit,
            deadline: self.deadline,
            phase: self.phase,
            books: self.ledger@,
            refunded: self.refunded@,
        }
    }
}

/// Each revealed bid with the commitment to its value.
pub open spec fn honest_quotes(revealed: Seq<(AccountId, u128)>) -> Seq<(AccountId, Quote)> {
    Seq::new(
        revealed.len(),
        |i: int|
            (revealed[i].0, Quote { value: revealed[i].1, digest: commitment_of(revealed[i].1) }),
    )
}

/// Computes the commitment to each revealed value.
pub fn open_bids(revealed: &Vec<(AccountId, u128)>) -> (opened: Vec<OpenedBid>)
    ensures
        quoted(opened@) == honest_quotes(revealed@),
{
    let mut opened: Vec<OpenedBid> = Vec::new();
    let mut i: usize = 0;
    while i < revealed.len()
        invariant
            i <= revealed@.len(),
            opened@.len() == i,
            forall|k: int|
                0 <= k < i ==> quoted(opened@)[k] == #[trigger] honest_quotes(revealed@)[k],
        decreases revealed@.len() - i,
    {
        let bidder = revealed[i].0;
        let bid = revealed[i].1;
        let digest = commit(bid);
        opened.push(OpenedBid { bidder, bid, digest });
        i += 1;
    }
    assert(quoted(opened@) =~= honest_quotes(revealed@));
    opened
}

impl TlockAuction {
    /// The representation invariant. It implies that the auction is
    /// consistent.
    pub closed spec fn wf(&self) -> bool {
        &&& self.ledger.wf()
        &&& self.refunded.wf()
        &&& self@.consistent()
    }

    /// A well-formed auction is consistent.
    pub proof fn lemma_consistent(&self)
        requires
            self.wf(),
        ensures
            self@.consistent(),
    {
    }

    /// A new auction of the item `id` of the registry `erc721`, open for
    /// proposals, with no participants.
    pub fn new(
        owner: AccountId,
        name: Vec<u8>,
        erc721: AccountId,
        id: u32,
        deadline: u64,
        deposit: u128,
    ) -> (auction: TlockAuction)
        ensures
            auction.wf(),
            auction@ == (AuctionState {
                owner,
                registry: erc721,
                asset_name: name@,
                asset_id: id,
                verified: false,
                minimum_deposit: deposit,
                deadline,
                phase: Phase::Bidding,
                books: Books::empty(),
                refunded: Seq::empty(),
            }),
    {
        let ledger = Ledger::new();
        proof {
            ledger.lemma_consistent();
        }
        TlockAuction {
            erc721,
            owner,
            auction_item: AuctionItem { name, id, verified: false },
            deposit,
            deadline,
            ledger,
            phase: Phase::Bidding,
            refunded: Registry::new(),
        }
    }

    /// The version of the auction: the bytes of `0.0.1-dev`.
    pub fn get_version(&self) -> (version: Vec<u8>)
        ensures
            version@ == seq![48u8, 46u8, 48u8, 46u8, 49u8, 45u8, 100u8, 101u8, 118u8],
    {
        let version = vec![48u8, 46u8, 48u8, 46u8, 49u8, 45u8, 100u8, 101u8, 118u8];
        assert(version@ =~= seq![48u8, 46u8, 48u8, 46u8, 49u8, 45u8, 100u8, 101u8, 118u8]);
        version
    }

    /// Whether `caller` owns the auction: `NotAuctionOwner` if not. Only the
    /// owner may hand the item into the custody of the auction.
    pub fn check_owner(&self, caller: AccountId) -> (r: Result<(), Error>)
        ensures
            r == (if caller == self@.owner {
                Ok::<(), Error>(())
            } else {
                Err::<(), Error>(Error::NotAuctionOwner)
            }),
    {
        if !self.owner.same(&caller) {
            return Err(Error::NotAuctionOwner);
        }
        Ok(())
    }

    /// Whether the item has been taken into the custody of the auction.
    pub fn is_verified(&self) -> (verified: bool)
        ensures
            verified == self@.verified,
    {
        self.auction_item.verified
    }

    /// Notes that the item has been taken into custody.
    ///
    /// `caller` asked for it, and `transferred` says whether the registry let
    /// the auction move the item and moved it. The call is refused with
    /// `NotAuctionOwner` where the caller is not the owner, else with
    /// `AssetTransferFailed` where the hand-over failed; either way nothing
    /// changes.
    pub fn start(&mut self, caller: AccountId, transferred: bool) -> (r: Result<
        AuctionItemVerified,
        Error,
    >)
        requires
            old(self).wf(),
        ensures
            final(self).wf(),
            r is Ok <==> old(self)@.start_verdict(caller, transferred) is Ok,
            r matches Err(e) ==> old(self)@.start_verdict(caller, transferred) == Err::<(), Error>(
                e,
            ),
            final(self)@ == old(self)@.start(caller, transferred),
    {
        match self.check_owner(caller) {
            Err(e) => {
                return Err(e);
            },
            Ok(_) => {},
        }
        if !transferred {
            return Err(Error::AssetTransferFailed);
        }
        self.auction_item.verified = true;
        Ok(AuctionItemVerified {  })
    }

    /// The owner of the auction.
    pub fn get_owner(&self) -> (owner: AccountId)
        ensures
            owner == self@.owner,
    {
        self.owner
    }

    /// The registry in which the item lives.
    pub fn get_registry(&self) -> (registry: AccountId)
        ensures
            registry == self@.registry,
    {
        self.erc721
    }

    /// The identifier of the item.
    pub fn get_asset_id(&self) -> (id: u32)
        ensures
            id == self@.asset_id,
    {
        self.auction_item.id
    }

    /// The name of the item.
    pub fn get_name(&self) -> (name: Vec<u8>)
        ensures
            name@ == self@.asset_name,
    {
        copy_bytes(&self.auction_item.name)
    }

    /// The result, once there is one: the winner and the debt.
    pub fn get_winner(&self) -> (r: Option<(AccountId, u128)>)
        ensures
            r == match self@.books.winner {
                Some(result) => Some((result.winner, result.debt)),
                None => None,
            },
    {
        match self.ledger.winner() {
            Some(result) => Some((result.winner, result.debt)),
            None => None,
        }
    }

    /// The deadline, as the token that the caller's clock understands.
    pub fn get_deadline(&self) -> (deadline: u64)
        ensures
            deadline == self@.deadline,
    {
        self.deadline
    }

    /// The deposit that a proposal must come with at least.
    pub fn get_deposit(&self) -> (deposit: u128)
        ensures
            deposit == self@.minimum_deposit,
    {
        self.deposit
    }

    /// Where the auction stands.
    pub fn get_phase(&self) -> (phase: Phase)
        ensures
            phase == self@.phase,
    {
        self.phase
    }

    /// The live proposal of `who`, if there is one.
    pub fn get_proposals(&self, who: AccountId) -> (r: Option<Proposal>)
        requires
            self.wf(),
        ensures
            match r {
                Some(p) => self@.books.proposals.contains_key(who) && p@
                    == self@.books.proposals[who],
                None => !self@.books.proposals.contains_key(who),
            },
    {
        self.ledger.proposal(&who)
    }

    /// The proposal of `who` that failed its reveal, if there is one.
    pub fn get_failed_proposals(&self, who: AccountId) -> (r: Option<Proposal>)
        requires
            self.wf(),
        ensures
            match r {
                Some(p) => self@.books.failed_proposals.contains_key(who) && p@
                    == self@.books.failed_proposals[who],
                None => !self@.books.failed_proposals.contains_key(who),
            },
    {
        self.ledger.failed_proposal(&who)
    }

    /// The participants in order of registration.
    pub fn get_participants(&self) -> (v: Vec<AccountId>)
        ensures
            v@ == self@.books.participants,
    {
        self.ledger.participants()
    }

    /// The bid of `who` as it was revealed and found valid, if it was.
    pub fn get_revealed_bid(&self, who: AccountId) -> (r: Option<u128>)
        requires
            self.wf(),
        ensures
            match r {
                Some(b) => self@.books.revealed_bids.contains_key(who) && b
                    == self@.books.revealed_bids[who],
                None => !self@.books.revealed_bids.contains_key(who),
            },
    {
        self.ledger.revealed_bid(&who)
    }

    /// Whether `who` has had a deposit back.
    pub fn is_refunded(&self, who: AccountId) -> (r: bool)
        ensures
            r == self@.refunded.contains(who),
    {
        self.refunded.contains(&who)
    }
}

impl TlockAuction {
    /// Submits a sealed bid for `caller`, who escrowed `transferred_value`
    /// with it.
    ///
    /// The proposal is refused with `DepositTooLow` where the escrow is under
    /// the minimum deposit, else with `AuctionAlreadyComplete` where the
    /// deadline has been reached or the auction has been resolved. Otherwise
    /// the caller is registered if new, and the proposal replaces any earlier
    /// one of the caller.
    pub fn propose(
        &mut self,
        caller: AccountId,
        ciphertext: Vec<u8>,
        nonce: Vec<u8>,
        capsule: Vec<u8>,
        commitment: Vec<u8>,
        transferred_value: u128,
        deadline_reached: bool,
    ) -> (r: Result<ProposalSuccess, Error>)
        requires
            old(self).wf(),
        ensures
            final(self).wf(),
            r is Ok <==> old(self)@.propose_verdict(transferred_value, deadline_reached) is Ok,
            r matches Err(e) ==> old(self)@.propose_verdict(transferred_value, deadline_reached)
                == Err::<(), Error>(e),
            final(self)@ == old(self)@.propose(
                caller,
                (Proposal { deposit: transferred_value, ciphertext, nonce, capsule, commitment })@,
                deadline_reached,
            ),
    {
        if transferred_value < self.deposit {
            return Err(Error::DepositTooLow);
        }
        if deadline_reached {
            return Err(Error::AuctionAlreadyComplete);
        }
        match self.phase {
            Phase::Bidding => {},
            _ => {
                return Err(Error::AuctionAlreadyComplete);
            },
        }
        let proposal = Proposal {
            deposit: transferred_value,
            ciphertext,
            nonce,
            capsule,
            commitment,
        };
        let ghost bid = proposal@;
        self.ledger.submit(caller, proposal);
        proof {
            lemma_propose_consistent(old(self)@, caller, bid, deadline_reached);
        }
        Ok(ProposalSuccess {  })
    }

    /// Resolves the auction from bids whose digests have been computed.
    ///
    /// The call is refused with `AuctionInProgress` where the deadline has not
    /// been reached, else with `AlreadyResolved` where the auction has been
    /// resolved before. Otherwise the books are settled as
    /// [`Books::resolve`] says, with the result that the second-price rule
    /// gives on the valid bids.
    pub fn resolve_opened(&mut self, opened: &Vec<OpenedBid>, deadline_reached: bool) -> (r:
        Result<(), Error>)
        requires
            old(self).wf(),
        ensures
            final(self).wf(),
            r == old(self)@.complete_verdict(deadline_reached),
            r is Ok ==> old(self)@.books.is_result(
                quotes_of(quoted(opened@)),
                final(self)@.books.winner,
            ),
            final(self)@ == old(self)@.complete(
                quotes_of(quoted(opened@)),
                final(self)@.books.winner,
                deadline_reached,
            ),
    {
        if !deadline_reached {
            return Err(Error::AuctionInProgress);
        }
        match self.phase {
            Phase::Bidding => {},
            _ => {
                return Err(Error::AlreadyResolved);
            },
        }
        self.ledger.resolve(opened);
        self.phase = Phase::Resolved;
        proof {
            lemma_complete_consistent(
                old(self)@,
                quotes_of(quoted(opened@)),
                self@.books.winner,
                deadline_reached,
            );
        }
        Ok(())
    }

    /// Resolves the auction from the revealed bids: computes the commitment to
    /// each revealed value and settles the books with them.
    ///
    /// A revealed value is valid where its commitment is the one stored with
    /// the bidder's proposal.
    pub fn complete(&mut self, revealed_bids: Vec<(AccountId, u128)>, deadline_reached: bool) -> (r:
        Result<(), Error>)
        requires
            old(self).wf(),
        ensures
            final(self).wf(),
            r == old(self)@.complete_verdict(deadline_reached),
            r is Ok ==> old(self)@.books.is_result(
                quotes_of(honest_quotes(revealed_bids@)),
                final(self)@.books.winner,
            ),
            final(self)@ == old(self)@.complete(
                quotes_of(honest_quotes(revealed_bids@)),
                final(self)@.books.winner,
                deadline_reached,
            ),
    {
        if !deadline_reached {
            return Err(Error::AuctionInProgress);
        }
        let opened = open_bids(&revealed_bids);
        self.resolve_opened(&opened, deadline_reached)
    }

    /// Decides a claim of `caller` that comes with `transferred_value`: what
    /// the caller is owed, or why the claim is refused. Nothing changes; the
    /// outcome of the transfer is reported with [`TlockAuction::confirm_claim`].
    pub fn claim(&self, caller: AccountId, transferred_value: u128, deadline_reached: bool) -> (r:
        Result<Settlement, Error>)
        requires
            self.wf(),
        ensures
            r == self@.claim(caller, transferred_value, deadline_reached),
    {
        if !deadline_reached {
            return Err(Error::AuctionInProgress);
        }
        match self.ledger.winner() {
            Some(result) => {
                if result.winner.same(&caller) {
                    if transferred_value != result.debt {
                        return Err(Error::InvalidCurrencyAmountTransferred);
                    }
                    return match self.phase {
                        Phase::Claimed => Err(Error::AlreadyClaimed),
                        _ => Ok(Settlement::Asset { asset_id: self.auction_item.id, to: caller }),
                    };
                }
            },
            None => {},
        }
        if self.refunded.contains(&caller) {
            return Err(Error::AlreadyClaimed);
        }
        match self.ledger.escrow_of(&caller) {
            Some(amount) => Ok(Settlement::Refund { to: caller, amount }),
            None => Err(Error::NoDeposit),
        }
    }

    /// Records how the transfer that a claim called for went.
    ///
    /// The claim is decided again. Where it is refused, the refusal is
    /// returned; where the transfer failed, `AssetTransferFailed`; either way
    /// nothing changes. Where the claim was delivered, the winner's closes
    /// the auction and another's is noted as refunded.
    pub fn confirm_claim(
        &mut self,
        caller: AccountId,
        transferred_value: u128,
        deadline_reached: bool,
        delivered: bool,
    ) -> (r: Result<BidComplete, Error>)
        requires
            old(self).wf(),
        ensures
            final(self).wf(),
            final(self)@ == old(self)@.confirm_claim(
                caller,
                transferred_value,
                deadline_reached,
                delivered,
            ),
            match old(self)@.claim_outcome(caller, transferred_value, deadline_reached, delivered) {
                Err(e) => r == Err::<BidComplete, Error>(e),
                Ok(Settlement::Asset { .. }) => r == Ok::<BidComplete, Error>(
                    BidComplete { winner: true },
                ),
                Ok(Settlement::Refund { .. }) => r == Ok::<BidComplete, Error>(
                    BidComplete { winner: false },
                ),
            },
    {
        proof {
            lemma_confirm_claim_consistent(
                old(self)@,
                caller,
                transferred_value,
                deadline_reached,
                delivered,
            );
        }
        match self.claim(caller, transferred_value, deadline_reached) {
            Err(e) => Err(e),
            Ok(owed) => {
                if !delivered {
                    return Err(Error::AssetTransferFailed);
                }
                match owed {
                    Settlement::Asset { .. } => {
                        self.phase = Phase::Claimed;
                        Ok(BidComplete { winner: true })
                    },
                    Settlement::Refund { .. } => {
                        self.refunded.register(caller);
                        Ok(BidComplete { winner: false })
                    },
                }
            },
        }
    }
}

} // verus!
