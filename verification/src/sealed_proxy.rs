//! The proxy for sealed-bid auctions: a registry of auctions that take their
//! calls from this proxy only.
//!
//! The proxy lists the auctions with their terms, takes the deposits, watches
//! the deadlines, and passes sealed bids and revealed bids on to the auction
//! concerned. It speaks to its auctions under its own identity, so an auction
//! holds every proposal under that identity and a later one replaces an
//! earlier one; who bid is noted by the proxy. Whether a deadline has been
//! reached is passed in, and what a claim calls for is handed back.

use vstd::prelude::*;
use crate::account::AccountId;
use crate::auction::{honest_quotes, open_bids};
use crate::error::Error;
use crate::ledger::{quoted, OpenedBid};
use crate::model::{quotes_of, Books, Quote};
use crate::proposal::{copy_bytes, AuctionResult, Proposal, SealedBid};
use crate::proxy::Payout;
use crate::spsb::{SPSBAuction, SpsbState};

verus! {

/// The listing of one auction.
#[derive(Clone, Debug, PartialEq, Eq)]
pub struct AuctionDetails {
    /// The name of the auction.
    pub name: Vec<u8>,
    /// The identifier of the auction.
    pub contract_id: AccountId,
    /// Who sells.
    pub owner: AccountId,
    /// The deposit that a bid must come with at least.
    pub deposit: u128,
    /// The slot from which on no bids are taken.
    pub deadline: u64,
    /// The status of the auction: 0 from the day it is listed.
    pub status: u8,
}

/// A listing as plain values.
pub struct Listing {
    pub name: Seq<u8>,
    pub contract_id: AccountId,
    pub owner: AccountId,
    pub deposit: u128,
    pub deadline: u64,
    pub status: u8,
}

impl View for AuctionDetails {
    type V = Listing;

    open spec fn view(&self) -> Listing {
        Listing {
            name: self.name@,
            contract_id: self.contract_id,
            owner: self.owner,
            deposit: self.deposit,
            deadline: self.deadline,
            status: self.status,
        }
    }
}

impl AuctionDetails {
    /// A copy of the listing.
    pub fn duplicate(&self) -> (copy: AuctionDetails)
        ensures
            copy@ == self@,
    {
        AuctionDetails {
            name: copy_bytes(&self.name),
            contract_id: self.contract_id,
            owner: self.owner,
            deposit: self.deposit,
            deadline: self.deadline,
            status: self.status,
        }
    }
}

/// That a bidder has bid in an auction.
#[derive(Clone, Copy, Debug, PartialEq, Eq)]
pub struct Bid {
    /// The auction.
    pub contract_id: AccountId,
    /// The bidder.
    pub bidder: AccountId,
}

/// What a proxy for sealed-bid auctions holds.
pub struct ProxyState {
    pub owner: AccountId,
    pub erc721: AccountId,
    pub account: AccountId,
    pub auctions: Seq<Listing>,
    pub bids: Seq<Bid>,
    pub children: Seq<SpsbState>,
}

impl ProxyState {
    /// What always holds: every listing has its auction, which is consistent
    /// and answers to this proxy.
    pub open spec fn consistent(self) -> bool {
        &&& self.children.len() == self.auctions.len()
        &&& forall|i: int|
            0 <= i < self.children.len() ==> {
                &&& (#[trigger] self.children[i]).consistent()
                &&& self.children[i].proxy == self.account
            }
    }

    /// Whether an auction is listed under `contract_id`.
    pub open spec fn holds(self, contract_id: AccountId) -> bool {
        exists|i: int| 0 <= i < self.auctions.len() && self.auctions[i].contract_id == contract_id
    }

    /// Whether `i` is the first place at which `contract_id` is listed.
    pub open spec fn is_place_of(self, contract_id: AccountId, i: int) -> bool {
        &&& 0 <= i < self.auctions.len()
        &&& self.auctions[i].contract_id == contract_id
        &&& forall|j: int| 0 <= j < i ==> self.auctions[j].contract_id != contract_id
    }

    /// The first place at which `contract_id` is listed.
    pub open spec fn place_of(self, contract_id: AccountId) -> int {
        choose|i: int| self.is_place_of(contract_id, i)
    }

    /// The proxy with the auction at place `i` replaced.
    pub open spec fn with(self, i: int, child: SpsbState) -> ProxyState {
        ProxyState { children: self.children.update(i, child), ..self }
    }

    /// The proxy after an auction of the asset `asset_id` has been listed.
    pub open spec fn list(self, listing: Listing, asset_id: u32) -> ProxyState {
        ProxyState {
            auctions: self.auctions.push(listing),
            children: self.children.push(
                SpsbState {
                    proxy: self.account,
                    asset_id,
                    books: Books::empty(),
                    resolved: false,
                },
            ),
            ..self
        }
    }

    /// Whether a bid in `contract_id` that comes with `transferred` is taken,
    /// and why not if not: the auction must be listed, its deadline must not
    /// have been reached, and the deposit must be covered.
    pub open spec fn bid_verdict(
        self,
        contract_id: AccountId,
        transferred: u128,
        deadline_reached: bool,
    ) -> Result<(), Error> {
        if !self.holds(contract_id) {
            Err(Error::AuctionDoesNotExist)
        } else if deadline_reached {
            Err(Error::AuctionAlreadyComplete)
        } else if transferred < self.auctions[self.place_of(contract_id)].deposit {
            Err(Error::DepositTooLow)
        } else {
            Ok(())
        }
    }

    /// The proxy after `caller` has tried to bid in `contract_id`: where the
    /// bid is taken, the auction holds it under the proxy's identity, and the
    /// proxy notes who bid.
    pub open spec fn bid(
        self,
        caller: AccountId,
        contract_id: AccountId,
        sealed: SealedBid,
        transferred: u128,
        deadline_reached: bool,
    ) -> ProxyState {
        if self.bid_verdict(contract_id, transferred, deadline_reached) is Ok {
            let i = self.place_of(contract_id);
            ProxyState {
                bids: self.bids.push(Bid { contract_id, bidder: caller }),
                ..self.with(i, self.children[i].bid(self.account, sealed))
            }
        } else {
            self
        }
    }

    /// Whether `contract_id` can be resolved now, and why not if not.
    pub open spec fn complete_verdict(self, contract_id: AccountId, deadline_reached: bool)
        -> Result<(), Error> {
        if !self.holds(contract_id) {
            Err(Error::AuctionDoesNotExist)
        } else if !deadline_reached {
            Err(Error::AuctionInProgress)
        } else if self.children[self.place_of(contract_id)].complete_verdict(self.account)
            is Err {
            Err(Error::Other)
        } else {
            Ok(())
        }
    }

    /// The proxy after an attempt to resolve `contract_id` with these quotes,
    /// where `result` is what the second-price rule gave.
    pub open spec fn complete(
        self,
        contract_id: AccountId,
        quotes: Map<AccountId, Quote>,
        result: Option<AuctionResult>,
        deadline_reached: bool,
    ) -> ProxyState {
        if self.complete_verdict(contract_id, deadline_reached) is Ok {
            let i = self.place_of(contract_id);
            self.with(i, self.children[i].complete(self.account, quotes, result))
        } else {
            self
        }
    }

    /// What is to be moved on a claim of `caller` in `contract_id` that comes
    /// with `transferred`, or why the claim is refused. Only the winner's
    /// claim moves anything, and only against exactly the debt.
    pub open spec fn claim(
        self,
        caller: AccountId,
        contract_id: AccountId,
        transferred: u128,
        deadline_reached: bool,
    ) -> Result<Option<Payout>, Error> {
        if !self.holds(contract_id) {
            Err(Error::AuctionDoesNotExist)
        } else if !deadline_reached {
            Err(Error::AuctionInProgress)
        } else {
            let i = self.place_of(contract_id);
            match self.children[i].books.winner {
                Some(result) => if result.winner == caller {
                    if transferred != result.debt {
                        Err(Error::InvalidCurrencyAmountTransferred)
                    } else {
                        Ok(
                            Some(
                                Payout {
                                    asset_id: self.children[i].asset_id,
                                    winner: caller,
                                    seller: self.auctions[i].owner,
                                    amount: transferred,
                                },
                            ),
                        )
                    }
                } else {
                    Ok(None)
                },
                None => Ok(None),
            }
        }
    }

    /// Whether `bidder` has bid in `contract_id`.
    pub open spec fn has_bid(self, bidder: AccountId, contract_id: AccountId) -> bool {
        exists|j: int|
            0 <= j < self.bids.len() && self.bids[j].bidder == bidder && self.bids[j].contract_id
                == contract_id
    }

    /// The listings that `owner` sells, in the order of listing.
    pub open spec fn auctions_by_owner(self, owner: AccountId) -> Seq<Listing> {
        self.auctions.filter(|l: Listing| l.owner == owner)
    }

    /// The listings in which `bidder` has bid, in the order of listing.
    pub open spec fn auctions_by_bidder(self, bidder: AccountId) -> Seq<Listing> {
        self.auctions.filter(|l: Listing| self.has_bid(bidder, l.contract_id))
    }
}

/// The listings as plain values.
pub open spec fn listings(auctions: Seq<AuctionDetails>) -> Seq<Listing> {
    Seq::new(auctions.len(), |i: int| auctions[i]@)
}

/// What the auctions hold.
pub open spec fn states(children: Seq<SPSBAuction>) -> Seq<SpsbState> {
    Seq::new(children.len(), |i: int| children[i]@)
}

/// A registry of sealed-bid auctions.
pub struct TlockProxy {
    owner: AccountId,
    erc721: AccountId,
    account: AccountId,
    auctions: Vec<AuctionDetails>,
    bids: Vec<Bid>,
    children: Vec<SPSBAuction>,
}

impl View for TlockProxy {
    type V = ProxyState;

    closed spec fn view(&self) -> ProxyState {
        ProxyState {
            owner: self.owner,
            erc721: self.erc721,
            account: self.account,
            auctions: listings(self.auctions@),
            bids: self.bids@,
            children: states(self.children@),
        }
    }
}

impl TlockProxy {
    /// The representation invariant. It implies that the proxy is consistent.
    pub closed spec fn wf(&self) -> bool {
        &&& self@.consistent()
        &&& forall|i: int| 0 <= i < self.children@.len() ==> (#[trigger] self.children@[i]).wf()
    }

    /// A well-formed proxy is consistent.
    pub proof fn lemma_consistent(&self)
        requires
            self.wf(),
        ensures
            self@.consistent(),
    {
    }

    /// The proxy is well-formed once the listings are what they were, the
    /// auctions at places other than `i` are what they were, and the place
    /// `i` holds a well-formed auction that answers to the proxy.
    proof fn lemma_replaced(&self, before: &TlockProxy, i: int)
        requires
            before.wf(),
            0 <= i < before@.auctions.len(),
            self.owner == before.owner,
            self.erc721 == before.erc721,
            self.account == before.account,
            self.auctions@ == before.auctions@,
            self.children@.len() == before.children@.len(),
            forall|k: int|
                0 <= k < before.children@.len() && k != i ==> self.children@[k]
                    == before.children@[k],
            self.children@[i].wf(),
            self.children@[i]@.consistent(),
            self.children@[i]@.proxy == before.account,
        ensures
            self.wf(),
            self@.auctions == before@.auctions,
            self@.children == before@.children.update(i, self.children@[i]@),
    {
        assert(self@.children =~= before@.children.update(i, self.children@[i]@));
        assert forall|k: int| 0 <= k < self.children@.len() implies (
        #[trigger] self.children@[k]).wf() by {
            if k != i {
                assert(self.children@[k] == before.children@[k]);
            }
        }
        assert forall|k: int| 0 <= k < self@.children.len() implies {
            &&& (#[trigger] self@.children[k]).consistent()
            &&& self@.children[k].proxy == self@.account
        } by {
            if k != i {
                assert(self@.children[k] == before@.children[k]);
            }
        }
    }

    /// A proxy with no auctions. `account` is the identity under which the
    /// proxy speaks to its auctions, `erc721` the registry of the assets.
    pub fn default(owner: AccountId, account: AccountId, erc721: AccountId) -> (proxy: TlockProxy)
        ensures
            proxy.wf(),
            proxy@ == (ProxyState {
                owner,
                erc721,
                account,
                auctions: Seq::empty(),
                bids: Seq::empty(),
                children: Seq::empty(),
            }),
    {
        let proxy = TlockProxy {
            owner,
            erc721,
            account,
            auctions: Vec::new(),
            bids: Vec::new(),
            children: Vec::new(),
        };
        assert(proxy@.auctions =~= Seq::<Listing>::empty());
        assert(proxy@.children =~= Seq::<SpsbState>::empty());
        proxy
    }

    /// The first place at which `contract_id` is listed: `AuctionDoesNotExist`
    /// where it is not.
    pub fn get_auction_by_contract_id(&self, contract_id: &AccountId) -> (r: Result<usize, Error>)
        ensures
            match r {
                Ok(i) => self@.is_place_of(*contract_id, i as int) && self@.place_of(*contract_id)
                    == i && self@.holds(*contract_id),
                Err(e) => !self@.holds(*contract_id) && e == Error::AuctionDoesNotExist,
            },
    {
        let mut i: usize = 0;
        while i < self.auctions.len()
            invariant
                i <= self.auctions@.len(),
                forall|j: int| 0 <= j < i ==> self@.auctions[j].contract_id != *contract_id,
            decreases self.auctions@.len() - i,
        {
            if self.auctions[i].contract_id.same(contract_id) {
                proof {
                    assert(self@.auctions[i as int].contract_id == *contract_id);
                    assert(self@.is_place_of(*contract_id, i as int));
                    let c = self@.place_of(*contract_id);
                    assert(self@.is_place_of(*contract_id, c));
                    assert(c == i);
                }
                return Ok(i);
            }
            i += 1;
        }
        Err(Error::AuctionDoesNotExist)
    }

    /// Lists a new auction of the asset `asset_id` for `caller` under the
    /// identifier `contract_id`, and sets up its books.
    pub fn new_auction(
        &mut self,
        caller: AccountId,
        name: Vec<u8>,
        asset_id: u32,
        deadline: u64,
        deposit: u128,
        contract_id: AccountId,
    ) -> (r: Result<(), Error>)
        requires
            old(self).wf(),
        ensures
            final(self).wf(),
            r is Ok,
            final(self)@ == old(self)@.list(
                Listing { name: name@, contract_id, owner: caller, deposit, deadline, status: 0 },
                asset_id,
            ),
    {
        let auction = AuctionDetails {
            name,
            contract_id,
            owner: caller,
            deposit,
            deadline,
            status: 0,
        };
        let child = SPSBAuction::new(self.account, asset_id);
        let ghost listing = auction@;
        proof {
            child.lemma_consistent();
        }
        self.auctions.push(auction);
        self.children.push(child);
        proof {
            assert(self@.auctions =~= old(self)@.list(listing, asset_id).auctions);
            assert(self@.children =~= old(self)@.list(listing, asset_id).children);
            assert forall|i: int| 0 <= i < self.children@.len() implies (
            #[trigger] self.children@[i]).wf() by {
                if i < old(self).children@.len() {
                    assert(self.children@[i] == old(self).children@[i]);
                }
            }
            assert forall|i: int| 0 <= i < self@.children.len() implies {
                &&& (#[trigger] self@.children[i]).consistent()
                &&& self@.children[i].proxy == self@.account
            } by {
                if i < old(self)@.children.len() {
                    assert(self@.children[i] == old(self)@.children[i]);
                }
            }
        }
        Ok(())
    }

    /// Places a sealed bid of `caller` in `contract_id`, with
    /// `transferred_value` in escrow.
    ///
    /// The bid is refused with `AuctionDoesNotExist` where no such auction is
    /// listed, else with `AuctionAlreadyComplete` where the deadline has been
    /// reached, else with `DepositTooLow` where the escrow is under the
    /// deposit. Otherwise the auction takes the proposal under the proxy's
    /// identity, and the proxy notes who bid.
    pub fn bid(
        &mut self,
        caller: AccountId,
        contract_id: AccountId,
        ciphertext: Vec<u8>,
        nonce: Vec<u8>,
        capsule: Vec<u8>,
        commitment: Vec<u8>,
        transferred_value: u128,
        deadline_reached: bool,
    ) -> (r: Result<(), Error>)
        requires
            old(self).wf(),
        ensures
            final(self).wf(),
            r == old(self)@.bid_verdict(contract_id, transferred_value, deadline_reached),
            final(self)@ == old(self)@.bid(
                caller,
                contract_id,
                (Proposal { deposit: 0, ciphertext, nonce, capsule, commitment })@,
                transferred_value,
                deadline_reached,
            ),
    {
        let i = match self.get_auction_by_contract_id(&contract_id) {
            Ok(i) => i,
            Err(e) => {
                return Err(e);
            },
        };
        if deadline_reached {
            return Err(Error::AuctionAlreadyComplete);
        }
        if transferred_value < self.auctions[i].deposit {
            return Err(Error::DepositTooLow);
        }
        proof {
            assert(old(self).children@[i as int].wf());
            assert(old(self)@.children[i as int].proxy == old(self)@.account);
        }
        let account = self.account;
        let _ = self.children[i].bid(account, ciphertext, nonce, capsule, commitment);
        self.bids.push(Bid { contract_id, bidder: caller });
        proof {
            self.children@[i as int].lemma_consistent();
            self.lemma_replaced(old(self), i as int);
        }
        Ok(())
    }

    /// Resolves `contract_id` from bids whose digests have been computed.
    ///
    /// The call is refused with `AuctionDoesNotExist` where no such auction is
    /// listed, else with `AuctionInProgress` where the deadline has not been
    /// reached, else with `Other` where the auction has been resolved before.
    pub fn complete_opened(
        &mut self,
        contract_id: AccountId,
        opened: &Vec<OpenedBid>,
        deadline_reached: bool,
    ) -> (r: Result<(), Error>)
        requires
            old(self).wf(),
        ensures
            final(self).wf(),
            r == old(self)@.complete_verdict(contract_id, deadline_reached),
            r is Ok ==> old(self)@.children[old(self)@.place_of(contract_id)].books.is_result(
                quotes_of(quoted(opened@)),
                final(self)@.children[old(self)@.place_of(contract_id)].books.winner,
            ),
            r is Ok ==> final(self)@ == old(self)@.complete(
                contract_id,
                quotes_of(quoted(opened@)),
                final(self)@.children[old(self)@.place_of(contract_id)].books.winner,
                deadline_reached,
            ),
            r is Err ==> final(self)@ == old(self)@,
    {
        let i = match self.get_auction_by_contract_id(&contract_id) {
            Ok(i) => i,
            Err(e) => {
                return Err(e);
            },
        };
        if !deadline_reached {
            return Err(Error::AuctionInProgress);
        }
        proof {
            assert(old(self).children@[i as int].wf());
            assert(old(self)@.children[i as int].proxy == old(self)@.account);
        }
        let account = self.account;
        let done = self.children[i].resolve_opened(account, opened);
        proof {
            self.children@[i as int].lemma_consistent();
            self.lemma_replaced(old(self), i as int);
            if done is Err {
                assert(self@.children =~= old(self)@.children);
            }
        }
        match done {
            Ok(_) => Ok(()),
            Err(_) => Err(Error::Other),
        }
    }

    /// Resolves `contract_id` from the revealed bids: computes the commitment
    /// to each revealed value and has the auction settle its books with them.
    pub fn complete(
        &mut self,
        contract_id: AccountId,
        revealed_bids: Vec<(AccountId, u128)>,
        deadline_reached: bool,
    ) -> (r: Result<(), Error>)
        requires
            old(self).wf(),
        ensures
            final(self).wf(),
            r == old(self)@.complete_verdict(contract_id, deadline_reached),
            r is Ok ==> old(self)@.children[old(self)@.place_of(contract_id)].books.is_result(
                quotes_of(honest_quotes(revealed_bids@)),
                final(self)@.children[old(self)@.place_of(contract_id)].books.winner,
            ),
            r is Ok ==> final(self)@ == old(self)@.complete(
                contract_id,
                quotes_of(honest_quotes(revealed_bids@)),
                final(self)@.children[old(self)@.place_of(contract_id)].books.winner,
                deadline_reached,
            ),
            r is Err ==> final(self)@ == old(self)@,
    {
        match self.get_auction_by_contract_id(&contract_id) {
            Ok(_) => {},
            Err(e) => {
                return Err(e);
            },
        }
        if !deadline_reached {
            return Err(Error::AuctionInProgress);
        }
        let opened = open_bids(&revealed_bids);
        self.complete_opened(contract_id, &opened, deadline_reached)
    }

    /// Decides a claim of `caller` in `contract_id` that comes with
    /// `transferred_value`: what the host is to move, if anything, or why the
    /// claim is refused. Nothing changes.
    ///
    /// Only the winner's claim moves anything: the asset to the winner and
    /// the payment to the seller, against exactly the debt.
    pub fn claim(
        &self,
        caller: AccountId,
        contract_id: AccountId,
        transferred_value: u128,
        deadline_reached: bool,
    ) -> (r: Result<Option<Payout>, Error>)
        requires
            self.wf(),
        ensures
            r == self@.claim(caller, contract_id, transferred_value, deadline_reached),
    {
        let i = match self.get_auction_by_contract_id(&contract_id) {
            Ok(i) => i,
            Err(e) => {
                return Err(e);
            },
        };
        if !deadline_reached {
            return Err(Error::AuctionInProgress);
        }
        match self.children[i].get_winner() {
            Some((winner, debt)) => {
                if winner.same(&caller) {
                    if transferred_value != debt {
                        return Err(Error::InvalidCurrencyAmountTransferred);
                    }
                    return Ok(
                        Some(
                            Payout {
                                asset_id: self.children[i].get_asset_id(),
                                winner: caller,
                                seller: self.auctions[i].owner,
                                amount: transferred_value,
                            },
                        ),
                    );
                }
                Ok(None)
            },
            None => Ok(None),
        }
    }

    /// The result of `contract_id`, once there is one: `AuctionDoesNotExist`
    /// where no such auction is listed.
    pub fn get_winner(&self, contract_id: AccountId) -> (r: Result<Option<(AccountId, u128)>, Error>)
        requires
            self.wf(),
        ensures
            r == (if !self@.holds(contract_id) {
                Err::<Option<(AccountId, u128)>, Error>(Error::AuctionDoesNotExist)
            } else {
                Ok::<Option<(AccountId, u128)>, Error>(
                    match self@.children[self@.place_of(contract_id)].books.winner {
                        Some(result) => Some((result.winner, result.debt)),
                        None => None,
                    },
                )
            }),
    {
        match self.get_auction_by_contract_id(&contract_id) {
            Ok(i) => Ok(self.children[i].get_winner()),
            Err(e) => Err(e),
        }
    }

    /// All the listings, in the order of listing.
    pub fn get_auctions(&self) -> (v: Vec<AuctionDetails>)
        ensures
            listings(v@) == self@.auctions,
    {
        let mut v: Vec<AuctionDetails> = Vec::new();
        let mut i: usize = 0;
        while i < self.auctions.len()
            invariant
                i <= self.auctions@.len(),
                v@.len() == i,
                forall|k: int| 0 <= k < i ==> v@[k]@ == self.auctions@[k]@,
            decreases self.auctions@.len() - i,
        {
            v.push(self.auctions[i].duplicate());
            i += 1;
        }
        assert(listings(v@) =~= self@.auctions);
        v
    }

    /// The listings that `auctionner` sells, in the order of listing.
    pub fn get_auctions_by_owner(&self, auctionner: AccountId) -> (v: Vec<AuctionDetails>)
        ensures
            listings(v@) == self@.auctions_by_owner(auctionner),
    {
        let ghost pred = |l: Listing| l.owner == auctionner;
        let mut v: Vec<AuctionDetails> = Vec::new();
        let mut i: usize = 0;
        proof {
            reveal(Seq::filter);
            assert(self@.auctions.take(0) =~= Seq::<Listing>::empty());
            assert(listings(v@) =~= self@.auctions.take(0).filter(pred));
        }
        while i < self.auctions.len()
            invariant
                i <= self.auctions@.len(),
                pred == (|l: Listing| l.owner == auctionner),
                listings(v@) == self@.auctions.take(i as int).filter(pred),
            decreases self.auctions@.len() - i,
        {
            let ghost kept = listings(v@);
            proof {
                reveal(Seq::filter);
                assert(self@.auctions.take(i + 1).drop_last() =~= self@.auctions.take(i as int));
                assert(self@.auctions.take(i + 1).last() == self@.auctions[i as int]);
            }
            if self.auctions[i].owner.same(&auctionner) {
                v.push(self.auctions[i].duplicate());
                assert(listings(v@) =~= kept.push(self@.auctions[i as int]));
            }
            i += 1;
        }
        assert(self@.auctions.take(i as int) =~= self@.auctions);
        v
    }

    /// Whether `bidder` has bid in `contract_id`.
    pub fn has_bid(&self, bidder: &AccountId, contract_id: &AccountId) -> (r: bool)
        ensures
            r == self@.has_bid(*bidder, *contract_id),
    {
        let mut j: usize = 0;
        while j < self.bids.len()
            invariant
                j <= self.bids@.len(),
                forall|k: int|
                    0 <= k < j ==> !(self.bids@[k].bidder == *bidder && self.bids@[k].contract_id
                        == *contract_id),
            decreases self.bids@.len() - j,
        {
            if self.bids[j].bidder.same(bidder) && self.bids[j].contract_id.same(contract_id) {
                assert(self@.bids[j as int].bidder == *bidder && self@.bids[j as int].contract_id
                    == *contract_id);
                return true;
            }
            j += 1;
        }
        false
    }

    /// The listings in which `bidder` has bid, in the order of listing.
    pub fn get_auctions_by_bidder(&self, bidder: AccountId) -> (v: Vec<AuctionDetails>)
        ensures
            listings(v@) == self@.auctions_by_bidder(bidder),
    {
        let ghost state = self@;
        let ghost pred = |l: Listing| state.has_bid(bidder, l.contract_id);
        let mut v: Vec<AuctionDetails> = Vec::new();
        let mut i: usize = 0;
        proof {
            reveal(Seq::filter);
            assert(self@.auctions.take(0) =~= Seq::<Listing>::empty());
            assert(listings(v@) =~= self@.auctions.take(0).filter(pred));
        }
        while i < self.auctions.len()
            invariant
                i <= self.auctions@.len(),
                state == self@,
                pred == (|l: Listing| state.has_bid(bidder, l.contract_id)),
                listings(v@) == self@.auctions.take(i as int).filter(pred),
            decreases self.auctions@.len() - i,
        {
            let ghost kept = listings(v@);
            proof {
                reveal(Seq::filter);
                assert(self@.auctions.take(i + 1).drop_last() =~= self@.auctions.take(i as int));
                assert(self@.auctions.take(i + 1).last() == self@.auctions[i as int]);
            }
            if self.has_bid(&bidder, &self.auctions[i].contract_id) {
                v.push(self.auctions[i].duplicate());
                assert(listings(v@) =~= kept.push(self@.auctions[i as int]));
            }
            i += 1;
        }
        assert(self@.auctions.take(i as int) =~= self@.auctions);
        v
    }
}

} // verus!
