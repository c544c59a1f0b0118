//! The proxy: a registry of auctions, each run as a second-price auction of
//! its own.
//!
//! The proxy lists the auctions with their terms, takes the deposits, watches
//! the deadlines, and passes bids, reveals and the request for a result on to
//! the auction concerned. Minting and moving assets and money is the host's
//! work: the proxy says what is to be moved and is told how it went.

use vstd::prelude::*;
use crate::account::AccountId;
use crate::error::Error;
use crate::proposal::{copy_bytes, AuctionResult, RevealedBid};
use crate::vickrey::{VickreyAuction, VickreyState};

verus! {

/// The listing of one auction.
#[derive(Clone, Debug, PartialEq, Eq)]
pub struct AuctionDetails {
    /// The name of the auction.
    pub name: Vec<u8>,
    /// The identifier of the auction.
    pub auction_id: AccountId,
    /// The asset that is sold.
    pub asset_id: u32,
    /// Who sells.
    pub owner: AccountId,
    /// The deposit that a bid must come with at least.
    pub deposit: u128,
    /// The block from which on no bids are taken.
    pub deadline: u32,
    /// When the auction was listed.
    pub published: u64,
    /// 0 while the auction is open, 1 once it has been completed.
    pub status: u8,
    /// How many bids have been placed.
    pub bids: u8,
}

/// A listing as plain values.
pub struct Listing {
    pub name: Seq<u8>,
    pub auction_id: AccountId,
    pub asset_id: u32,
    pub owner: AccountId,
    pub deposit: u128,
    pub deadline: u32,
    pub published: u64,
    pub status: u8,
    pub bids: u8,
}

impl View for AuctionDetails {
    type V = Listing;

    open spec fn view(&self) -> Listing {
        Listing {
            name: self.name@,
            auction_id: self.auction_id,
            asset_id: self.asset_id,
            owner: self.owner,
            deposit: self.deposit,
            deadline: self.deadline,
            published: self.published,
            status: self.status,
            bids: self.bids,
        }
    }
}

impl AuctionDetails {
    /// A copy of the listing.
    pub fn duplicate(&self) -> (copy: AuctionDetails)
        ensures
            copy@ == self@,
    {
        AuctionDetails {
            name: copy_bytes(&self.name),
            auction_id: self.auction_id,
            asset_id: self.asset_id,
            owner: self.owner,
            deposit: self.deposit,
            deadline: self.deadline,
            published: self.published,
            status: self.status,
            bids: self.bids,
        }
    }
}

/// That a bidder has bid in an auction.
#[derive(Clone, Copy, Debug, PartialEq, Eq)]
pub struct Bid {
    /// The auction.
    pub auction_id: AccountId,
    /// The bidder.
    pub bidder: AccountId,
}

/// An auction has been listed.
#[derive(Clone, Copy, Debug, PartialEq, Eq)]
pub struct AuctionCreated {
    /// The identifier of the auction.
    pub auction_id: AccountId,
}

/// What the host is to move when the winner claims: the asset to the winner,
/// and the payment to the seller.
#[derive(Clone, Copy, Debug, PartialEq, Eq)]
pub struct Payout {
    /// The asset to hand over.
    pub asset_id: u32,
    /// The winner, who gets the asset.
    pub winner: AccountId,
    /// The seller, who gets the payment.
    pub seller: AccountId,
    /// The payment.
    pub amount: u128,
}

/// Status of a listing whose auction takes bids.
pub const STATUS_OPEN: u8 = 0;

/// Status of a listing whose auction has been completed.
pub const STATUS_COMPLETE: u8 = 1;

/// What a proxy holds.
pub struct ProxyState {
    pub owner: AccountId,
    pub erc721: AccountId,
    pub account: AccountId,
    pub auctions: Seq<Listing>,
    pub bids: Seq<Bid>,
    pub children: Seq<VickreyState>,
}

impl ProxyState {
    /// What always holds: every listing has its auction, which is consistent,
    /// sells the listed asset and answers to this proxy.
    pub open spec fn consistent(self) -> bool {
        &&& self.children.len() == self.auctions.len()
        &&& forall|i: int|
            0 <= i < self.children.len() ==> {
                &&& (#[trigger] self.children[i]).consistent()
                &&& self.children[i].proxy == self.account
                &&& self.children[i].asset_id == self.auctions[i].asset_id
            }
    }

    /// Whether an auction is listed under `auction_id`.
    pub open spec fn holds(self, auction_id: AccountId) -> bool {
        exists|i: int| 0 <= i < self.auctions.len() && self.auctions[i].auction_id == auction_id
    }

    /// Whether `i` is the first place at which `auction_id` is listed.
    pub open spec fn is_place_of(self, auction_id: AccountId, i: int) -> bool {
        &&& 0 <= i < self.auctions.len()
        &&& self.auctions[i].auction_id == auction_id
        &&& forall|j: int| 0 <= j < i ==> self.auctions[j].auction_id != auction_id
    }

    /// The first place at which `auction_id` is listed.
    pub open spec fn place_of(self, auction_id: AccountId) -> int {
        choose|i: int| self.is_place_of(auction_id, i)
    }

    /// Whether the deadline of the listing at place `i` lies ahead of
    /// `current_block`.
    pub open spec fn is_deadline_future(self, i: int, current_block: u32) -> bool {
        current_block < self.auctions[i].deadline
    }

    /// The proxy with the listing and the auction at place `i` replaced.
    pub open spec fn with(self, i: int, listing: Listing, child: VickreyState) -> ProxyState {
        ProxyState {
            auctions: self.auctions.update(i, listing),
            children: self.children.update(i, child),
            ..self
        }
    }

    /// The proxy after an auction has been listed.
    pub open spec fn list(self, listing: Listing) -> ProxyState {
        ProxyState {
            auctions: self.auctions.push(listing),
            children: self.children.push(
                VickreyState {
                    proxy: self.account,
                    asset_id: listing.asset_id,
                    participants: Seq::empty(),
                    revealed_bids: Seq::empty(),
                    winner: None,
                },
            ),
            ..self
        }
    }

    /// Whether a bid in `auction_id` that comes with `transferred` is taken
    /// at `current_block`, and why not if not.
    pub open spec fn bid_verdict(self, auction_id: AccountId, transferred: u128, current_block: u32)
        -> Result<(), Error> {
        if !self.holds(auction_id) {
            Err(Error::AuctionDoesNotExist)
        } else if !self.is_deadline_future(self.place_of(auction_id), current_block) {
            Err(Error::AuctionAlreadyComplete)
        } else if transferred < self.auctions[self.place_of(auction_id)].deposit {
            Err(Error::DepositTooLow)
        } else {
            Ok(())
        }
    }

    /// The proxy after `caller` has tried to bid in `auction_id`: where the
    /// bid is taken, it is counted and noted, and the bidder is registered
    /// with the auction.
    pub open spec fn bid(
        self,
        caller: AccountId,
        auction_id: AccountId,
        transferred: u128,
        current_block: u32,
    ) -> ProxyState {
        if self.bid_verdict(auction_id, transferred, current_block) is Ok {
            let i = self.place_of(auction_id);
            let listing = Listing { bids: (self.auctions[i].bids + 1) as u8, ..self.auctions[i] };
            let child = self.children[i].bid(self.account, caller);
            ProxyState { bids: self.bids.push(Bid { auction_id, bidder: caller }), ..self.with(
                i,
                listing,
                child,
            ) }
        } else {
            self
        }
    }

    /// Whether a revealed bid is taken for `auction_id` at `current_block`,
    /// and why not if not.
    pub open spec fn reveal_verdict(
        self,
        auction_id: AccountId,
        bidder: AccountId,
        current_block: u32,
    ) -> Result<(), Error> {
        if !self.holds(auction_id) {
            Err(Error::AuctionDoesNotExist)
        } else if self.is_deadline_future(self.place_of(auction_id), current_block) {
            Err(Error::AuctionInProgress)
        } else if self.children[self.place_of(auction_id)].reveal_verdict(self.account, bidder)
            is Err {
            Err(Error::Other)
        } else {
            Ok(())
        }
    }

    /// The proxy after a revealed bid has been handed in for `auction_id`.
    pub open spec fn reveal_bid(self, auction_id: AccountId, revealed: RevealedBid, current_block: u32)
        -> ProxyState {
        if self.reveal_verdict(auction_id, revealed.bidder, current_block) is Ok {
            let i = self.place_of(auction_id);
            self.with(
                i,
                self.auctions[i],
                self.children[i].save_revealed_bid(self.account, revealed),
            )
        } else {
            self
        }
    }

    /// Whether `auction_id` can be completed at `current_block`, and why not
    /// if not.
    pub open spec fn complete_verdict(self, auction_id: AccountId, current_block: u32) -> Result<
        (),
        Error,
    > {
        if !self.holds(auction_id) {
            Err(Error::AuctionDoesNotExist)
        } else if self.is_deadline_future(self.place_of(auction_id), current_block) {
            Err(Error::AuctionInProgress)
        } else if self.children[self.place_of(auction_id)].complete_verdict() is Err {
            Err(Error::Other)
        } else {
            Ok(())
        }
    }

    /// The proxy after an attempt to complete `auction_id`, where `result` is
    /// what the second-price rule gave.
    pub open spec fn complete(
        self,
        auction_id: AccountId,
        result: Option<AuctionResult>,
        current_block: u32,
    ) -> ProxyState {
        if self.complete_verdict(auction_id, current_block) is Ok {
            let i = self.place_of(auction_id);
            self.with(
                i,
                Listing { status: STATUS_COMPLETE, ..self.auctions[i] },
                VickreyState { winner: result, ..self.children[i] },
            )
        } else {
            self
        }
    }

    /// What is to be moved on a claim of `caller` in `auction_id` that comes
    /// with `transferred`, or why the claim is refused. Only the winner's
    /// claim moves anything, and only against exactly the debt.
    pub open spec fn claim(
        self,
        caller: AccountId,
        auction_id: AccountId,
        transferred: u128,
        current_block: u32,
    ) -> Result<Option<Payout>, Error> {
        if !self.holds(auction_id) {
            Err(Error::AuctionDoesNotExist)
        } else {
            let i = self.place_of(auction_id);
            if self.is_deadline_future(i, current_block) {
                Err(Error::AuctionInProgress)
            } else {
                match self.children[i].winner {
                    Some(result) => if result.winner == caller {
                        if transferred != result.debt {
                            Err(Error::InvalidCurrencyAmountTransferred)
                        } else {
                            Ok(
                                Some(
                                    Payout {
                                        asset_id: self.children[i].asset_id,
                                        winner: caller,
                                        seller: self.auctions[i].owner,
                                        amount: transferred,
                                    },
                                ),
                            )
                        }
                    } else {
                        Ok(None)
                    },
                    None => Ok(None),
                }
            }
        }
    }
}

/// How a claim ends once the host has tried to move what it called for: the
/// payment is only tried once the asset has been handed over.
pub open spec fn payout_verdict(asset_transferred: bool, payment_transferred: bool) -> Result<
    (),
    Error,
> {
    if !asset_transferred {
        Err(Error::NftTransferFailed)
    } else if !payment_transferred {
        Err(Error::BalanceTransferFailed)
    } else {
        Ok(())
    }
}

/// How a claim ends once the host has tried to move what it called for.
pub fn settle_payout(asset_transferred: bool, payment_transferred: bool) -> (r: Result<(), Error>)
    ensures
        r == payout_verdict(asset_transferred, payment_transferred),
{
    if !asset_transferred {
        Err(Error::NftTransferFailed)
    } else if !payment_transferred {
        Err(Error::BalanceTransferFailed)
    } else {
        Ok(())
    }
}

/// The listings as plain values.
pub open spec fn listings(auctions: Seq<AuctionDetails>) -> Seq<Listing> {
    Seq::new(auctions.len(), |i: int| auctions[i]@)
}

/// What the auctions hold.
pub open spec fn states(children: Seq<VickreyAuction>) -> Seq<VickreyState> {
    Seq::new(children.len(), |i: int| children[i]@)
}

/// A registry of auctions.
pub struct TlockProxy {
    owner: AccountId,
    erc721: AccountId,
    account: AccountId,
    auctions: Vec<AuctionDetails>,
    bids: Vec<Bid>,
    children: Vec<VickreyAuction>,
}

impl View for TlockProxy {
    type V = ProxyState;

    closed spec fn view(&self) -> ProxyState {
        ProxyState {
            owner: self.owner,
            erc721: self.erc721,
            account: self.account,
            auctions: listings(self.auctions@),
            bids: self.bids@,
            children: states(self.children@),
        }
    }
}

impl TlockProxy {
    /// The representation invariant. It implies that the proxy is consistent.
    pub closed spec fn wf(&self) -> bool {
        &&& self@.consistent()
        &&& forall|i: int| 0 <= i < self.children@.len() ==> (#[trigger] self.children@[i]).wf()
    }

    /// A well-formed proxy is consistent.
    pub proof fn lemma_consistent(&self)
        requires
            self.wf(),
        ensures
            self@.consistent(),
    {
    }

    /// A proxy with no auctions. `account` is the identity under which the
    /// proxy speaks to its auctions, `erc721` the registry of the assets.
    pub fn new(owner: AccountId, account: AccountId, erc721: AccountId) -> (proxy: TlockProxy)
        ensures
            proxy.wf(),
            proxy@ == (ProxyState {
                owner,
                erc721,
                account,
                auctions: Seq::empty(),
                bids: Seq::empty(),
                children: Seq::empty(),
            }),
    {
        let proxy = TlockProxy {
            owner,
            erc721,
            account,
            auctions: Vec::new(),
            bids: Vec::new(),
            children: Vec::new(),
        };
        assert(proxy@.auctions =~= Seq::<Listing>::empty());
        assert(proxy@.children =~= Seq::<VickreyState>::empty());
        proxy
    }

    /// The first place at which `auction_id` is listed, if it is.
    fn find(&self, auction_id: &AccountId) -> (r: Option<usize>)
        ensures
            match r {
                Some(i) => self@.is_place_of(*auction_id, i as int) && self@.place_of(*auction_id)
                    == i && self@.holds(*auction_id),
                None => !self@.holds(*auction_id),
            },
    {
        let mut i: usize = 0;
        while i < self.auctions.len()
            invariant
                i <= self.auctions@.len(),
                forall|j: int| 0 <= j < i ==> self@.auctions[j].auction_id != *auction_id,
            decreases self.auctions@.len() - i,
        {
            if self.auctions[i].auction_id.same(auction_id) {
                proof {
                    assert(self@.auctions[i as int].auction_id == *auction_id);
                    assert(self@.is_place_of(*auction_id, i as int));
                    let c = self@.place_of(*auction_id);
                    assert(self@.is_place_of(*auction_id, c));
                    assert(c == i);
                }
                return Some(i);
            }
            i += 1;
        }
        None
    }

    /// Lists a new auction for `caller` and sets up its books.
    ///
    /// The host has minted the asset and chosen an identifier for the
    /// auction. Where minting failed, nothing is listed and the refusal is
    /// `NFTMintFailed`.
    pub fn new_auction(
        &mut self,
        caller: AccountId,
        name: [u8; 48],
        deadline: u32,
        deposit: u128,
        asset_id: u32,
        auction_id: AccountId,
        published: u64,
        minted: bool,
    ) -> (r: Result<AuctionCreated, Error>)
        requires
            old(self).wf(),
        ensures
            final(self).wf(),
            r == (if minted {
                Ok::<AuctionCreated, Error>(AuctionCreated { auction_id })
            } else {
                Err::<AuctionCreated, Error>(Error::NFTMintFailed)
            }),
            final(self)@ == (if minted {
                old(self)@.list(
                    Listing {
                        name: name@,
                        auction_id,
                        asset_id,
                        owner: caller,
                        deposit,
                        deadline,
                        published,
                        status: STATUS_OPEN,
                        bids: 0,
                    },
                )
            } else {
                old(self)@
            }),
    {
        if !minted {
            return Err(Error::NFTMintFailed);
        }
        let mut name_bytes: Vec<u8> = Vec::new();
        let mut k: usize = 0;
        while k < 48
            invariant
                k <= 48,
                name_bytes@ == name@.take(k as int),
            decreases 48 - k,
        {
            name_bytes.push(name[k]);
            assert(name@.take(k + 1) =~= name@.take(k as int).push(name@[k as int]));
            k += 1;
        }
        assert(name@.take(48) =~= name@);
        let auction = AuctionDetails {
            name: name_bytes,
            auction_id,
            asset_id,
            owner: caller,
            deposit,
            deadline,
            published,
            status: STATUS_OPEN,
            bids: 0,
        };
        let child = VickreyAuction::new(self.account, asset_id);
        let ghost listing = auction@;
        self.auctions.push(auction);
        self.children.push(child);
        proof {
            assert(self@.auctions =~= old(self)@.list(listing).auctions);
            assert(self@.children =~= old(self)@.list(listing).children);
            assert forall|i: int| 0 <= i < self.children@.len() implies (
            #[trigger] self.children@[i]).wf() by {
                if i < old(self).children@.len() {
                    assert(self.children@[i] == old(self).children@[i]);
                }
            }
            assert forall|i: int| 0 <= i < self@.children.len() implies {
                &&& (#[trigger] self@.children[i]).consistent()
                &&& self@.children[i].proxy == self@.account
                &&& self@.children[i].asset_id == self@.auctions[i].asset_id
            } by {
                if i < old(self)@.children.len() {
                    assert(self@.children[i] == old(self)@.children[i]);
                    assert(self@.auctions[i] == old(self)@.auctions[i]);
                }
            }
        }
        Ok(AuctionCreated { auction_id })
    }
}

impl TlockProxy {
    /// The proxy is well-formed once the places other than `i` are what they
    /// were and the place `i` holds a well-formed auction for its listing.
    proof fn lemma_replaced(&self, before: &TlockProxy, i: int)
        requires
            before.wf(),
            0 <= i < before@.auctions.len(),
            self.owner == before.owner,
            self.erc721 == before.erc721,
            self.account == before.account,
            self.auctions@.len() == before.auctions@.len(),
            self.children@.len() == before.children@.len(),
            forall|k: int|
                0 <= k < before.auctions@.len() && k != i ==> self.auctions@[k]
                    == before.auctions@[k] && self.children@[k] == before.children@[k],
            self.children@[i].wf(),
            self.children@[i]@.consistent(),
            self.children@[i]@.proxy == before.account,
            self.children@[i]@.asset_id == self.auctions@[i].asset_id,
        ensures
            self.wf(),
            self@.auctions == before@.auctions.update(i, self.auctions@[i]@),
            self@.children == before@.children.update(i, self.children@[i]@),
    {
        assert(self@.auctions =~= before@.auctions.update(i, self.auctions@[i]@));
        assert(self@.children =~= before@.children.update(i, self.children@[i]@));
        assert forall|k: int| 0 <= k < self.children@.len() implies (
        #[trigger] self.children@[k]).wf() by {
            if k != i {
                assert(self.children@[k] == before.children@[k]);
            }
        }
        assert forall|k: int| 0 <= k < self@.children.len() implies {
            &&& (#[trigger] self@.children[k]).consistent()
            &&& self@.children[k].proxy == self@.account
            &&& self@.children[k].asset_id == self@.auctions[k].asset_id
        } by {
            if k != i {
                assert(self@.children[k] == before@.children[k]);
                assert(self@.auctions[k] == before@.auctions[k]);
            }
        }
    }

    /// Whether a bid in `auction_id` that comes with `transferred_value`
    /// would be taken at `current_block`, and why not if not.
    pub fn check_bid(&self, auction_id: AccountId, transferred_value: u128, current_block: u32) -> (r:
        Result<(), Error>)
        ensures
            r == self@.bid_verdict(auction_id, transferred_value, current_block),
    {
        let i = match self.find(&auction_id) {
            Some(i) => i,
            None => {
                return Err(Error::AuctionDoesNotExist);
            },
        };
        if !(current_block < self.auctions[i].deadline) {
            return Err(Error::AuctionAlreadyComplete);
        }
        if transferred_value < self.auctions[i].deposit {
            return Err(Error::DepositTooLow);
        }
        Ok(())
    }

    /// Places a bid of `caller` in `auction_id`, with `transferred_value` in
    /// escrow, at `current_block`.
    ///
    /// The bid is refused with `AuctionDoesNotExist` where no such auction is
    /// listed, else with `AuctionAlreadyComplete` where the deadline does not
    /// lie ahead, else with `DepositTooLow` where the escrow is under the
    /// deposit. Otherwise the bid is counted and noted, and the bidder is
    /// registered with the auction if new. A listing counts up to 255 bids.
    pub fn bid(
        &mut self,
        caller: AccountId,
        auction_id: AccountId,
        transferred_value: u128,
        current_block: u32,
    ) -> (r: Result<(), Error>)
        requires
            old(self).wf(),
            old(self)@.bid_verdict(auction_id, transferred_value, current_block) is Ok ==> old(
                self,
            )@.auctions[old(self)@.place_of(auction_id)].bids < u8::MAX,
        ensures
            final(self).wf(),
            r == old(self)@.bid_verdict(auction_id, transferred_value, current_block),
            final(self)@ == old(self)@.bid(caller, auction_id, transferred_value, current_block),
    {
        match self.check_bid(auction_id, transferred_value, current_block) {
            Err(e) => {
                return Err(e);
            },
            Ok(_) => {},
        }
        let i = match self.find(&auction_id) {
            Some(i) => i,
            None => {
                return Err(Error::AuctionDoesNotExist);
            },
        };
        proof {
            assert(old(self).children@[i as int].wf());
            assert(old(self)@.children[i as int].proxy == old(self)@.account);
        }
        let account = self.account;
        let _ = self.children[i].bid(account, caller);
        let mut listing = self.auctions[i].duplicate();
        listing.bids = listing.bids + 1;
        self.auctions[i] = listing;
        self.bids.push(Bid { auction_id, bidder: caller });
        proof {
            self.children@[i as int].lemma_consistent();
            self.lemma_replaced(old(self), i as int);
        }
        Ok(())
    }
}

impl TlockProxy {
    /// Hands a revealed bid on to `auction_id` at `current_block`.
    ///
    /// The call is refused with `AuctionDoesNotExist` where no such auction is
    /// listed, else with `AuctionInProgress` where the deadline lies ahead,
    /// else with `Other` where the auction does not know the bidder.
    pub fn reveal_bid(&mut self, auction_id: AccountId, revealed_bid: RevealedBid, current_block: u32)
        -> (r: Result<(), Error>)
        requires
            old(self).wf(),
        ensures
            final(self).wf(),
            r == old(self)@.reveal_verdict(auction_id, revealed_bid.bidder, current_block),
            final(self)@ == old(self)@.reveal_bid(auction_id, revealed_bid, current_block),
    {
        let i = match self.find(&auction_id) {
            Some(i) => i,
            None => {
                return Err(Error::AuctionDoesNotExist);
            },
        };
        if current_block < self.auctions[i].deadline {
            return Err(Error::AuctionInProgress);
        }
        proof {
            assert(old(self).children@[i as int].wf());
            assert(old(self)@.children[i as int].proxy == old(self)@.account);
        }
        let account = self.account;
        let saved = self.children[i].save_revealed_bid(account, revealed_bid);
        proof {
            self.children@[i as int].lemma_consistent();
            self.lemma_replaced(old(self), i as int);
            assert(self@.auctions =~= old(self)@.auctions);
            if saved is Err {
                assert(self@.children =~= old(self)@.children);
            }
        }
        match saved {
            Ok(_) => Ok(()),
            Err(_) => Err(Error::Other),
        }
    }

    /// Completes `auction_id` at `current_block`: has the auction compute its
    /// result and marks the listing as complete.
    ///
    /// The call is refused with `AuctionDoesNotExist` where no such auction is
    /// listed, else with `AuctionInProgress` where the deadline lies ahead,
    /// else with `Other` where the auction has a result already.
    pub fn complete(&mut self, auction_id: AccountId, current_block: u32) -> (r: Result<(), Error>)
        requires
            old(self).wf(),
        ensures
            final(self).wf(),
            r == old(self)@.complete_verdict(auction_id, current_block),
            r is Ok ==> old(self)@.children[old(self)@.place_of(auction_id)].is_result(
                final(self)@.children[old(self)@.place_of(auction_id)].winner,
            ),
            r is Ok ==> final(self)@ == old(self)@.complete(
                auction_id,
                final(self)@.children[old(self)@.place_of(auction_id)].winner,
                current_block,
            ),
            r is Err ==> final(self)@ == old(self)@,
    {
        let i = match self.find(&auction_id) {
            Some(i) => i,
            None => {
                return Err(Error::AuctionDoesNotExist);
            },
        };
        if current_block < self.auctions[i].deadline {
            return Err(Error::AuctionInProgress);
        }
        proof {
            assert(old(self).children@[i as int].wf());
        }
        let done = self.children[i].complete();
        proof {
            self.children@[i as int].lemma_consistent();
            self.lemma_replaced(old(self), i as int);
            assert(self@.auctions =~= old(self)@.auctions);
            if done is Err {
                assert(self@.children =~= old(self)@.children);
            }
        }
        match done {
            Ok(_) => {},
            Err(_) => {
                return Err(Error::Other);
            },
        }
        let ghost middle = *self;
        let mut listing = self.auctions[i].duplicate();
        listing.status = STATUS_COMPLETE;
        self.auctions[i] = listing;
        proof {
            self.lemma_replaced(&middle, i as int);
            let target = old(self)@.complete(
                auction_id,
                self@.children[i as int].winner,
                current_block,
            );
            assert(self@.auctions =~= target.auctions);
            assert(self@.children =~= target.children);
        }
        Ok(())
    }

    /// Decides a claim of `caller` in `auction_id` that comes with
    /// `transferred_value`, at `current_block`: what the host is to move, if
    /// anything, or why the claim is refused. Nothing changes.
    ///
    /// Only the winner's claim moves anything: the asset to the winner and
    /// the payment to the seller, against exactly the debt.
    pub fn claim(
        &self,
        caller: AccountId,
        auction_id: AccountId,
        transferred_value: u128,
        current_block: u32,
    ) -> (r: Result<Option<Payout>, Error>)
        requires
            self.wf(),
        ensures
            r == self@.claim(caller, auction_id, transferred_value, current_block),
    {
        let i = match self.find(&auction_id) {
            Some(i) => i,
            None => {
                return Err(Error::AuctionDoesNotExist);
            },
        };
        if current_block < self.auctions[i].deadline {
            return Err(Error::AuctionInProgress);
        }
        match self.children[i].get_winner() {
            Some(result) => {
                if result.winner.same(&caller) {
                    if transferred_value != result.debt {
                        return Err(Error::InvalidCurrencyAmountTransferred);
                    }
                    return Ok(
                        Some(
                            Payout {
                                asset_id: self.children[i].get_asset_id(),
                                winner: caller,
                                seller: self.auctions[i].owner,
                                amount: transferred_value,
                            },
                        ),
                    );
                }
                Ok(None)
            },
            None => Ok(None),
        }
    }

    /// The result of `auction_id`: `AuctionDoesNotExist` where no such
    /// auction is listed, `NoWinnerDetermined` where it has no result.
    pub fn get_winner(&self, auction_id: AccountId) -> (r: Result<AuctionResult, Error>)
        requires
            self.wf(),
        ensures
            r == (if !self@.holds(auction_id) {
                Err::<AuctionResult, Error>(Error::AuctionDoesNotExist)
            } else {
                match self@.children[self@.place_of(auction_id)].winner {
                    Some(result) => Ok::<AuctionResult, Error>(result),
                    None => Err::<AuctionResult, Error>(Error::NoWinnerDetermined),
                }
            }),
    {
        let i = match self.find(&auction_id) {
            Some(i) => i,
            None => {
                return Err(Error::AuctionDoesNotExist);
            },
        };
        match self.children[i].get_winner() {
            Some(winner) => Ok(winner),
            None => Err(Error::NoWinnerDetermined),
        }
    }
}

impl ProxyState {
    /// Whether `bidder` has bid in `auction_id`.
    pub open spec fn has_bid(self, bidder: AccountId, auction_id: AccountId) -> bool {
        exists|j: int|
            0 <= j < self.bids.len() && self.bids[j].bidder == bidder && self.bids[j].auction_id
                == auction_id
    }

    /// The listings that `owner` sells, in the order of listing.
    pub open spec fn auctions_by_owner(self, owner: AccountId) -> Seq<Listing> {
        self.auctions.filter(|l: Listing| l.owner == owner)
    }

    /// The listings in which `bidder` has bid, in the order of listing.
    pub open spec fn auctions_by_bidder(self, bidder: AccountId) -> Seq<Listing> {
        self.auctions.filter(|l: Listing| self.has_bid(bidder, l.auction_id))
    }

    /// Whether an auction of the asset `asset_id` is listed.
    pub open spec fn sells(self, asset_id: u32) -> bool {
        exists|i: int| 0 <= i < self.auctions.len() && self.auctions[i].asset_id == asset_id
    }

    /// Whether `i` is the first place that lists an auction of `asset_id`.
    pub open spec fn is_place_of_asset(self, asset_id: u32, i: int) -> bool {
        &&& 0 <= i < self.auctions.len()
        &&& self.auctions[i].asset_id == asset_id
        &&& forall|j: int| 0 <= j < i ==> self.auctions[j].asset_id != asset_id
    }
}

impl TlockProxy {
    /// Whether `deadline` lies ahead of `current_block`.
    pub fn is_deadline_future(deadline: u32, current_block: u32) -> (r: bool)
        ensures
            r == (current_block < deadline),
    {
        current_block < deadline
    }

    /// The owner of the proxy.
    pub fn get_owner(&self) -> (owner: AccountId)
        ensures
            owner == self@.owner,
    {
        self.owner
    }

    /// The registry of the assets.
    pub fn get_registry(&self) -> (erc721: AccountId)
        ensures
            erc721 == self@.erc721,
    {
        self.erc721
    }

    /// The identifier of the auction listed last: `AuctionDoesNotExist` where
    /// nothing is listed.
    pub fn get_latest_auction(&self) -> (r: Result<AccountId, Error>)
        ensures
            r == (if self@.auctions.len() == 0 {
                Err::<AccountId, Error>(Error::AuctionDoesNotExist)
            } else {
                Ok::<AccountId, Error>(self@.auctions.last().auction_id)
            }),
    {
        let n = self.auctions.len();
        if n == 0 {
            Err(Error::AuctionDoesNotExist)
        } else {
            Ok(self.auctions[n - 1].auction_id)
        }
    }

    /// All the listings, in the order of listing.
    pub fn get_auctions(&self) -> (r: Result<Vec<AuctionDetails>, Error>)
        ensures
            r matches Ok(v) && listings(v@) == self@.auctions,
    {
        let mut v: Vec<AuctionDetails> = Vec::new();
        let mut i: usize = 0;
        while i < self.auctions.len()
            invariant
                i <= self.auctions@.len(),
                v@.len() == i,
                forall|k: int| 0 <= k < i ==> v@[k]@ == self.auctions@[k]@,
            decreases self.auctions@.len() - i,
        {
            v.push(self.auctions[i].duplicate());
            i += 1;
        }
        assert(listings(v@) =~= self@.auctions);
        Ok(v)
    }

    /// The listing of `auction_id`: `AuctionDoesNotExist` where there is
    /// none.
    pub fn get_auction_details(&self, auction_id: AccountId) -> (r: Result<AuctionDetails, Error>)
        ensures
            match r {
                Ok(details) => self@.holds(auction_id) && details@
                    == self@.auctions[self@.place_of(auction_id)],
                Err(e) => !self@.holds(auction_id) && e == Error::AuctionDoesNotExist,
            },
    {
        match self.find(&auction_id) {
            Some(i) => Ok(self.auctions[i].duplicate()),
            None => Err(Error::AuctionDoesNotExist),
        }
    }

    /// The first listing of an auction of the asset `asset_id`:
    /// `AuctionDoesNotExist` where there is none.
    pub fn get_auction_details_by_asset_id(&self, asset_id: u32) -> (r: Result<
        AuctionDetails,
        Error,
    >)
        ensures
            match r {
                Ok(details) => exists|i: int|
                    self@.is_place_of_asset(asset_id, i) && details@ == self@.auctions[i],
                Err(e) => !self@.sells(asset_id) && e == Error::AuctionDoesNotExist,
            },
    {
        let mut i: usize = 0;
        while i < self.auctions.len()
            invariant
                i <= self.auctions@.len(),
                forall|j: int| 0 <= j < i ==> self@.auctions[j].asset_id != asset_id,
            decreases self.auctions@.len() - i,
        {
            if self.auctions[i].asset_id == asset_id {
                assert(self@.is_place_of_asset(asset_id, i as int));
                return Ok(self.auctions[i].duplicate());
            }
            i += 1;
        }
        Err(Error::AuctionDoesNotExist)
    }

    /// The listings that `owner` sells, in the order of listing.
    pub fn get_auctions_by_owner(&self, owner: AccountId) -> (r: Result<Vec<AuctionDetails>, Error>)
        ensures
            r matches Ok(v) && listings(v@) == self@.auctions_by_owner(owner),
    {
        let ghost pred = |l: Listing| l.owner == owner;
        let mut v: Vec<AuctionDetails> = Vec::new();
        let mut i: usize = 0;
        proof {
            reveal(Seq::filter);
            assert(self@.auctions.take(0) =~= Seq::<Listing>::empty());
            assert(listings(v@) =~= self@.auctions.take(0).filter(pred));
        }
        while i < self.auctions.len()
            invariant
                i <= self.auctions@.len(),
                pred == (|l: Listing| l.owner == owner),
                listings(v@) == self@.auctions.take(i as int).filter(pred),
            decreases self.auctions@.len() - i,
        {
            let ghost kept = listings(v@);
            proof {
                reveal(Seq::filter);
                assert(self@.auctions.take(i + 1).drop_last() =~= self@.auctions.take(i as int));
                assert(self@.auctions.take(i + 1).last() == self@.auctions[i as int]);
            }
            if self.auctions[i].owner.same(&owner) {
                v.push(self.auctions[i].duplicate());
                assert(listings(v@) =~= kept.push(self@.auctions[i as int]));
            }
            i += 1;
        }
        assert(self@.auctions.take(i as int) =~= self@.auctions);
        Ok(v)
    }

    /// Whether `bidder` has bid in `auction_id`.
    pub fn has_bid(&self, bidder: &AccountId, auction_id: &AccountId) -> (r: bool)
        ensures
            r == self@.has_bid(*bidder, *auction_id),
    {
        let mut j: usize = 0;
        while j < self.bids.len()
            invariant
                j <= self.bids@.len(),
                forall|k: int|
                    0 <= k < j ==> !(self.bids@[k].bidder == *bidder && self.bids@[k].auction_id
                        == *auction_id),
            decreases self.bids@.len() - j,
        {
            if self.bids[j].bidder.same(bidder) && self.bids[j].auction_id.same(auction_id) {
                assert(self@.bids[j as int].bidder == *bidder && self@.bids[j as int].auction_id
                    == *auction_id);
                return true;
            }
            j += 1;
        }
        false
    }

    /// The listings in which `bidder` has bid, in the order of listing.
    pub fn get_auctions_by_bidder(&self, bidder: AccountId) -> (r: Result<
        Vec<AuctionDetails>,
        Error,
    >)
        ensures
            r matches Ok(v) && listings(v@) == self@.auctions_by_bidder(bidder),
    {
        let ghost state = self@;
        let ghost pred = |l: Listing| state.has_bid(bidder, l.auction_id);
        let mut v: Vec<AuctionDetails> = Vec::new();
        let mut i: usize = 0;
        proof {
            reveal(Seq::filter);
            assert(self@.auctions.take(0) =~= Seq::<Listing>::empty());
            assert(listings(v@) =~= self@.auctions.take(0).filter(pred));
        }
        while i < self.auctions.len()
            invariant
                i <= self.auctions@.len(),
                state == self@,
                pred == (|l: Listing| state.has_bid(bidder, l.auction_id)),
                listings(v@) == self@.auctions.take(i as int).filter(pred),
            decreases self.auctions@.len() - i,
        {
            let ghost kept = listings(v@);
            proof {
                reveal(Seq::filter);
                assert(self@.auctions.take(i + 1).drop_last() =~= self@.auctions.take(i as int));
                assert(self@.auctions.take(i + 1).last() == self@.auctions[i as int]);
            }
            if self.has_bid(&bidder, &self.auctions[i].auction_id) {
                v.push(self.auctions[i].duplicate());
                assert(listings(v@) =~= kept.push(self@.auctions[i as int]));
            }
            i += 1;
        }
        assert(self@.auctions.take(i as int) =~= self@.auctions);
        Ok(v)
    }
}

} // verus!
