//! The second-price auction that a proxy runs.
//!
//! The proxy registers the bidders, hands in the bids once they have been
//! revealed, and asks for the result. The auction itself neither holds
//! deposits nor checks commitments: it keeps the order of registration and
//! applies the second-price rule.

use vstd::prelude::*;
use crate::account::AccountId;
use crate::error::Error;
use crate::events::BidSuccess;
use crate::pricing::{is_runner_up, is_top, no_bids, second_price};
use crate::proposal::{AuctionResult, RevealedBid};
use crate::registry::Registry;
use crate::store::AccountMap;

verus! {

/// The bid that each bidder revealed: where one revealed more than once, the
/// last reveal counts.
pub open spec fn reveals_of(list: Seq<RevealedBid>) -> Map<AccountId, u128>
    decreases list.len(),
{
    if list.len() == 0 {
        Map::empty()
    } else {
        reveals_of(list.drop_last()).insert(list.last().bidder, list.last().bid)
    }
}

/// What a proxy-run auction holds.
pub struct VickreyState {
    pub proxy: AccountId,
    pub asset_id: u32,
    pub participants: Seq<AccountId>,
    pub revealed_bids: Seq<RevealedBid>,
    pub winner: Option<AuctionResult>,
}

impl VickreyState {
    /// What always holds: nobody is registered twice, and only participants
    /// have revealed a bid or won.
    pub open spec fn consistent(self) -> bool {
        &&& self.participants.no_duplicates()
        &&& forall|i: int|
            0 <= i < self.revealed_bids.len() ==> self.participants.contains(
                #[trigger] self.revealed_bids[i].bidder,
            )
        &&& self.winner matches Some(result) ==> self.participants.contains(result.winner)
    }

    /// The revealed bids, one place per participant in registration order.
    pub open spec fn standings(self) -> Seq<Option<u128>> {
        let reveals = reveals_of(self.revealed_bids);
        Seq::new(
            self.participants.len(),
            |i: int|
                if reveals.contains_key(self.participants[i]) {
                    Some(reveals[self.participants[i]])
                } else {
                    None
                },
        )
    }

    /// Whether `result` is what the second-price rule gives on the revealed
    /// bids, or no result where nothing was revealed.
    pub open spec fn is_result(self, result: Option<AuctionResult>) -> bool {
        let bids = self.standings();
        if no_bids(bids) {
            result is None
        } else {
            &&& result matches Some(r)
            &&& exists|w: int|
                is_top(bids, w) && is_runner_up(bids, w, r.debt) && self.participants[w]
                    == r.winner
        }
    }

    /// Whether `origin` may register `bidder`, and why not if not.
    pub open spec fn bid_verdict(self, origin: AccountId) -> Result<(), Error> {
        if origin != self.proxy {
            Err(Error::NotProxy)
        } else {
            Ok(())
        }
    }

    /// The auction after `origin` has tried to register `bidder`.
    pub open spec fn bid(self, origin: AccountId, bidder: AccountId) -> VickreyState {
        if self.bid_verdict(origin) is Ok && !self.participants.contains(bidder) {
            VickreyState { participants: self.participants.push(bidder), ..self }
        } else {
            self
        }
    }

    /// Whether `origin` may hand in the bid that `bidder` revealed, and why
    /// not if not.
    pub open spec fn reveal_verdict(self, origin: AccountId, bidder: AccountId) -> Result<
        (),
        Error,
    > {
        if origin != self.proxy {
            Err(Error::NotProxy)
        } else if !self.participants.contains(bidder) {
            Err(Error::NotParticipant)
        } else {
            Ok(())
        }
    }

    /// The auction after `origin` has tried to hand in a revealed bid.
    pub open spec fn save_revealed_bid(self, origin: AccountId, revealed: RevealedBid)
        -> VickreyState {
        if self.reveal_verdict(origin, revealed.bidder) is Ok {
            VickreyState { revealed_bids: self.revealed_bids.push(revealed), ..self }
        } else {
            self
        }
    }

    /// Whether the result can be computed now, and why not if not: a result
    /// that stands is not computed again.
    pub open spec fn complete_verdict(self) -> Result<(), Error> {
        if self.winner is Some {
            Err(Error::AlreadyResolved)
        } else {
            Ok(())
        }
    }
}

/// A second-price auction run by a proxy.
pub struct VickreyAuction {
    proxy: AccountId,
    asset_id: u32,
    participants: Registry,
    winner: Option<AuctionResult>,
    revealed_bids: Vec<RevealedBid>,
}

impl View for VickreyAuction {
    type V = VickreyState;

    closed spec fn view(&self) -> VickreyState {
        VickreyState {
            proxy: self.proxy,
            asset_id: self.asset_id,
            participants: self.participants@,
            revealed_bids: self.revealed_bids@,
            winner: self.winner,
        }
    }
}

/// The lookup from each bidder to the bid revealed last.
fn last_reveals(list: &Vec<RevealedBid>) -> (lookup: AccountMap<u128>)
    ensures
        lookup.wf(),
        lookup@ == reveals_of(list@),
{
    let mut lookup: AccountMap<u128> = AccountMap::new();
    let mut i: usize = 0;
    assert(list@.take(0) =~= Seq::<RevealedBid>::empty());
    while i < list.len()
        invariant
            i <= list@.len(),
            lookup.wf(),
            lookup@ == reveals_of(list@.take(i as int)),
        decreases list@.len() - i,
    {
        assert(list@.take(i + 1).drop_last() =~= list@.take(i as int));
        lookup.insert(list[i].bidder, list[i].bid);
        i += 1;
    }
    assert(list@.take(i as int) =~= list@);
    lookup
}

impl VickreyAuction {
    /// The representation invariant. It implies that the auction is
    /// consistent.
    pub closed spec fn wf(&self) -> bool {
        self.participants.wf() && self@.consistent()
    }

    /// A well-formed auction is consistent.
    pub proof fn lemma_consistent(&self)
        requires
            self.wf(),
        ensures
            self@.consistent(),
    {
    }

    /// A new auction of the asset `asset_id`, run by `proxy`, with no
    /// participants.
    pub fn new(proxy: AccountId, asset_id: u32) -> (auction: VickreyAuction)
        ensures
            auction.wf(),
            auction@ == (VickreyState {
                proxy,
                asset_id,
                participants: Seq::empty(),
                revealed_bids: Seq::empty(),
                winner: None,
            }),
    {
        VickreyAuction {
            proxy,
            asset_id,
            participants: Registry::new(),
            winner: None,
            revealed_bids: Vec::new(),
        }
    }

    /// The asset that is sold.
    pub fn get_asset_id(&self) -> (id: u32)
        ensures
            id == self@.asset_id,
    {
        self.asset_id
    }

    /// The proxy that runs the auction.
    pub fn get_proxy(&self) -> (proxy: AccountId)
        ensures
            proxy == self@.proxy,
    {
        self.proxy
    }

    /// The result, once there is one.
    pub fn get_winner(&self) -> (r: Option<AuctionResult>)
        ensures
            r == self@.winner,
    {
        self.winner
    }

    /// The participants in order of registration.
    pub fn get_participants(&self) -> (v: Vec<AccountId>)
        ensures
            v@ == self@.participants,
    {
        self.participants.to_vec()
    }

    /// The revealed bids in the order in which they were handed in.
    pub fn get_revealed_bids(&self) -> (v: Vec<RevealedBid>)
        ensures
            v@ == self@.revealed_bids,
    {
        let mut v: Vec<RevealedBid> = Vec::new();
        let mut i: usize = 0;
        while i < self.revealed_bids.len()
            invariant
                i <= self.revealed_bids@.len(),
                v@ == self.revealed_bids@.take(i as int),
            decreases self.revealed_bids@.len() - i,
        {
            v.push(self.revealed_bids[i]);
            assert(self.revealed_bids@.take(i + 1) =~= self.revealed_bids@.take(i as int).push(
                self.revealed_bids@[i as int],
            ));
            i += 1;
        }
        assert(self.revealed_bids@.take(i as int) =~= self.revealed_bids@);
        v
    }

    /// Registers `bidder` on behalf of `origin`, which must be the proxy.
    /// One who is registered already stays where they are.
    pub fn bid(&mut self, origin: AccountId, bidder: AccountId) -> (r: Result<BidSuccess, Error>)
        requires
            old(self).wf(),
        ensures
            final(self).wf(),
            final(self)@ == old(self)@.bid(origin, bidder),
            r is Ok <==> old(self)@.bid_verdict(origin) is Ok,
            r matches Err(e) ==> old(self)@.bid_verdict(origin) == Err::<(), Error>(e),
    {
        if !origin.same(&self.proxy) {
            return Err(Error::NotProxy);
        }
        let ghost before = self.participants@;
        self.participants.register(bidder);
        proof {
            assert forall|q: AccountId| before.contains(q) implies #[trigger]
                self.participants@.contains(q) by {
                let j = choose|j: int| 0 <= j < before.len() && before[j] == q;
                assert(self.participants@[j] == q);
            }
        }
        Ok(BidSuccess {  })
    }

    /// Takes a revealed bid from `origin`, which must be the proxy, for a
    /// bidder who must be registered.
    pub fn save_revealed_bid(&mut self, origin: AccountId, revealed_bid: RevealedBid) -> (r:
        Result<(), Error>)
        requires
            old(self).wf(),
        ensures
            final(self).wf(),
            final(self)@ == old(self)@.save_revealed_bid(origin, revealed_bid),
            r == old(self)@.reveal_verdict(origin, revealed_bid.bidder),
    {
        if !origin.same(&self.proxy) {
            return Err(Error::NotProxy);
        }
        if !self.participants.contains(&revealed_bid.bidder) {
            return Err(Error::NotParticipant);
        }
        self.revealed_bids.push(RevealedBid { bidder: revealed_bid.bidder, bid: revealed_bid.bid });
        Ok(())
    }

    /// Computes the result from the revealed bids.
    ///
    /// The participants are taken in order of registration, each with the bid
    /// revealed last; the first to hold the highest bid wins and owes the
    /// highest bid among the others. Where nothing was revealed there is no
    /// result. A result that stands is not computed again: the call is then
    /// refused with `AlreadyResolved`.
    pub fn complete(&mut self) -> (r: Result<(), Error>)
        requires
            old(self).wf(),
        ensures
            final(self).wf(),
            r == old(self)@.complete_verdict(),
            r is Ok ==> old(self)@.is_result(final(self)@.winner),
            final(self)@ == (VickreyState { winner: final(self)@.winner, ..old(self)@ }),
            r is Err ==> final(self)@ == old(self)@,
    {
        if self.winner.is_some() {
            return Err(Error::AlreadyResolved);
        }
        let lookup = last_reveals(&self.revealed_bids);
        let mut standings: Vec<Option<u128>> = Vec::new();
        let n: usize = self.participants.len();
        let mut i: usize = 0;
        while i < n
            invariant
                i <= n,
                n == self@.participants.len(),
                lookup.wf(),
                lookup@ == reveals_of(self@.revealed_bids),
                standings@ == self@.standings().take(i as int),
            decreases n - i,
        {
            let p = self.participants.get(i);
            let standing = match lookup.get(&p) {
                Some(b) => Some(*b),
                None => None,
            };
            standings.push(standing);
            assert(standings@ =~= self@.standings().take(i + 1));
            i += 1;
        }
        assert(self@.standings().take(n as int) =~= self@.standings());
        match second_price(&standings) {
            Some((w, debt)) => {
                let who = self.participants.get(w);
                self.winner = Some(AuctionResult { winner: who, debt });
                proof {
                    assert(is_top(standings@, w as int));
                    assert(standings@[w as int] is Some);
                    assert(old(self)@.participants.contains(who));
                }
            },
            None => {},
        }
        Ok(())
    }
}

} // verus!
