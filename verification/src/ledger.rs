//! The books of an auction as they are kept.

use vstd::prelude::*;
use crate::account::AccountId;
use crate::commitment::bytes_equal;
use crate::model::{quotes_of, Books, Quote};
use crate::pricing::{is_top, no_bids, second_price};
use crate::proposal::{AuctionResult, Proposal, SealedBid};
use crate::registry::Registry;
use crate::store::AccountMap;

verus! {

/// A revealed bid together with the digest computed for its value.
#[derive(Clone, Debug, PartialEq, Eq)]
pub struct OpenedBid {
    /// The bidder.
    pub bidder: AccountId,
    /// The revealed value.
    pub bid: u128,
    /// The digest of the revealed value.
    pub digest: Vec<u8>,
}

/// The quotes that a list of opened bids holds, in the order of the list.
pub open spec fn quoted(opened: Seq<OpenedBid>) -> Seq<(AccountId, Quote)> {
    Seq::new(
        opened.len(),
        |i: int| (opened[i].bidder, Quote { value: opened[i].bid, digest: opened[i].digest@ }),
    )
}

/// The participants, proposals, revealed bids and result of one auction.
pub struct Ledger {
    participants: Registry,
    proposals: AccountMap<Proposal>,
    failed_proposals: AccountMap<Proposal>,
    revealed_bids: AccountMap<u128>,
    winner: Option<AuctionResult>,
}

/// The stored proposals as plain values.
pub open spec fn sealed(proposals: Map<AccountId, Proposal>) -> Map<AccountId, SealedBid> {
    proposals.map_values(|p: Proposal| p@)
}

impl View for Ledger {
    type V = Books;

    closed spec fn view(&self) -> Books {
        Books {
            participants: self.participants@,
            proposals: sealed(self.proposals@),
            failed_proposals: sealed(self.failed_proposals@),
            revealed_bids: self.revealed_bids@,
            winner: self.winner,
        }
    }
}

impl Ledger {
    /// The representation invariant. It implies that the books are
    /// consistent.
    pub closed spec fn wf(&self) -> bool {
        &&& self.participants.wf()
        &&& self.proposals.wf()
        &&& self.failed_proposals.wf()
        &&& self.revealed_bids.wf()
        &&& self@.consistent()
    }

    /// Well-formed books are consistent.
    pub proof fn lemma_consistent(&self)
        requires
            self.wf(),
        ensures
            self@.consistent(),
    {
    }

    /// The books of an auction that nobody has bid in.
    pub fn new() -> (ledger: Ledger)
        ensures
            ledger.wf(),
            ledger@ == Books::empty(),
    {
        let ledger = Ledger {
            participants: Registry::new(),
            proposals: AccountMap::new(),
            failed_proposals: AccountMap::new(),
            revealed_bids: AccountMap::new(),
            winner: None,
        };
        assert(sealed(ledger.proposals@) =~= Map::<AccountId, SealedBid>::empty());
        assert(sealed(ledger.failed_proposals@) =~= Map::<AccountId, SealedBid>::empty());
        ledger
    }

    /// Registers `bidder` if new and stores `proposal` as the bidder's
    /// proposal, in place of any earlier one.
    pub fn submit(&mut self, bidder: AccountId, proposal: Proposal)
        requires
            old(self).wf(),
        ensures
            final(self).wf(),
            final(self)@ == old(self)@.submit(bidder, proposal@),
    {
        self.participants.register(bidder);
        self.proposals.insert(bidder, proposal);
        proof {
            assert(sealed(self.proposals@) =~= sealed(old(self).proposals@).insert(
                bidder,
                proposal@,
            ));
            assert(self.participants@.contains(bidder)) by {
                if !old(self).participants@.contains(bidder) {
                    assert(self.participants@[self.participants@.len() - 1] == bidder);
                }
            }
            assert forall|p: AccountId| old(self).participants@.contains(p) implies #[trigger]
                self.participants@.contains(p) by {
                let i = choose|i: int|
                    0 <= i < old(self).participants@.len() && old(self).participants@[i] == p;
                assert(self.participants@[i] == p);
            }
        }
    }

    /// The number of participants.
    pub fn participant_count(&self) -> (n: usize)
        ensures
            n == self@.participants.len(),
    {
        self.participants.len()
    }

    /// The participants in order of registration.
    pub fn participants(&self) -> (v: Vec<AccountId>)
        ensures
            v@ == self@.participants,
    {
        self.participants.to_vec()
    }

    /// Whether `who` is a participant.
    pub fn is_participant(&self, who: &AccountId) -> (r: bool)
        ensures
            r == self@.participants.contains(*who),
    {
        self.participants.contains(who)
    }

    /// The live proposal of `who`, if there is one.
    pub fn proposal(&self, who: &AccountId) -> (r: Option<Proposal>)
        requires
            self.wf(),
        ensures
            match r {
                Some(p) => self@.proposals.contains_key(*who) && p@ == self@.proposals[*who],
                None => !self@.proposals.contains_key(*who),
            },
    {
        match self.proposals.get(who) {
            Some(p) => Some(p.duplicate()),
            None => None,
        }
    }

    /// The deposit that came with the live proposal of `who`, if there is one.
    pub fn deposit_of(&self, who: &AccountId) -> (r: Option<u128>)
        requires
            self.wf(),
        ensures
            match r {
                Some(d) => self@.proposals.contains_key(*who) && d == self@.proposals[*who].deposit,
                None => !self@.proposals.contains_key(*who),
            },
    {
        match self.proposals.get(who) {
            Some(p) => Some(p.deposit),
            None => None,
        }
    }

    /// The deposit that is held for `who`: the one that came with the live
    /// proposal, or else with the proposal that failed its reveal.
    pub fn escrow_of(&self, who: &AccountId) -> (r: Option<u128>)
        requires
            self.wf(),
        ensures
            r == self@.escrow_of(*who),
    {
        match self.proposals.get(who) {
            Some(p) => Some(p.deposit),
            None => match self.failed_proposals.get(who) {
                Some(p) => Some(p.deposit),
                None => None,
            },
        }
    }

    /// The proposal of `who` that failed its reveal, if there is one.
    pub fn failed_proposal(&self, who: &AccountId) -> (r: Option<Proposal>)
        requires
            self.wf(),
        ensures
            match r {
                Some(p) => self@.failed_proposals.contains_key(*who) && p@
                    == self@.failed_proposals[*who],
                None => !self@.failed_proposals.contains_key(*who),
            },
    {
        match self.failed_proposals.get(who) {
            Some(p) => Some(p.duplicate()),
            None => None,
        }
    }

    /// The bid of `who` as it was revealed and found valid, if it was.
    pub fn revealed_bid(&self, who: &AccountId) -> (r: Option<u128>)
        requires
            self.wf(),
        ensures
            match r {
                Some(b) => self@.revealed_bids.contains_key(*who) && b == self@.revealed_bids[*who],
                None => !self@.revealed_bids.contains_key(*who),
            },
    {
        match self.revealed_bids.get(who) {
            Some(b) => Some(*b),
            None => None,
        }
    }

    /// The result, once there is one.
    pub fn winner(&self) -> (r: Option<AuctionResult>)
        ensures
            r == self@.winner,
    {
        self.winner
    }
}

/// The books when the participants before place `n` have been checked and
/// the others have not.
spec fn checked_through(books: Books, quotes: Map<AccountId, Quote>, n: int) -> Books {
    let done = books.participants.take(n);
    Books {
        participants: books.participants,
        proposals: Map::new(
            |p: AccountId|
                books.proposals.contains_key(p) && !(done.contains(p) && books.rejects(quotes, p)),
            |p: AccountId| books.proposals[p],
        ),
        failed_proposals: Map::new(
            |p: AccountId|
                books.failed_proposals.contains_key(p) || (done.contains(p) && books.rejects(
                    quotes,
                    p,
                )),
            |p: AccountId|
                if done.contains(p) && books.rejects(quotes, p) {
                    books.proposals[p]
                } else {
                    books.failed_proposals[p]
                },
        ),
        revealed_bids: Map::new(
            |p: AccountId|
                books.revealed_bids.contains_key(p) || (done.contains(p) && books.accepts(
                    quotes,
                    p,
                )),
            |p: AccountId|
                if done.contains(p) && books.accepts(quotes, p) {
                    quotes[p].value
                } else {
                    books.revealed_bids[p]
                },
        ),
        winner: books.winner,
    }
}

/// For each bidder among the opened bids, the place of its last occurrence.
fn last_occurrences(opened: &Vec<OpenedBid>) -> (lookup: AccountMap<usize>)
    ensures
        lookup.wf(),
        forall|p: AccountId|
            lookup@.contains_key(p) <==> quotes_of(quoted(opened@)).contains_key(p),
        forall|p: AccountId| #[trigger]
            lookup@.contains_key(p) ==> lookup@[p] < opened@.len() && opened@[lookup@[p] as int].bidder
                == p && quotes_of(quoted(opened@))[p] == (Quote {
                value: opened@[lookup@[p] as int].bid,
                digest: opened@[lookup@[p] as int].digest@,
            }),
{
    let mut lookup: AccountMap<usize> = AccountMap::new();
    let mut i: usize = 0;
    assert(quoted(opened@).take(0) =~= Seq::<(AccountId, Quote)>::empty());
    while i < opened.len()
        invariant
            i <= opened@.len(),
            lookup.wf(),
            forall|p: AccountId|
                lookup@.contains_key(p) <==> quotes_of(quoted(opened@).take(i as int)).contains_key(
                    p,
                ),
            forall|p: AccountId| #[trigger]
                lookup@.contains_key(p) ==> lookup@[p] < i && opened@[lookup@[p] as int].bidder == p
                    && quotes_of(quoted(opened@).take(i as int))[p] == (Quote {
                    value: opened@[lookup@[p] as int].bid,
                    digest: opened@[lookup@[p] as int].digest@,
                }),
        decreases opened@.len() - i,
    {
        let ghost next = quoted(opened@).take(i + 1);
        assert(next.drop_last() =~= quoted(opened@).take(i as int));
        assert(next.last() == quoted(opened@)[i as int]);
        lookup.insert(opened[i].bidder, i);
        i += 1;
    }
    assert(quoted(opened@).take(i as int) =~= quoted(opened@));
    lookup
}

impl Ledger {
    /// Checks the opened bids against the commitments and settles the books.
    ///
    /// The participants are visited in order of registration. One for whom a
    /// bid was opened and who has a live proposal is checked: where the digest
    /// is the commitment, the bid is recorded as revealed and takes part in
    /// the second-price rule; where it is not, the proposal moves to the
    /// failed ones. Where a bidder was opened twice, the last one counts.
    pub fn resolve(&mut self, opened: &Vec<OpenedBid>)
        requires
            old(self).wf(),
        ensures
            final(self).wf(),
            old(self)@.is_result(quotes_of(quoted(opened@)), final(self)@.winner),
            final(self)@ == old(self)@.resolve(quotes_of(quoted(opened@)), final(self)@.winner),
    {
        let ghost quotes = quotes_of(quoted(opened@));
        let ghost books = self@;
        let lookup = last_occurrences(opened);
        let mut standings: Vec<Option<u128>> = Vec::new();
        let n: usize = self.participants.len();
        let mut i: usize = 0;
        assert(books.participants.take(0) =~= Seq::<AccountId>::empty());
        assert(self@.proposals =~= checked_through(books, quotes, 0).proposals);
        assert(self@.failed_proposals =~= checked_through(books, quotes, 0).failed_proposals);
        assert(self@.revealed_bids =~= checked_through(books, quotes, 0).revealed_bids);
        while i < n
            invariant
                i <= n,
                n == books.participants.len(),
                books.consistent(),
                quotes == quotes_of(quoted(opened@)),
                lookup.wf(),
                forall|p: AccountId| lookup@.contains_key(p) <==> quotes.contains_key(p),
                forall|p: AccountId| #[trigger]
                    lookup@.contains_key(p) ==> lookup@[p] < opened@.len() && quotes[p] == (Quote {
                        value: opened@[lookup@[p] as int].bid,
                        digest: opened@[lookup@[p] as int].digest@,
                    }),
                self.participants.wf(),
                self.proposals.wf(),
                self.failed_proposals.wf(),
                self.revealed_bids.wf(),
                self@ == checked_through(books, quotes, i as int),
                standings@ == books.standings(quotes).take(i as int),
            decreases n - i,
        {
            let p = self.participants.get(i);
            let ghost done = books.participants.take(i as int);
            let ghost next = books.participants.take(i + 1);
            let ghost before = self@;
            proof {
                assert(next =~= done.push(p));
                assert(books.participants.contains(p));
                assert(!done.contains(p)) by {
                    if done.contains(p) {
                        let j = choose|j: int| 0 <= j < done.len() && done[j] == p;
                        assert(books.participants[j] == p);
                    }
                }
                assert(forall|q: AccountId| next.contains(q) <==> (q == p || done.contains(q))) by {
                    assert forall|q: AccountId| next.contains(q) implies (q == p || done.contains(
                        q,
                    )) by {
                        let j = choose|j: int| 0 <= j < next.len() && next[j] == q;
                        if j < done.len() {
                            assert(done[j] == q);
                        }
                    }
                    assert forall|q: AccountId| (q == p || done.contains(q)) implies next.contains(
                        q,
                    ) by {
                        if q == p {
                            assert(next[i as int] == p);
                        } else {
                            let j = choose|j: int| 0 <= j < done.len() && done[j] == q;
                            assert(next[j] == q);
                        }
                    }
                }
            }
            let mut standing: Option<u128> = None;
            let mut failed: bool = false;
            match lookup.get(&p) {
                Some(at) => {
                    let quote = &opened[*at];
                    match self.proposals.get(&p) {
                        Some(proposal) => {
                            proof {
                                assert(before.proposals.contains_key(p));
                                assert(before.proposals[p] == proposal@);
                                assert(before.proposals[p] == books.proposals[p]);
                                assert(quotes[p].digest == quote.digest@);
                            }
                            if bytes_equal(quote.digest.as_slice(), proposal.commitment.as_slice()) {
                                standing = Some(quote.bid);
                            } else {
                                failed = true;
                            }
                        },
                        None => {
                            assert(!before.proposals.contains_key(p));
                        },
                    }
                },
                None => {
                    assert(!quotes.contains_key(p));
                },
            }
            let ghost stored = self.proposals@;
            proof {
                assert(before.proposals.contains_key(p) <==> books.proposals.contains_key(p));
                assert(standing is Some <==> books.accepts(quotes, p));
                assert(standing matches Some(b) ==> b == quotes[p].value);
                assert(failed <==> books.rejects(quotes, p));
            }
            match standing {
                Some(b) => {
                    self.revealed_bids.insert(p, b);
                },
                None => {},
            }
            if failed {
                match self.proposals.remove(&p) {
                    Some(moved) => {
                        proof {
                            assert(moved == stored[p]);
                            assert(moved@ == before.proposals[p]);
                            assert(moved@ == books.proposals[p]);
                        }
                        self.failed_proposals.insert(p, moved);
                        proof {
                            assert(sealed(self.proposals@) =~= before.proposals.remove(p));
                            assert(sealed(self.failed_proposals@) =~= before.failed_proposals.insert(
                                p,
                                books.proposals[p],
                            ));
                        }
                    },
                    None => {},
                }
            }
            standings.push(standing);
            proof {
                let after = checked_through(books, quotes, i + 1);
                assert(self@.proposals =~= after.proposals);
                assert(self@.failed_proposals =~= after.failed_proposals);
                assert(self@.revealed_bids =~= after.revealed_bids);
                assert(standings@ =~= books.standings(quotes).take(i + 1));
            }
            i += 1;
        }
        proof {
            assert(books.participants.take(n as int) =~= books.participants);
            assert(books.standings(quotes).take(n as int) =~= books.standings(quotes));
            let settled = books.resolve(quotes, books.winner);
            assert(self@.proposals =~= settled.proposals);
            assert(self@.failed_proposals =~= settled.failed_proposals);
            assert(self@.revealed_bids =~= settled.revealed_bids);
        }
        match second_price(&standings) {
            Some((w, debt)) => {
                let who = self.participants.get(w);
                self.winner = Some(AuctionResult { winner: who, debt });
                proof {
                    assert(is_top(standings@, w as int));
                    assert(standings@[w as int] is Some);
                    assert(!no_bids(standings@));
                    assert(books.participants.contains(who));
                }
            },
            None => {},
        }
    }
}

} // verus!
