//! What holds of every auction, proved of the model that the operations are
//! specified by.

use vstd::prelude::*;
use crate::account::AccountId;
use crate::error::Error;
use crate::model::{AuctionState, Books, Phase, Quote, Settlement};
use crate::pricing::{is_outcome, is_runner_up, is_top, no_bids};
use crate::proposal::{AuctionResult, SealedBid};

verus! {

/// A sequence without duplicates that gains an element it did not hold has
/// no duplicates.
proof fn lemma_push_new(s: Seq<AccountId>, id: AccountId)
    requires
        s.no_duplicates(),
        !s.contains(id),
    ensures
        s.push(id).no_duplicates(),
        forall|q: AccountId| s.push(id).contains(q) <==> (q == id || s.contains(q)),
{
    let t = s.push(id);
    assert forall|q: AccountId| t.contains(q) <==> (q == id || s.contains(q)) by {
        if t.contains(q) {
            let j = choose|j: int| 0 <= j < t.len() && t[j] == q;
            if j < s.len() {
                assert(s[j] == q);
            }
        }
        if s.contains(q) {
            let j = choose|j: int| 0 <= j < s.len() && s[j] == q;
            assert(t[j] == q);
        }
        if q == id {
            assert(t[s.len() as int] == id);
        }
    }
    assert forall|i: int, j: int| 0 <= i < t.len() && 0 <= j < t.len() && i != j implies t[i]
        != t[j] by {
        if i < s.len() && j == s.len() {
            assert(s[i] == t[i]);
        }
        if j < s.len() && i == s.len() {
            assert(s[j] == t[j]);
        }
    }
}

/// Submitting a proposal keeps the books consistent, registers the bidder,
/// and keeps everybody who was registered where they were.
pub proof fn lemma_submit_consistent(books: Books, bidder: AccountId, bid: SealedBid)
    requires
        books.consistent(),
    ensures
        books.submit(bidder, bid).consistent(),
        books.submit(bidder, bid).participants.contains(bidder),
        books.participants.is_prefix_of(books.submit(bidder, bid).participants),
{
    let after = books.submit(bidder, bid);
    if !books.participants.contains(bidder) {
        lemma_push_new(books.participants, bidder);
    }
    assert(books.participants.is_prefix_of(after.participants));
}

/// Resolving keeps the books consistent, whoever is recorded as the result
/// among the participants.
pub proof fn lemma_resolve_consistent(
    books: Books,
    quotes: Map<AccountId, Quote>,
    result: Option<AuctionResult>,
)
    requires
        books.consistent(),
        books.is_result(quotes, result),
    ensures
        books.resolve(quotes, result).consistent(),
{
    let bids = books.standings(quotes);
    if !no_bids(bids) {
        let w = choose|w: int|
            is_top(bids, w) && is_runner_up(bids, w, result->0.debt) && books.participants[w]
                == result->0.winner;
        assert(books.participants.contains(books.participants[w]));
    }
}

/// Two proposals in a row from one bidder leave one live proposal for that
/// bidder, the second, and the bidder registered exactly once, at the place
/// where the first proposal put it.
pub proof fn lemma_second_proposal_replaces_first(
    auction: AuctionState,
    bidder: AccountId,
    first: SealedBid,
    second: SealedBid,
)
    requires
        auction.consistent(),
        auction.propose_verdict(first.deposit, false) is Ok,
        auction.propose_verdict(second.deposit, false) is Ok,
    ensures
        ({
            let once = auction.propose(bidder, first, false);
            let twice = once.propose(bidder, second, false);
            &&& twice.books.proposals == auction.books.proposals.insert(bidder, second)
            &&& twice.books.proposals[bidder] == second
            &&& twice.books.participants == once.books.participants
            &&& twice.books.participants.no_duplicates()
            &&& twice.books.participants.contains(bidder)
            &&& twice.consistent()
        }),
{
    let once = auction.propose(bidder, first, false);
    let twice = once.propose(bidder, second, false);
    lemma_submit_consistent(auction.books, bidder, first);
    lemma_submit_consistent(once.books, bidder, second);
    assert(twice.books.proposals =~= auction.books.proposals.insert(bidder, second));
}

/// Taking the item into custody touches nothing but the note of it: the
/// books, the terms and the phase stay, and every proposal, resolution and
/// claim is decided as it would have been.
pub proof fn lemma_custody_decides_nothing(
    auction: AuctionState,
    owner: AccountId,
    transferred: bool,
    caller: AccountId,
    amount: u128,
    deadline_reached: bool,
)
    ensures
        ({
            let after = auction.start(owner, transferred);
            &&& after == (AuctionState { verified: after.verified, ..auction })
            &&& after.verified == (auction.verified || (owner == auction.owner && transferred))
            &&& after.propose_verdict(amount, deadline_reached) == auction.propose_verdict(
                amount,
                deadline_reached,
            )
            &&& after.complete_verdict(deadline_reached) == auction.complete_verdict(
                deadline_reached,
            )
            &&& after.claim(caller, amount, deadline_reached) == auction.claim(
                caller,
                amount,
                deadline_reached,
            )
        }),
{
}

/// A proposal that comes with less than the minimum deposit is refused with
/// `DepositTooLow`, whatever else holds, and changes nothing.
pub proof fn lemma_deposit_floor(
    auction: AuctionState,
    caller: AccountId,
    bid: SealedBid,
    deadline_reached: bool,
)
    requires
        bid.deposit < auction.minimum_deposit,
    ensures
        auction.propose_verdict(bid.deposit, deadline_reached) == Err::<(), Error>(
            Error::DepositTooLow,
        ),
        auction.propose(caller, bid, deadline_reached) == auction,
{
}

/// Once the deadline has been reached, a proposal with a sufficient deposit
/// is refused with `AuctionAlreadyComplete` and changes nothing.
pub proof fn lemma_no_proposal_after_deadline(
    auction: AuctionState,
    caller: AccountId,
    bid: SealedBid,
)
    requires
        bid.deposit >= auction.minimum_deposit,
    ensures
        auction.propose_verdict(bid.deposit, true) == Err::<(), Error>(
            Error::AuctionAlreadyComplete,
        ),
        auction.propose(caller, bid, true) == auction,
{
}

/// Until the deadline has been reached, resolving and claiming are refused
/// with `AuctionInProgress` and change nothing.
pub proof fn lemma_nothing_settles_before_deadline(
    auction: AuctionState,
    quotes: Map<AccountId, Quote>,
    result: Option<AuctionResult>,
    caller: AccountId,
    transferred: u128,
    delivered: bool,
)
    ensures
        auction.complete_verdict(false) == Err::<(), Error>(Error::AuctionInProgress),
        auction.complete(quotes, result, false) == auction,
        auction.claim(caller, transferred, false) == Err::<Settlement, Error>(
            Error::AuctionInProgress,
        ),
        auction.confirm_claim(caller, transferred, false, delivered) == auction,
{
}

/// An auction is resolved once: a second attempt is refused with
/// `AlreadyResolved` and leaves the result as it stands.
pub proof fn lemma_resolved_once(
    auction: AuctionState,
    first: Map<AccountId, Quote>,
    first_result: Option<AuctionResult>,
    second: Map<AccountId, Quote>,
    second_result: Option<AuctionResult>,
)
    requires
        auction.complete_verdict(true) is Ok,
    ensures
        ({
            let resolved = auction.complete(first, first_result, true);
            &&& resolved.phase == Phase::Resolved
            &&& resolved.complete_verdict(true) == Err::<(), Error>(Error::AlreadyResolved)
            &&& resolved.complete(second, second_result, true) == resolved
        }),
{
}

/// A proposal keeps an auction consistent, whether it is taken or refused.
pub proof fn lemma_propose_consistent(
    auction: AuctionState,
    caller: AccountId,
    bid: SealedBid,
    deadline_reached: bool,
)
    requires
        auction.consistent(),
    ensures
        auction.propose(caller, bid, deadline_reached).consistent(),
{
    let after = auction.propose(caller, bid, deadline_reached);
    if auction.propose_verdict(bid.deposit, deadline_reached) is Ok {
        lemma_submit_consistent(auction.books, caller, bid);
        assert forall|p: AccountId| #[trigger] after.refunded.contains(p) implies
            after.books.participants.contains(p) by {
            assert(auction.books.participants.contains(p));
            let j = choose|j: int|
                0 <= j < auction.books.participants.len() && auction.books.participants[j] == p;
            assert(after.books.participants[j] == p);
        }
    }
}

/// A resolution keeps an auction consistent, whether it is carried out or
/// refused.
pub proof fn lemma_complete_consistent(
    auction: AuctionState,
    quotes: Map<AccountId, Quote>,
    result: Option<AuctionResult>,
    deadline_reached: bool,
)
    requires
        auction.consistent(),
        auction.books.is_result(quotes, result),
    ensures
        auction.complete(quotes, result, deadline_reached).consistent(),
{
    let after = auction.complete(quotes, result, deadline_reached);
    if auction.complete_verdict(deadline_reached) is Ok {
        let books = auction.books;
        lemma_resolve_consistent(books, quotes, result);
        let bids = books.standings(quotes);
        if no_bids(bids) {
            assert(result is None);
        } else {
            let r = result->0;
            let w = choose|w: int|
                is_top(bids, w) && is_runner_up(bids, w, r.debt) && books.participants[w]
                    == r.winner;
            assert(bids[w] is Some);
            assert(books.accepts(quotes, r.winner));
            assert(after.books.revealed_bids[r.winner] == bids[w]->0);
            assert(r.debt <= bids[w]->0) by {
                if r.debt != 0 {
                    let j = choose|j: int|
                        0 <= j < bids.len() && j != w && bids[j] == Some(r.debt);
                    assert(bids[j]->0 <= bids[w]->0);
                }
            }
        }
    }
}

/// The outcome of a claim keeps an auction consistent, whatever it was.
pub proof fn lemma_confirm_claim_consistent(
    auction: AuctionState,
    caller: AccountId,
    transferred: u128,
    deadline_reached: bool,
    delivered: bool,
)
    requires
        auction.consistent(),
    ensures
        auction.confirm_claim(caller, transferred, deadline_reached, delivered).consistent(),
{
    let after = auction.confirm_claim(caller, transferred, deadline_reached, delivered);
    if auction.claim_outcome(caller, transferred, deadline_reached, delivered) is Ok {
        if !auction.is_winner(caller) {
            lemma_push_new(auction.refunded, caller);
            assert(after.refunded == auction.refunded.push(caller));
            assert(auction.books.proposals.contains_key(caller)
                || auction.books.failed_proposals.contains_key(caller));
            assert(auction.books.participants.contains(caller));
            assert forall|p: AccountId| #[trigger] after.refunded.contains(p) implies
                after.books.participants.contains(p) by {
                if p != caller {
                    assert(auction.refunded.contains(p));
                }
            }
        } else {
            assert(after == (AuctionState { phase: Phase::Claimed, ..auction }));
        }
    }
}

/// Every transition keeps an auction consistent.
pub proof fn lemma_transitions_consistent(
    auction: AuctionState,
    caller: AccountId,
    bid: SealedBid,
    quotes: Map<AccountId, Quote>,
    result: Option<AuctionResult>,
    transferred: u128,
    deadline_reached: bool,
    delivered: bool,
)
    requires
        auction.consistent(),
        auction.books.is_result(quotes, result),
    ensures
        auction.start(caller, delivered).consistent(),
        auction.propose(caller, bid, deadline_reached).consistent(),
        auction.complete(quotes, result, deadline_reached).consistent(),
        auction.confirm_claim(caller, transferred, deadline_reached, delivered).consistent(),
{
    lemma_propose_consistent(auction, caller, bid, deadline_reached);
    lemma_complete_consistent(auction, quotes, result, deadline_reached);
    lemma_confirm_claim_consistent(auction, caller, transferred, deadline_reached, delivered);
}

/// The registry only grows, and only at its end: whatever an auction goes
/// through, those who were registered stay registered where they were.
pub proof fn lemma_registry_is_append_only(
    auction: AuctionState,
    caller: AccountId,
    bid: SealedBid,
    quotes: Map<AccountId, Quote>,
    result: Option<AuctionResult>,
    transferred: u128,
    deadline_reached: bool,
    delivered: bool,
)
    ensures
        auction.books.participants.is_prefix_of(
            auction.start(caller, delivered).books.participants,
        ),
        auction.books.participants.is_prefix_of(
            auction.propose(caller, bid, deadline_reached).books.participants,
        ),
        auction.books.participants.is_prefix_of(
            auction.complete(quotes, result, deadline_reached).books.participants,
        ),
        auction.books.participants.is_prefix_of(
            auction.confirm_claim(
                caller,
                transferred,
                deadline_reached,
                delivered,
            ).books.participants,
        ),
{
    let proposed = auction.propose(caller, bid, deadline_reached);
    assert(auction.books.participants.is_prefix_of(proposed.books.participants));
}

/// Nothing is lost: whatever an auction goes through, a proposal that was
/// live is live or among the failed ones afterwards, unless its bidder has
/// replaced it; a proposal that had failed stays as it was; and a bid that
/// was revealed stays revealed.
pub proof fn lemma_nothing_is_lost(
    auction: AuctionState,
    caller: AccountId,
    bid: SealedBid,
    quotes: Map<AccountId, Quote>,
    result: Option<AuctionResult>,
    transferred: u128,
    deadline_reached: bool,
    delivered: bool,
    who: AccountId,
)
    requires
        auction.consistent(),
    ensures
        ({
            let proposed = auction.propose(caller, bid, deadline_reached).books;
            let resolved = auction.complete(quotes, result, deadline_reached).books;
            let claimed = auction.confirm_claim(caller, transferred, deadline_reached, delivered);
            let books = auction.books;
            &&& claimed.books == books
            &&& auction.start(caller, delivered).books == books
            &&& proposed.failed_proposals == books.failed_proposals
            &&& proposed.revealed_bids == books.revealed_bids
            &&& books.proposals.contains_key(who) ==> proposed.proposals.contains_key(who) && (who
                != caller ==> proposed.proposals[who] == books.proposals[who])
            &&& books.proposals.contains_key(who) ==> {
                ||| resolved.proposals.contains_key(who) && resolved.proposals[who]
                    == books.proposals[who]
                ||| resolved.failed_proposals.contains_key(who) && resolved.failed_proposals[who]
                    == books.proposals[who]
            }
            &&& books.failed_proposals.contains_key(who) ==> resolved.failed_proposals.contains_key(
                who,
            ) && resolved.failed_proposals[who] == books.failed_proposals[who]
            &&& books.revealed_bids.contains_key(who) ==> resolved.revealed_bids.contains_key(who)
        }),
{
    let books = auction.books;
    if books.failed_proposals.contains_key(who) {
        assert(!books.proposals.contains_key(who));
        assert(!books.rejects(quotes, who));
    }
}

/// Where two places hold the highest bid, the earlier one wins and owes that
/// bid in full.
pub proof fn lemma_tie_goes_to_earlier(bids: Seq<Option<u128>>, w: usize, debt: u128, other: int)
    requires
        is_outcome(bids, Some((w, debt))),
        0 <= other < bids.len(),
        other != w,
        bids[other] == bids[w as int],
    ensures
        w < other,
        Some(debt) == bids[w as int],
{
}

/// Where exactly one place holds a bid, that place wins and owes nothing.
pub proof fn lemma_sole_bid_owes_nothing(
    bids: Seq<Option<u128>>,
    only: int,
    outcome: Option<(usize, u128)>,
)
    requires
        0 <= only < bids.len(),
        bids[only] is Some,
        forall|j: int| 0 <= j < bids.len() && j != only ==> bids[j] is None,
        is_outcome(bids, outcome),
    ensures
        outcome matches Some((w, debt)) && w == only && debt == 0,
{
}

/// The winner holds a bid that no valid bid exceeds, and owes no more than
/// that bid.
pub proof fn lemma_debt_within_winning_bid(bids: Seq<Option<u128>>, w: usize, debt: u128)
    requires
        is_outcome(bids, Some((w, debt))),
    ensures
        bids[w as int] matches Some(top) && debt <= top,
{
}

/// Where exactly one participant reveals a valid bid, that participant wins
/// and owes nothing.
pub proof fn lemma_sole_valid_reveal_wins(
    books: Books,
    quotes: Map<AccountId, Quote>,
    only: int,
    result: Option<AuctionResult>,
)
    requires
        0 <= only < books.participants.len(),
        books.accepts(quotes, books.participants[only]),
        forall|j: int|
            0 <= j < books.participants.len() && j != only ==> !books.accepts(
                quotes,
                #[trigger] books.participants[j],
            ),
        books.is_result(quotes, result),
    ensures
        result == Some(AuctionResult { winner: books.participants[only], debt: 0 }),
{
    let bids = books.standings(quotes);
    assert(bids[only] is Some);
    assert forall|j: int| 0 <= j < bids.len() && j != only implies bids[j] is None by {
        assert(!books.accepts(quotes, books.participants[j]));
    }
    let w = choose|w: int|
        is_top(bids, w) && is_runner_up(bids, w, result->0.debt) && books.participants[w]
            == result->0.winner;
    assert(w == only);
}

/// Where two participants reveal the same valid bid and nobody reveals a
/// higher one, the one who registered earlier wins and owes that bid.
pub proof fn lemma_earlier_registration_wins_tie(
    books: Books,
    quotes: Map<AccountId, Quote>,
    earlier: int,
    later: int,
    result: Option<AuctionResult>,
)
    requires
        0 <= earlier < later < books.participants.len(),
        books.accepts(quotes, books.participants[earlier]),
        books.accepts(quotes, books.participants[later]),
        quotes[books.participants[earlier]].value == quotes[books.participants[later]].value,
        forall|j: int|
            0 <= j < books.participants.len() && books.accepts(
                quotes,
                #[trigger] books.participants[j],
            ) ==> {
                &&& quotes[books.participants[j]].value <= quotes[books.participants[earlier]].value
                &&& j < earlier ==> quotes[books.participants[j]].value
                    < quotes[books.participants[earlier]].value
            },
        books.is_result(quotes, result),
    ensures
        result == Some(
            AuctionResult {
                winner: books.participants[earlier],
                debt: quotes[books.participants[earlier]].value,
            },
        ),
{
    let bids = books.standings(quotes);
    let top = quotes[books.participants[earlier]].value;
    assert(bids[earlier] == Some(top));
    assert(bids[later] == Some(top));
    let w = choose|w: int|
        is_top(bids, w) && is_runner_up(bids, w, result->0.debt) && books.participants[w]
            == result->0.winner;
    assert(bids[w] is Some);
    assert(books.accepts(quotes, books.participants[w]));
    assert(w == earlier) by {
        if w < earlier {
            assert(bids[w]->0 < top);
            assert(bids[earlier]->0 <= bids[w]->0);
        } else if w > earlier {
            assert(bids[earlier]->0 < bids[w]->0);
        }
    }
    assert(result->0.debt == top) by {
        assert(bids[later]->0 <= result->0.debt);
        if result->0.debt > top {
            let j = choose|j: int|
                0 <= j < bids.len() && j != w && bids[j] == Some(result->0.debt);
            assert(books.accepts(quotes, books.participants[j]));
        }
    }
}

/// The quotes for one who is no participant, or has no live proposal, or
/// whose value fails the commitment, count for nothing: without them the
/// valid bids are the same, place for place, and so is every result.
pub proof fn lemma_invalid_quote_counts_for_nothing(
    books: Books,
    quotes: Map<AccountId, Quote>,
    who: AccountId,
    result: Option<AuctionResult>,
)
    requires
        !books.accepts(quotes, who),
    ensures
        books.standings(quotes.remove(who)) == books.standings(quotes),
        books.is_result(quotes.remove(who), result) == books.is_result(quotes, result),
{
    let without = quotes.remove(who);
    assert forall|i: int| 0 <= i < books.participants.len() implies books.standings(without)[i]
        == books.standings(quotes)[i] by {
        let p = books.participants[i];
        if p != who {
            assert(books.accepts(without, p) == books.accepts(quotes, p));
        }
    }
    assert(books.standings(without) =~= books.standings(quotes));
}

/// A participant whose revealed value fails the commitment ends among the
/// failed proposals with the proposal as it was, has no live proposal left,
/// gains no revealed bid, and holds no place among the valid bids.
pub proof fn lemma_bad_reveal_is_set_aside(
    books: Books,
    quotes: Map<AccountId, Quote>,
    who: AccountId,
    at: int,
    result: Option<AuctionResult>,
)
    requires
        books.consistent(),
        books.rejects(quotes, who),
        0 <= at < books.participants.len(),
        books.participants[at] == who,
    ensures
        ({
            let after = books.resolve(quotes, result);
            &&& after.failed_proposals.contains_key(who)
            &&& after.failed_proposals[who] == books.proposals[who]
            &&& !after.proposals.contains_key(who)
            &&& after.revealed_bids.contains_key(who) == books.revealed_bids.contains_key(who)
            &&& books.standings(quotes)[at] is None
        }),
{
}

/// A participant whose revealed value reproduces the commitment is recorded
/// with that value, keeps the live proposal, and is not among those set
/// aside by this resolution.
pub proof fn lemma_good_reveal_is_recorded(
    books: Books,
    quotes: Map<AccountId, Quote>,
    who: AccountId,
    at: int,
    result: Option<AuctionResult>,
)
    requires
        books.consistent(),
        books.accepts(quotes, who),
        0 <= at < books.participants.len(),
        books.participants[at] == who,
    ensures
        ({
            let after = books.resolve(quotes, result);
            &&& after.revealed_bids.contains_key(who)
            &&& after.revealed_bids[who] == quotes[who].value
            &&& after.proposals.contains_key(who)
            &&& after.proposals[who] == books.proposals[who]
            &&& after.failed_proposals.contains_key(who) == books.failed_proposals.contains_key(
                who,
            )
            &&& books.standings(quotes)[at] == Some(quotes[who].value)
        }),
{
}

/// Resolving without any quote leaves the result, the live proposals, the
/// failed proposals and the revealed bids as they were.
pub proof fn lemma_no_reveal_changes_nothing(books: Books, result: Option<AuctionResult>)
    requires
        books.is_result(Map::empty(), result),
    ensures
        result == books.winner,
        books.resolve(Map::empty(), result) == books,
{
    let quotes = Map::<AccountId, Quote>::empty();
    assert(no_bids(books.standings(quotes)));
    let after = books.resolve(quotes, result);
    assert(after.proposals =~= books.proposals);
    assert(after.failed_proposals =~= books.failed_proposals);
    assert(after.revealed_bids =~= books.revealed_bids);
}

/// One participant does not stand at two places, so the result of a
/// resolution is one: the books admit one result for given quotes.
pub proof fn lemma_result_unique(
    books: Books,
    quotes: Map<AccountId, Quote>,
    a: Option<AuctionResult>,
    b: Option<AuctionResult>,
)
    requires
        books.is_result(quotes, a),
        books.is_result(quotes, b),
    ensures
        a == b,
{
    let bids = books.standings(quotes);
    if !no_bids(bids) {
        let wa = choose|w: int|
            is_top(bids, w) && is_runner_up(bids, w, a->0.debt) && books.participants[w]
                == a->0.winner;
        let wb = choose|w: int|
            is_top(bids, w) && is_runner_up(bids, w, b->0.debt) && books.participants[w]
                == b->0.winner;
        assert(wa == wb) by {
            if wa < wb {
                assert(bids[wa]->0 < bids[wb]->0);
            } else if wb < wa {
                assert(bids[wb]->0 < bids[wa]->0);
            }
        }
        assert(a->0.debt == b->0.debt);
    }
}

/// The winner who comes with anything but the debt is refused with
/// `InvalidCurrencyAmountTransferred`: no transfer is called for, and
/// nothing changes whatever is reported of a transfer.
pub proof fn lemma_winner_pays_the_debt(
    auction: AuctionState,
    caller: AccountId,
    transferred: u128,
    delivered: bool,
)
    requires
        auction.is_winner(caller),
        transferred != auction.books.winner->0.debt,
    ensures
        auction.claim(caller, transferred, true) == Err::<Settlement, Error>(
            Error::InvalidCurrencyAmountTransferred,
        ),
        auction.confirm_claim(caller, transferred, true, delivered) == auction,
{
}

/// One who did not win and for whom a deposit is held is owed that deposit,
/// exactly; once it has been delivered, a further claim is refused with
/// `AlreadyClaimed`, and the books stand as they were.
pub proof fn lemma_deposit_refunded_once(
    auction: AuctionState,
    caller: AccountId,
    transferred: u128,
    again: u128,
)
    requires
        auction.consistent(),
        !auction.is_winner(caller),
        auction.books.escrow_of(caller) is Some,
        !auction.refunded.contains(caller),
    ensures
        auction.claim(caller, transferred, true) == Ok::<Settlement, Error>(
            Settlement::Refund { to: caller, amount: auction.books.escrow_of(caller)->0 },
        ),
        ({
            let after = auction.confirm_claim(caller, transferred, true, true);
            &&& after.claim(caller, again, true) == Err::<Settlement, Error>(Error::AlreadyClaimed)
            &&& after.books == auction.books
            &&& after.phase == auction.phase
        }),
{
    let after = auction.confirm_claim(caller, transferred, true, true);
    assert(after.refunded[auction.refunded.len() as int] == caller);
}

/// Every participant who did not win is owed the deposit of their last
/// proposal, whatever became of their reveal: a resolution changes what is
/// held for nobody.
pub proof fn lemma_resolution_forfeits_nothing(
    auction: AuctionState,
    quotes: Map<AccountId, Quote>,
    result: Option<AuctionResult>,
    who: AccountId,
    transferred: u128,
)
    requires
        auction.consistent(),
        auction.complete_verdict(true) is Ok,
        auction.books.is_result(quotes, result),
        auction.books.proposals.contains_key(who),
        !auction.refunded.contains(who),
    ensures
        ({
            let after = auction.complete(quotes, result, true);
            &&& after.books.escrow_of(who) == Some(auction.books.proposals[who].deposit)
            &&& !after.is_winner(who) ==> after.claim(who, transferred, true) == Ok::<
                Settlement,
                Error,
            >(Settlement::Refund { to: who, amount: auction.books.proposals[who].deposit })
        }),
{
    let after = auction.complete(quotes, result, true);
    if auction.books.rejects(quotes, who) {
        assert(!after.books.proposals.contains_key(who));
        assert(after.books.failed_proposals.contains_key(who));
        assert(after.books.failed_proposals[who] == auction.books.proposals[who]);
    } else {
        assert(after.books.proposals.contains_key(who));
        assert(after.books.proposals[who] == auction.books.proposals[who]);
    }
}

/// A transfer that failed leaves the auction as it was, so that the claim can
/// be made again and is decided as before.
pub proof fn lemma_failed_transfer_changes_nothing(
    auction: AuctionState,
    caller: AccountId,
    transferred: u128,
    deadline_reached: bool,
)
    ensures
        auction.confirm_claim(caller, transferred, deadline_reached, false) == auction,
        auction.claim(caller, transferred, deadline_reached) is Ok ==> auction.claim_outcome(
            caller,
            transferred,
            deadline_reached,
            false,
        ) == Err::<Settlement, Error>(Error::AssetTransferFailed),
{
}

/// The winner collects the asset once: after delivery the auction is closed
/// and a further claim of the winner with the debt is refused with
/// `AlreadyClaimed`.
pub proof fn lemma_asset_collected_once(auction: AuctionState, caller: AccountId)
    requires
        auction.is_winner(caller),
        auction.phase != Phase::Claimed,
    ensures
        ({
            let debt = auction.books.winner->0.debt;
            let after = auction.confirm_claim(caller, debt, true, true);
            &&& auction.claim(caller, debt, true) == Ok::<Settlement, Error>(
                Settlement::Asset { asset_id: auction.asset_id, to: caller },
            )
            &&& after.phase == Phase::Claimed
            &&& after.books == auction.books
            &&& after.claim(caller, debt, true) == Err::<Settlement, Error>(Error::AlreadyClaimed)
        }),
{
}

} // verus!
