use sha3::Digest;
use timelock_auction::account::AccountId;
use timelock_auction::auction::{open_bids, TlockAuction};
use timelock_auction::commitment::commit;
use timelock_auction::error::Error;
use timelock_auction::events::{AuctionItemVerified, BidComplete, ProposalSuccess};
use timelock_auction::ledger::OpenedBid;
use timelock_auction::model::{Phase, Settlement};
use timelock_auction::proposal::Proposal;

fn alice() -> AccountId {
    AccountId::new([1u8; 32])
}

fn bob() -> AccountId {
    AccountId::new([2u8; 32])
}

fn charlie() -> AccountId {
    AccountId::new([3u8; 32])
}

fn setup(owner: AccountId, deadline: u64) -> TlockAuction {
    TlockAuction::new(owner, b"test1".to_vec(), owner, 1u32, deadline, 1)
}

fn sealed_bid() -> (Vec<u8>, Vec<u8>, Vec<u8>) {
    (vec![0xc1u8; 16], vec![0x0au8; 12], vec![0xcau8; 48])
}

fn bid_for(auction: &mut TlockAuction, who: AccountId, deposit: u128, value: u128) {
    let sealed = sealed_bid();
    let res = auction.propose(who, sealed.0, sealed.1, sealed.2, commit(value), deposit, false);
    assert_eq!(res, Ok(ProposalSuccess {}));
}

#[test]
fn propose_success() {
    let deadline = 1u64;
    let mut auction = setup(alice(), deadline);
    let res = sealed_bid();
    let _ = auction.propose(
        alice(),
        res.0.clone(),
        res.1.clone(),
        res.2.clone(),
        vec![1u8],
        100u128,
        false,
    );
    let participants = auction.get_participants();
    assert_eq!(participants.clone().len(), 1);
    let expected_proposal = Proposal {
        deposit: 100u128,
        ciphertext: res.0,
        nonce: res.1,
        capsule: res.2,
        commitment: vec![1u8],
    };
    assert_eq!(auction.get_proposals(participants[0]), Some(expected_proposal));
}

#[test]
fn propose_error_without_deposit() {
    let deadline = 1u64;
    let mut auction = setup(alice(), deadline);
    let sealed = sealed_bid();
    let res = auction.propose(alice(), sealed.0, sealed.1, sealed.2, vec![1u8], 0u128, false);
    assert!(res.is_err());
    assert_eq!(res.err(), Some(Error::DepositTooLow));
    let participants = auction.get_participants();
    assert_eq!(participants.clone().len(), 0);
}

#[test]
fn propose_error_if_past_deadline() {
    let deadline = 1u64;
    let mut auction = setup(alice(), deadline);
    let bid = sealed_bid();
    let res = auction.propose(alice(), bid.0, bid.1, bid.2, vec![1u8], 100u128, true);
    assert!(res.is_err());
    assert_eq!(res.err(), Some(Error::AuctionAlreadyComplete));
}

#[test]
fn complete_auction_after_deadline() {
    let deadline = 1u64;
    let mut auction = setup(alice(), deadline);
    let bid = 10u128;
    let sealed = sealed_bid();
    let mut hasher = sha3::Sha3_256::new();
    hasher.update(bid.to_string());
    let hash = hasher.finalize().to_vec();
    let _ = auction.propose(alice(), sealed.0, sealed.1, sealed.2, hash, 100u128, false);
    let mut revealed_bids: Vec<(AccountId, u128)> = Vec::new();
    revealed_bids.push((alice(), bid));
    let _ = auction.complete(revealed_bids, true);
    assert_eq!(auction.get_failed_proposals(alice()), None);
    assert_eq!(auction.get_revealed_bid(alice()), Some(10u128));
    assert_eq!(auction.get_winner(), Some((alice(), 0)));
}

#[test]
fn complete_error_after_deadline_invalid_bid_adds_to_failed_bids() {
    let deadline = 1u64;
    let mut auction = setup(alice(), deadline);
    let bid = 10u128;
    let sealed = sealed_bid();
    let mut hasher = sha3::Sha3_256::new();
    hasher.update(bid.to_le_bytes());
    let hash = hasher.finalize().to_vec();
    let _ = auction.propose(alice(), sealed.0, sealed.1, sealed.2, hash, 100u128, false);
    let stored = auction.get_proposals(alice());
    assert!(stored.is_some());
    let mut revealed_bids: Vec<(AccountId, u128)> = Vec::new();
    revealed_bids.push((alice(), 9u128));
    let _ = auction.complete(revealed_bids, true);
    // the proposal has moved: it is among the failed ones and no longer live
    assert_eq!(auction.get_failed_proposals(alice()), stored);
    assert_eq!(auction.get_proposals(alice()), None);
    assert_eq!(auction.get_revealed_bid(alice()), None);
    assert_eq!(auction.get_winner(), None);
}

#[test]
fn new_auction_is_open_and_empty() {
    let auction = TlockAuction::new(alice(), b"item".to_vec(), bob(), 7, 42, 5);
    assert_eq!(auction.get_owner(), alice());
    assert_eq!(auction.get_registry(), bob());
    assert_eq!(auction.get_name(), b"item".to_vec());
    assert_eq!(auction.get_asset_id(), 7);
    assert_eq!(auction.get_deadline(), 42);
    assert_eq!(auction.get_deposit(), 5);
    assert_eq!(auction.get_phase(), Phase::Bidding);
    assert_eq!(auction.get_winner(), None);
    assert!(auction.get_participants().is_empty());
    assert_eq!(auction.get_proposals(alice()), None);
    assert_eq!(auction.get_failed_proposals(alice()), None);
    assert_eq!(auction.get_revealed_bid(alice()), None);
    assert!(!auction.is_refunded(alice()));
}

#[test]
fn second_proposal_replaces_first() {
    let mut auction = setup(alice(), 1);
    bid_for(&mut auction, bob(), 10, 3);
    bid_for(&mut auction, charlie(), 10, 4);
    bid_for(&mut auction, bob(), 20, 8);
    assert_eq!(auction.get_participants(), vec![bob(), charlie()]);
    let stored = auction.get_proposals(bob()).unwrap();
    assert_eq!(stored.deposit, 20);
    assert_eq!(stored.commitment, commit(8));
}

#[test]
fn deposit_below_minimum_changes_nothing() {
    let mut auction = TlockAuction::new(alice(), b"item".to_vec(), alice(), 1, 1, 50);
    let sealed = sealed_bid();
    let res = auction.propose(bob(), sealed.0, sealed.1, sealed.2, commit(3), 49, false);
    assert_eq!(res, Err(Error::DepositTooLow));
    assert!(auction.get_participants().is_empty());
    assert_eq!(auction.get_proposals(bob()), None);
    // the deposit is looked at before the deadline
    let sealed = sealed_bid();
    let res = auction.propose(bob(), sealed.0, sealed.1, sealed.2, commit(3), 49, true);
    assert_eq!(res, Err(Error::DepositTooLow));
    // exactly the minimum is enough
    let sealed = sealed_bid();
    let res = auction.propose(bob(), sealed.0, sealed.1, sealed.2, commit(3), 50, false);
    assert_eq!(res, Ok(ProposalSuccess {}));
}

#[test]
fn late_proposal_changes_nothing() {
    let mut auction = setup(alice(), 1);
    bid_for(&mut auction, bob(), 10, 3);
    let sealed = sealed_bid();
    let res = auction.propose(charlie(), sealed.0, sealed.1, sealed.2, commit(4), 10, true);
    assert_eq!(res, Err(Error::AuctionAlreadyComplete));
    assert_eq!(auction.get_participants(), vec![bob()]);
    assert_eq!(auction.get_proposals(charlie()), None);
}

#[test]
fn proposal_after_resolution_is_refused() {
    let mut auction = setup(alice(), 1);
    bid_for(&mut auction, bob(), 10, 3);
    assert_eq!(auction.complete(vec![(bob(), 3)], true), Ok(()));
    let sealed = sealed_bid();
    let res = auction.propose(charlie(), sealed.0, sealed.1, sealed.2, commit(4), 10, false);
    assert_eq!(res, Err(Error::AuctionAlreadyComplete));
}

#[test]
fn complete_and_claim_before_deadline_are_refused() {
    let mut auction = setup(alice(), 1);
    bid_for(&mut auction, bob(), 10, 3);
    assert_eq!(auction.complete(vec![(bob(), 3)], false), Err(Error::AuctionInProgress));
    assert_eq!(auction.get_phase(), Phase::Bidding);
    assert_eq!(auction.get_revealed_bid(bob()), None);
    assert_eq!(auction.claim(bob(), 0, false), Err(Error::AuctionInProgress));
    assert_eq!(auction.confirm_claim(bob(), 0, false, true), Err(Error::AuctionInProgress));
    assert!(!auction.is_refunded(bob()));
}

#[test]
fn highest_bidder_wins_and_owes_second_highest() {
    let mut auction = setup(alice(), 1);
    bid_for(&mut auction, alice(), 10, 1);
    bid_for(&mut auction, bob(), 10, 3);
    bid_for(&mut auction, charlie(), 10, 2);
    let res = auction.complete(vec![(alice(), 1), (bob(), 3), (charlie(), 2)], true);
    assert_eq!(res, Ok(()));
    assert_eq!(auction.get_winner(), Some((bob(), 2)));
    assert_eq!(auction.get_revealed_bid(alice()), Some(1));
    assert_eq!(auction.get_revealed_bid(bob()), Some(3));
    assert_eq!(auction.get_revealed_bid(charlie()), Some(2));
    assert_eq!(auction.get_failed_proposals(alice()), None);
    assert_eq!(auction.get_failed_proposals(bob()), None);
    assert_eq!(auction.get_failed_proposals(charlie()), None);
    assert_eq!(auction.get_phase(), Phase::Resolved);
}

#[test]
fn registration_order_decides_not_reveal_order() {
    let mut auction = setup(alice(), 1);
    bid_for(&mut auction, alice(), 10, 5);
    bid_for(&mut auction, bob(), 10, 5);
    let res = auction.complete(vec![(bob(), 5), (alice(), 5)], true);
    assert_eq!(res, Ok(()));
    assert_eq!(auction.get_winner(), Some((alice(), 5)));
}

#[test]
fn tie_goes_to_earlier_registration() {
    let mut auction = setup(alice(), 1);
    bid_for(&mut auction, alice(), 10, 5);
    bid_for(&mut auction, bob(), 10, 5);
    assert_eq!(auction.complete(vec![(alice(), 5), (bob(), 5)], true), Ok(()));
    assert_eq!(auction.get_winner(), Some((alice(), 5)));
}

#[test]
fn bad_reveal_is_set_aside() {
    let mut auction = setup(alice(), 1);
    bid_for(&mut auction, alice(), 10, 1);
    bid_for(&mut auction, bob(), 10, 3);
    bid_for(&mut auction, charlie(), 10, 2);
    let stored = auction.get_proposals(charlie());
    let res = auction.complete(vec![(alice(), 1), (bob(), 3), (charlie(), 1000)], true);
    assert_eq!(res, Ok(()));
    assert_eq!(auction.get_failed_proposals(charlie()), stored);
    assert_eq!(auction.get_proposals(charlie()), None);
    assert_eq!(auction.get_revealed_bid(charlie()), None);
    assert_eq!(auction.get_winner(), Some((bob(), 1)));
    assert!(auction.get_proposals(alice()).is_some());
    assert!(auction.get_proposals(bob()).is_some());
}

#[test]
fn sole_valid_bidder_owes_nothing() {
    let mut auction = setup(alice(), 1);
    bid_for(&mut auction, alice(), 10, 1);
    bid_for(&mut auction, bob(), 10, 3);
    assert_eq!(auction.complete(vec![(bob(), 3)], true), Ok(()));
    assert_eq!(auction.get_winner(), Some((bob(), 0)));
    assert_eq!(auction.get_revealed_bid(alice()), None);
    assert!(auction.get_proposals(alice()).is_some());
}

#[test]
fn sole_valid_bid_of_zero_wins() {
    let mut auction = setup(alice(), 1);
    bid_for(&mut auction, bob(), 10, 0);
    assert_eq!(auction.complete(vec![(bob(), 0)], true), Ok(()));
    assert_eq!(auction.get_winner(), Some((bob(), 0)));
}

#[test]
fn no_reveal_leaves_no_winner() {
    let mut auction = setup(alice(), 1);
    bid_for(&mut auction, alice(), 10, 1);
    bid_for(&mut auction, bob(), 10, 3);
    assert_eq!(auction.complete(Vec::new(), true), Ok(()));
    assert_eq!(auction.get_winner(), None);
    assert!(auction.get_proposals(alice()).is_some());
    assert!(auction.get_proposals(bob()).is_some());
    assert_eq!(auction.get_failed_proposals(alice()), None);
    assert_eq!(auction.get_failed_proposals(bob()), None);
    assert_eq!(auction.get_phase(), Phase::Resolved);
}

#[test]
fn last_reveal_of_a_bidder_counts() {
    let mut auction = setup(alice(), 1);
    bid_for(&mut auction, alice(), 10, 4);
    assert_eq!(auction.complete(vec![(alice(), 4), (alice(), 7)], true), Ok(()));
    assert_eq!(auction.get_winner(), None);
    assert!(auction.get_failed_proposals(alice()).is_some());

    let mut auction = setup(alice(), 1);
    bid_for(&mut auction, alice(), 10, 4);
    assert_eq!(auction.complete(vec![(alice(), 7), (alice(), 4)], true), Ok(()));
    assert_eq!(auction.get_winner(), Some((alice(), 0)));
    assert_eq!(auction.get_failed_proposals(alice()), None);
}

#[test]
fn reveal_for_a_stranger_is_ignored() {
    let mut auction = setup(alice(), 1);
    bid_for(&mut auction, alice(), 10, 4);
    assert_eq!(auction.complete(vec![(bob(), 9), (alice(), 4)], true), Ok(()));
    assert_eq!(auction.get_winner(), Some((alice(), 0)));
    assert_eq!(auction.get_revealed_bid(bob()), None);
    assert_eq!(auction.get_failed_proposals(bob()), None);
    assert_eq!(auction.get_participants(), vec![alice()]);
}

#[test]
fn second_resolution_is_refused() {
    let mut auction = setup(alice(), 1);
    bid_for(&mut auction, alice(), 10, 1);
    bid_for(&mut auction, bob(), 10, 3);
    assert_eq!(auction.complete(vec![(alice(), 1)], true), Ok(()));
    assert_eq!(auction.get_winner(), Some((alice(), 0)));
    assert_eq!(auction.complete(vec![(alice(), 1), (bob(), 3)], true), Err(Error::AlreadyResolved));
    assert_eq!(auction.get_winner(), Some((alice(), 0)));
    assert_eq!(auction.get_revealed_bid(bob()), None);
}

#[test]
fn winner_must_pay_exactly_the_debt() {
    let mut auction = setup(alice(), 1);
    bid_for(&mut auction, alice(), 10, 1);
    bid_for(&mut auction, bob(), 10, 3);
    assert_eq!(auction.complete(vec![(alice(), 1), (bob(), 3)], true), Ok(()));
    assert_eq!(auction.get_winner(), Some((bob(), 1)));
    assert_eq!(auction.claim(bob(), 0, true), Err(Error::InvalidCurrencyAmountTransferred));
    assert_eq!(auction.claim(bob(), 2, true), Err(Error::InvalidCurrencyAmountTransferred));
    assert_eq!(
        auction.confirm_claim(bob(), 2, true, true),
        Err(Error::InvalidCurrencyAmountTransferred)
    );
    assert_eq!(auction.get_phase(), Phase::Resolved);
    assert_eq!(auction.claim(bob(), 1, true), Ok(Settlement::Asset { asset_id: 1, to: bob() }));
}

#[test]
fn winner_collects_the_asset_once() {
    let mut auction = setup(alice(), 1);
    bid_for(&mut auction, alice(), 10, 1);
    bid_for(&mut auction, bob(), 10, 3);
    assert_eq!(auction.complete(vec![(alice(), 1), (bob(), 3)], true), Ok(()));
    // a failed transfer leaves the claim open
    assert_eq!(auction.confirm_claim(bob(), 1, true, false), Err(Error::AssetTransferFailed));
    assert_eq!(auction.get_phase(), Phase::Resolved);
    assert_eq!(auction.confirm_claim(bob(), 1, true, true), Ok(BidComplete { winner: true }));
    assert_eq!(auction.get_phase(), Phase::Claimed);
    assert_eq!(auction.claim(bob(), 1, true), Err(Error::AlreadyClaimed));
    // the winner's deposit is not handed back
    assert!(!auction.is_refunded(bob()));
}

#[test]
fn loser_is_refunded_the_deposit_once() {
    let mut auction = setup(alice(), 1);
    bid_for(&mut auction, alice(), 17, 1);
    bid_for(&mut auction, bob(), 10, 3);
    assert_eq!(auction.complete(vec![(alice(), 1), (bob(), 3)], true), Ok(()));
    assert_eq!(auction.claim(alice(), 0, true), Ok(Settlement::Refund { to: alice(), amount: 17 }));
    assert_eq!(auction.confirm_claim(alice(), 0, true, false), Err(Error::AssetTransferFailed));
    assert!(!auction.is_refunded(alice()));
    assert_eq!(auction.confirm_claim(alice(), 0, true, true), Ok(BidComplete { winner: false }));
    assert!(auction.is_refunded(alice()));
    assert_eq!(auction.claim(alice(), 0, true), Err(Error::AlreadyClaimed));
    assert_eq!(auction.confirm_claim(alice(), 0, true, true), Err(Error::AlreadyClaimed));
    // losers claiming does not close the auction for the winner
    assert_eq!(auction.get_phase(), Phase::Resolved);
    assert_eq!(auction.claim(bob(), 1, true), Ok(Settlement::Asset { asset_id: 1, to: bob() }));
}

#[test]
fn claim_without_deposit_is_refused() {
    let mut auction = setup(alice(), 1);
    bid_for(&mut auction, alice(), 10, 1);
    bid_for(&mut auction, bob(), 10, 3);
    assert_eq!(auction.complete(vec![(alice(), 2), (bob(), 3)], true), Ok(()));
    // a stranger never escrowed anything
    assert_eq!(auction.claim(charlie(), 0, true), Err(Error::NoDeposit));
    assert_eq!(auction.confirm_claim(charlie(), 0, true, true), Err(Error::NoDeposit));
    assert!(!auction.is_refunded(charlie()));
}

#[test]
fn failed_reveal_keeps_the_deposit_claimable() {
    let mut auction = setup(alice(), 1);
    bid_for(&mut auction, alice(), 10, 1);
    bid_for(&mut auction, bob(), 12, 3);
    bid_for(&mut auction, charlie(), 14, 2);
    // the reveals handed in for alice and charlie are wrong
    assert_eq!(auction.complete(vec![(alice(), 2), (bob(), 3), (charlie(), 9)], true), Ok(()));
    assert_eq!(auction.get_winner(), Some((bob(), 0)));
    assert_eq!(auction.get_proposals(alice()), None);
    assert!(auction.get_failed_proposals(alice()).is_some());
    assert_eq!(auction.claim(alice(), 0, true), Ok(Settlement::Refund { to: alice(), amount: 10 }));
    assert_eq!(
        auction.claim(charlie(), 0, true),
        Ok(Settlement::Refund { to: charlie(), amount: 14 })
    );
    assert_eq!(auction.confirm_claim(alice(), 0, true, true), Ok(BidComplete { winner: false }));
    assert!(auction.is_refunded(alice()));
    assert_eq!(auction.claim(alice(), 0, true), Err(Error::AlreadyClaimed));
    // the failed proposal stays on record
    assert!(auction.get_failed_proposals(alice()).is_some());
    assert_eq!(
        auction.claim(charlie(), 0, true),
        Ok(Settlement::Refund { to: charlie(), amount: 14 })
    );
}

#[test]
fn only_the_owner_is_the_owner() {
    let auction = setup(alice(), 1);
    assert_eq!(auction.check_owner(alice()), Ok(()));
    assert_eq!(auction.check_owner(bob()), Err(Error::NotAuctionOwner));
}

#[test]
fn version_is_told() {
    let auction = setup(alice(), 1);
    assert_eq!(auction.get_version(), b"0.0.1-dev".to_vec());
}

#[test]
fn revealed_bids_are_opened_with_their_commitments() {
    let opened = open_bids(&vec![(alice(), 10), (bob(), 0)]);
    assert_eq!(opened.len(), 2);
    assert_eq!(opened[0].bidder, alice());
    assert_eq!(opened[0].bid, 10);
    assert_eq!(opened[0].digest, commit(10));
    assert_eq!(opened[1].bidder, bob());
    assert_eq!(opened[1].bid, 0);
    assert_eq!(opened[1].digest, commit(0));
    assert!(open_bids(&vec![]).is_empty());
}

#[test]
fn auction_resolves_from_opened_bids() {
    let mut auction = setup(alice(), 1);
    let sealed = sealed_bid();
    let _ = auction.propose(alice(), sealed.0, sealed.1, sealed.2, vec![1u8], 10, false);
    let sealed = sealed_bid();
    let _ = auction.propose(bob(), sealed.0, sealed.1, sealed.2, vec![2u8], 10, false);
    let opened = vec![
        OpenedBid { bidder: alice(), bid: 8, digest: vec![1u8] },
        OpenedBid { bidder: bob(), bid: 9, digest: vec![2u8, 0u8] },
    ];
    assert_eq!(auction.resolve_opened(&opened, false), Err(Error::AuctionInProgress));
    assert_eq!(auction.resolve_opened(&opened, true), Ok(()));
    assert_eq!(auction.get_winner(), Some((alice(), 0)));
    assert!(auction.get_failed_proposals(bob()).is_some());
    assert_eq!(auction.resolve_opened(&opened, true), Err(Error::AlreadyResolved));
}

#[test]
fn refund_before_resolution_is_the_stored_deposit() {
    let mut auction = setup(alice(), 1);
    bid_for(&mut auction, bob(), 33, 3);
    assert_eq!(auction.claim(bob(), 0, true), Ok(Settlement::Refund { to: bob(), amount: 33 }));
}

#[test]
fn start_auction_success_when_owner() {
    let mut auction = setup(alice(), 1);
    assert_eq!(auction.is_verified(), false);
    let res = auction.start(alice(), true);
    assert!(res.is_ok());
    assert_eq!(res, Ok(AuctionItemVerified {}));
    assert_eq!(auction.is_verified(), true);
}

#[test]
fn start_auction_error_when_not_owner() {
    let mut auction = setup(alice(), 1);
    assert_eq!(auction.is_verified(), false);
    let res = auction.start(bob(), true);
    assert!(res.is_err());
    assert_eq!(res, Err(Error::NotAuctionOwner));
    assert_eq!(auction.is_verified(), false);
}

#[test]
fn start_auction_error_when_transfer_failed() {
    let mut auction = setup(alice(), 1);
    assert_eq!(auction.start(alice(), false), Err(Error::AssetTransferFailed));
    assert_eq!(auction.is_verified(), false);
    assert_eq!(auction.start(bob(), false), Err(Error::NotAuctionOwner));
}

#[test]
fn custody_does_not_decide_a_claim() {
    let mut auction = setup(alice(), 1);
    bid_for(&mut auction, bob(), 10, 3);
    assert_eq!(auction.complete(vec![(bob(), 3)], true), Ok(()));
    assert_eq!(auction.is_verified(), false);
    assert_eq!(auction.claim(bob(), 0, true), Ok(Settlement::Asset { asset_id: 1, to: bob() }));
}
