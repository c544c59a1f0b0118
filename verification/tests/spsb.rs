use sha3::Digest;
use timelock_auction::account::AccountId;
use timelock_auction::commitment::commit;
use timelock_auction::error::Error;
use timelock_auction::events::ProposalSuccess;
use timelock_auction::ledger::OpenedBid;
use timelock_auction::proposal::Proposal;
use timelock_auction::spsb::SPSBAuction;

fn alice() -> AccountId {
    AccountId::new([1u8; 32])
}

fn bob() -> AccountId {
    AccountId::new([2u8; 32])
}

fn sealed_bid() -> (Vec<u8>, Vec<u8>, Vec<u8>) {
    (vec![0xc1u8; 16], vec![0x0au8; 12], vec![0xcau8; 48])
}

#[test]
fn bid_success() {
    let mut auction = SPSBAuction::new(alice(), 1u32);
    let res = sealed_bid();
    let _ = auction.bid(alice(), res.0.clone(), res.1.clone(), res.2.clone(), vec![1u8]);
    let participants = auction.get_participants();
    assert_eq!(participants.clone().len(), 1);
    let expected_proposal = Proposal {
        deposit: 0,
        ciphertext: res.0,
        nonce: res.1,
        capsule: res.2,
        commitment: vec![1u8],
    };
    assert_eq!(auction.get_proposals(participants[0]), Some(expected_proposal));
}

#[test]
fn lib_complete_auction_after_deadline() {
    let mut auction = SPSBAuction::new(alice(), 1u32);
    let bid = 10u128;
    let sealed = sealed_bid();
    let mut hasher = sha3::Sha3_256::new();
    hasher.update(bid.to_string());
    let hash = hasher.finalize().to_vec();
    let _ = auction.bid(alice(), sealed.0, sealed.1, sealed.2, hash);
    let mut revealed_bids: Vec<(AccountId, u128)> = Vec::new();
    revealed_bids.push((alice(), bid));
    let _ = auction.complete(alice(), revealed_bids);
    assert_eq!(auction.get_failed_proposals(alice()), None);
    assert_eq!(auction.get_revealed_bid(alice()), Some(10u128));
    assert_eq!(auction.get_winner(), Some((alice(), 0)));
}

#[test]
fn lib_complete_error_after_deadline_invalid_bid_adds_to_failed_bids() {
    let mut auction = SPSBAuction::new(alice(), 1u32);
    let bid = 10u128;
    let sealed = sealed_bid();
    let mut hasher = sha3::Sha3_256::new();
    hasher.update(bid.to_le_bytes());
    let hash = hasher.finalize().to_vec();
    let _ = auction.bid(alice(), sealed.0, sealed.1, sealed.2, hash);
    let stored = auction.get_proposals(alice());
    assert!(stored.is_some());
    let mut revealed_bids: Vec<(AccountId, u128)> = Vec::new();
    revealed_bids.push((alice(), 9u128));
    let _ = auction.complete(alice(), revealed_bids);
    // the proposal has moved: it is among the failed ones and no longer live
    assert_eq!(auction.get_failed_proposals(alice()), stored);
    assert_eq!(auction.get_proposals(alice()), None);
    assert_eq!(auction.get_winner(), None);
}

#[test]
fn spsb_new_is_empty() {
    let auction = SPSBAuction::new(alice(), 5);
    assert_eq!(auction.get_proxy(), alice());
    assert_eq!(auction.get_asset_id(), 5);
    assert_eq!(auction.get_winner(), None);
    assert!(auction.get_participants().is_empty());
    assert_eq!(auction.get_revealed_bid(alice()), None);
}

#[test]
fn spsb_only_the_proxy_may_call() {
    let mut auction = SPSBAuction::new(alice(), 1);
    assert_eq!(auction.check_caller(alice()), Ok(()));
    assert_eq!(auction.check_caller(bob()), Err(Error::UnathorizedOrigin));
    let sealed = sealed_bid();
    let res = auction.bid(bob(), sealed.0, sealed.1, sealed.2, commit(3));
    assert_eq!(res, Err(Error::UnathorizedOrigin));
    assert!(auction.get_participants().is_empty());
    let sealed = sealed_bid();
    let res = auction.bid(alice(), sealed.0, sealed.1, sealed.2, commit(3));
    assert_eq!(res, Ok(ProposalSuccess {}));
    assert_eq!(auction.complete(bob(), vec![(alice(), 3)]), Err(Error::UnathorizedOrigin));
    assert_eq!(auction.get_winner(), None);
    assert_eq!(auction.complete(alice(), vec![(alice(), 3)]), Ok(()));
    assert_eq!(auction.get_winner(), Some((alice(), 0)));
    assert_eq!(auction.complete(alice(), vec![(alice(), 3)]), Err(Error::AlreadyResolved));
}

#[test]
fn spsb_resolves_from_opened_bids() {
    let mut auction = SPSBAuction::new(alice(), 1);
    let sealed = sealed_bid();
    let _ = auction.bid(alice(), sealed.0, sealed.1, sealed.2, vec![7u8, 7u8]);
    let opened = vec![OpenedBid { bidder: alice(), bid: 12, digest: vec![7u8, 7u8] }];
    assert_eq!(auction.resolve_opened(alice(), &opened), Ok(()));
    assert_eq!(auction.get_revealed_bid(alice()), Some(12));
    assert_eq!(auction.get_winner(), Some((alice(), 0)));
}
