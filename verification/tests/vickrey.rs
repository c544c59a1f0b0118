use timelock_auction::account::AccountId;
use timelock_auction::error::Error;
use timelock_auction::events::BidSuccess;
use timelock_auction::proposal::{AuctionResult, RevealedBid};
use timelock_auction::vickrey::VickreyAuction;

fn alice() -> AccountId {
    AccountId::new([1u8; 32])
}

fn bob() -> AccountId {
    AccountId::new([2u8; 32])
}

fn charlie() -> AccountId {
    AccountId::new([3u8; 32])
}

#[test]
fn lib_bid_success() {
    let mut auction = VickreyAuction::new(alice(), 1u32);
    let res = auction.bid(alice(), alice());
    assert!(!res.is_err());

    let participants = auction.get_participants();
    assert_eq!(participants.clone().len(), 1);
}

#[test]
fn bid_fails_when_not_proxy() {
    let mut auction = VickreyAuction::new(alice(), 1u32);
    let res = auction.bid(bob(), alice());
    assert!(res.is_err());
    assert_eq!(res, Err(Error::NotProxy));
}

#[test]
fn complete_auction_success_single_participant() {
    let mut auction = VickreyAuction::new(alice(), 1u32);

    let res = auction.bid(alice(), alice());
    assert!(!res.is_err());
    let revealed_bid = RevealedBid { bidder: alice(), bid: 4 };
    let _res = auction.save_revealed_bid(alice(), revealed_bid.clone());
    assert_eq!(auction.get_revealed_bids()[0], revealed_bid);
    let res = auction.complete();
    assert!(!res.is_err());
    assert_eq!(auction.get_winner(), Some(AuctionResult { winner: alice(), debt: 0 }))
}

#[test]
fn complete_auction_success_many_participants_all_valid() {
    let mut auction = VickreyAuction::new(alice(), 1u32);
    let _ = auction.bid(alice(), alice());
    let _ = auction.bid(alice(), bob());
    let _ = auction.bid(alice(), charlie());
    let revealed_bids = vec![
        RevealedBid { bidder: alice(), bid: 1 },
        RevealedBid { bidder: bob(), bid: 3 },
        RevealedBid { bidder: charlie(), bid: 2 },
    ];
    revealed_bids.iter().for_each(|bid| {
        let res = auction.save_revealed_bid(alice(), bid.clone());
        assert!(res.is_ok());
    });
    let res = auction.complete();
    assert!(res.is_ok());
    assert_eq!(auction.get_revealed_bids()[0], revealed_bids[0].clone());
    assert_eq!(auction.get_revealed_bids()[1], revealed_bids[1].clone());
    assert_eq!(auction.get_revealed_bids()[2], revealed_bids[2]);
    // bob placed the highest bid and pays the highest bid among the others
    assert_eq!(auction.get_winner(), Some(AuctionResult { winner: bob(), debt: 2 }))
}

#[test]
fn vickrey_new_is_empty() {
    let auction = VickreyAuction::new(alice(), 9);
    assert_eq!(auction.get_proxy(), alice());
    assert_eq!(auction.get_asset_id(), 9);
    assert_eq!(auction.get_winner(), None);
    assert!(auction.get_participants().is_empty());
    assert!(auction.get_revealed_bids().is_empty());
}

#[test]
fn vickrey_bidder_is_registered_once() {
    let mut auction = VickreyAuction::new(alice(), 1);
    assert_eq!(auction.bid(alice(), bob()), Ok(BidSuccess {}));
    assert_eq!(auction.bid(alice(), charlie()), Ok(BidSuccess {}));
    assert_eq!(auction.bid(alice(), bob()), Ok(BidSuccess {}));
    assert_eq!(auction.get_participants(), vec![bob(), charlie()]);
}

#[test]
fn vickrey_reveal_is_checked() {
    let mut auction = VickreyAuction::new(alice(), 1);
    let _ = auction.bid(alice(), bob());
    let bid = RevealedBid { bidder: bob(), bid: 4 };
    assert_eq!(auction.save_revealed_bid(bob(), bid), Err(Error::NotProxy));
    let stranger = RevealedBid { bidder: charlie(), bid: 4 };
    assert_eq!(auction.save_revealed_bid(alice(), stranger), Err(Error::NotParticipant));
    assert!(auction.get_revealed_bids().is_empty());
    assert_eq!(auction.save_revealed_bid(alice(), bid), Ok(()));
    assert_eq!(auction.get_revealed_bids(), vec![bid]);
}

#[test]
fn vickrey_tie_goes_to_earlier_registration() {
    let mut auction = VickreyAuction::new(alice(), 1);
    let _ = auction.bid(alice(), bob());
    let _ = auction.bid(alice(), charlie());
    // charlie reveals first, bob is registered first
    let _ = auction.save_revealed_bid(alice(), RevealedBid { bidder: charlie(), bid: 5 });
    let _ = auction.save_revealed_bid(alice(), RevealedBid { bidder: bob(), bid: 5 });
    assert_eq!(auction.complete(), Ok(()));
    assert_eq!(auction.get_winner(), Some(AuctionResult { winner: bob(), debt: 5 }));
}

#[test]
fn vickrey_last_reveal_counts() {
    let mut auction = VickreyAuction::new(alice(), 1);
    let _ = auction.bid(alice(), bob());
    let _ = auction.bid(alice(), charlie());
    let _ = auction.save_revealed_bid(alice(), RevealedBid { bidder: bob(), bid: 9 });
    let _ = auction.save_revealed_bid(alice(), RevealedBid { bidder: charlie(), bid: 5 });
    let _ = auction.save_revealed_bid(alice(), RevealedBid { bidder: bob(), bid: 2 });
    assert_eq!(auction.complete(), Ok(()));
    assert_eq!(auction.get_winner(), Some(AuctionResult { winner: charlie(), debt: 2 }));
}

#[test]
fn vickrey_no_reveal_no_winner_and_result_stands() {
    let mut auction = VickreyAuction::new(alice(), 1);
    let _ = auction.bid(alice(), bob());
    assert_eq!(auction.complete(), Ok(()));
    assert_eq!(auction.get_winner(), None);
    // without a result the auction can be completed later
    let _ = auction.save_revealed_bid(alice(), RevealedBid { bidder: bob(), bid: 0 });
    assert_eq!(auction.complete(), Ok(()));
    assert_eq!(auction.get_winner(), Some(AuctionResult { winner: bob(), debt: 0 }));
    // a result that stands is not computed again
    let _ = auction.bid(alice(), charlie());
    let _ = auction.save_revealed_bid(alice(), RevealedBid { bidder: charlie(), bid: 7 });
    assert_eq!(auction.complete(), Err(Error::AlreadyResolved));
    assert_eq!(auction.get_winner(), Some(AuctionResult { winner: bob(), debt: 0 }));
}
