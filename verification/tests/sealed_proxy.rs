use timelock_auction::account::AccountId;
use timelock_auction::commitment::commit;
use timelock_auction::error::Error;
use timelock_auction::ledger::OpenedBid;
use timelock_auction::proxy::Payout;
use timelock_auction::sealed_proxy::{AuctionDetails, TlockProxy};

fn id(n: u8) -> AccountId {
    AccountId::new([n; 32])
}

fn sealed() -> (Vec<u8>, Vec<u8>, Vec<u8>) {
    (vec![0xc1u8; 16], vec![0x0au8; 12], vec![0xcau8; 48])
}

/// A proxy owned by 1, speaking as 100, with the registry 200, and two auctions:
/// 11 (asset 7, seller 2, deadline 20, deposit 5) and 12 (asset 8, seller 3, deadline 30, deposit 1).
fn setup() -> TlockProxy {
    let mut proxy = TlockProxy::default(id(1), id(100), id(200));
    assert_eq!(proxy.new_auction(id(2), b"first".to_vec(), 7, 20, 5, id(11)), Ok(()));
    assert_eq!(proxy.new_auction(id(3), b"second".to_vec(), 8, 30, 1, id(12)), Ok(()));
    proxy
}

fn place(proxy: &mut TlockProxy, bidder: u8, auction: u8, value: u128, escrow: u128) {
    let s = sealed();
    let res = proxy.bid(id(bidder), id(auction), s.0, s.1, s.2, commit(value), escrow, false);
    assert_eq!(res, Ok(()));
}

#[test]
fn default_works() {
    let tlock_proxy = TlockProxy::default(id(2), id(100), id(200));
    let auctions: Vec<AuctionDetails> = tlock_proxy.get_auctions();
    assert_eq!(auctions.is_empty(), true);
}

#[test]
fn get_by_owner_works() {
    let bob = id(2);
    let alice = id(1);
    let mut tlock_proxy = TlockProxy::default(bob, id(100), id(200));
    assert_eq!(tlock_proxy.new_auction(bob, b"NFT XXX".to_vec(), 0u32, 20u64, 1, id(11)), Ok(()));
    let auctions = tlock_proxy.get_auctions_by_owner(bob);
    assert_eq!(auctions.len() > 0, true);
    let auctions = tlock_proxy.get_auctions_by_owner(alice);
    assert_eq!(auctions.is_empty(), true);
}

#[test]
fn sealed_proxy_lists_new_auctions() {
    let proxy = setup();
    let auctions = proxy.get_auctions();
    assert_eq!(auctions.len(), 2);
    assert_eq!(
        auctions[0],
        AuctionDetails {
            name: b"first".to_vec(),
            contract_id: id(11),
            owner: id(2),
            deposit: 5,
            deadline: 20,
            status: 0,
        }
    );
    assert_eq!(auctions[1].contract_id, id(12));
    assert_eq!(proxy.get_auction_by_contract_id(&id(12)), Ok(1));
    assert_eq!(proxy.get_auction_by_contract_id(&id(13)), Err(Error::AuctionDoesNotExist));
    assert_eq!(proxy.get_winner(id(11)), Ok(None));
    assert_eq!(proxy.get_winner(id(13)), Err(Error::AuctionDoesNotExist));
}

#[test]
fn sealed_proxy_bid_is_checked() {
    let mut proxy = setup();
    let s = sealed();
    let res = proxy.bid(id(5), id(99), s.0, s.1, s.2, commit(1), 5, false);
    assert_eq!(res, Err(Error::AuctionDoesNotExist));
    let s = sealed();
    let res = proxy.bid(id(5), id(11), s.0, s.1, s.2, commit(1), 5, true);
    assert_eq!(res, Err(Error::AuctionAlreadyComplete));
    // the deadline is looked at before the deposit
    let s = sealed();
    let res = proxy.bid(id(5), id(11), s.0, s.1, s.2, commit(1), 0, true);
    assert_eq!(res, Err(Error::AuctionAlreadyComplete));
    let s = sealed();
    let res = proxy.bid(id(5), id(11), s.0, s.1, s.2, commit(1), 4, false);
    assert_eq!(res, Err(Error::DepositTooLow));
    assert!(!proxy.has_bid(&id(5), &id(11)));
    place(&mut proxy, 5, 11, 1, 5);
    place(&mut proxy, 6, 12, 1, 9);
    assert!(proxy.has_bid(&id(5), &id(11)));
    assert!(!proxy.has_bid(&id(5), &id(12)));
    let all = proxy.get_auctions();
    assert_eq!(proxy.get_auctions_by_bidder(id(5)), vec![all[0].clone()]);
    assert_eq!(proxy.get_auctions_by_bidder(id(6)), vec![all[1].clone()]);
    assert_eq!(proxy.get_auctions_by_bidder(id(7)), vec![]);
    assert_eq!(proxy.get_auctions_by_owner(id(3)), vec![all[1].clone()]);
}

#[test]
fn sealed_proxy_resolves_and_decides_claims() {
    let mut proxy = setup();
    place(&mut proxy, 5, 11, 4, 5);
    // the auction holds the proposal under the proxy's identity
    assert_eq!(proxy.complete(id(11), vec![(id(100), 4)], false), Err(Error::AuctionInProgress));
    assert_eq!(proxy.complete(id(99), vec![(id(100), 4)], true), Err(Error::AuctionDoesNotExist));
    assert_eq!(proxy.claim(id(100), id(11), 0, false), Err(Error::AuctionInProgress));
    assert_eq!(proxy.claim(id(100), id(99), 0, true), Err(Error::AuctionDoesNotExist));
    assert_eq!(proxy.claim(id(100), id(11), 0, true), Ok(None));
    assert_eq!(proxy.complete(id(11), vec![(id(100), 4)], true), Ok(()));
    assert_eq!(proxy.get_winner(id(11)), Ok(Some((id(100), 0))));
    assert_eq!(proxy.get_winner(id(12)), Ok(None));
    assert_eq!(proxy.complete(id(11), vec![(id(100), 4)], true), Err(Error::Other));
    assert_eq!(
        proxy.claim(id(100), id(11), 1, true),
        Err(Error::InvalidCurrencyAmountTransferred)
    );
    assert_eq!(
        proxy.claim(id(100), id(11), 0, true),
        Ok(Some(Payout { asset_id: 7, winner: id(100), seller: id(2), amount: 0 }))
    );
    assert_eq!(proxy.claim(id(5), id(11), 0, true), Ok(None));
}

#[test]
fn sealed_proxy_resolves_from_opened_bids() {
    let mut proxy = setup();
    let s = sealed();
    assert_eq!(proxy.bid(id(5), id(12), s.0, s.1, s.2, vec![7u8], 1, false), Ok(()));
    let wrong = vec![OpenedBid { bidder: id(100), bid: 3, digest: vec![8u8] }];
    assert_eq!(proxy.complete_opened(id(12), &wrong, false), Err(Error::AuctionInProgress));
    assert_eq!(proxy.complete_opened(id(12), &wrong, true), Ok(()));
    assert_eq!(proxy.get_winner(id(12)), Ok(None));
    assert_eq!(proxy.complete_opened(id(12), &wrong, true), Err(Error::Other));

    let mut proxy = setup();
    let s = sealed();
    assert_eq!(proxy.bid(id(5), id(12), s.0, s.1, s.2, vec![7u8], 1, false), Ok(()));
    let right = vec![OpenedBid { bidder: id(100), bid: 3, digest: vec![7u8] }];
    assert_eq!(proxy.complete_opened(id(12), &right, true), Ok(()));
    assert_eq!(proxy.get_winner(id(12)), Ok(Some((id(100), 0))));
}
