use timelock_auction::account::AccountId;
use timelock_auction::ledger::{Ledger, OpenedBid};
use timelock_auction::proposal::{AuctionResult, Proposal};
use timelock_auction::registry::Registry;
use timelock_auction::store::AccountMap;

fn id(n: u8) -> AccountId {
    AccountId::new([n; 32])
}

fn proposal(deposit: u128, commitment: Vec<u8>) -> Proposal {
    Proposal { deposit, ciphertext: vec![1], nonce: vec![2], capsule: vec![3], commitment }
}

#[test]
fn account_ids_compare_by_bytes() {
    let mut bytes = [0u8; 32];
    bytes[31] = 1;
    assert_eq!(id(0), AccountId::new([0u8; 32]));
    assert_ne!(id(0), AccountId::new(bytes));
    assert_eq!(AccountId::from([4u8; 32]), id(4));
    assert!(id(4).same(&id(4)));
    assert!(!id(4).same(&id(5)));
}

#[test]
fn registry_keeps_order_without_duplicates() {
    let mut registry = Registry::new();
    assert_eq!(registry.len(), 0);
    assert!(registry.register(id(2)));
    assert!(registry.register(id(1)));
    assert!(!registry.register(id(2)));
    assert_eq!(registry.len(), 2);
    assert_eq!(registry.to_vec(), vec![id(2), id(1)]);
    assert_eq!(registry.get(1), id(1));
    assert_eq!(registry.position(&id(1)), Some(1));
    assert_eq!(registry.position(&id(3)), None);
    assert!(registry.contains(&id(2)));
    assert!(!registry.contains(&id(3)));
}

#[test]
fn account_map_stores_one_value_per_key() {
    let mut map: AccountMap<u128> = AccountMap::new();
    assert_eq!(map.len(), 0);
    assert_eq!(map.get(&id(1)), None);
    map.insert(id(1), 10);
    map.insert(id(2), 20);
    map.insert(id(1), 11);
    assert_eq!(map.len(), 2);
    assert_eq!(map.get(&id(1)), Some(&11));
    assert_eq!(map.get(&id(2)), Some(&20));
    assert!(map.contains_key(&id(2)));
    assert_eq!(map.remove(&id(1)), Some(11));
    assert_eq!(map.remove(&id(1)), None);
    assert!(!map.contains_key(&id(1)));
    assert_eq!(map.get(&id(2)), Some(&20));
    assert_eq!(map.len(), 1);
}

#[test]
fn proposal_duplicate_is_equal() {
    let p = proposal(5, vec![9, 9]);
    assert_eq!(p.duplicate(), p);
}

#[test]
fn ledger_resolves_against_given_digests() {
    let mut ledger = Ledger::new();
    ledger.submit(id(1), proposal(5, vec![1]));
    ledger.submit(id(2), proposal(6, vec![2]));
    ledger.submit(id(3), proposal(7, vec![3]));
    assert_eq!(ledger.participant_count(), 3);
    assert!(ledger.is_participant(&id(2)));
    assert_eq!(ledger.deposit_of(&id(2)), Some(6));
    let opened = vec![
        OpenedBid { bidder: id(3), bid: 30, digest: vec![3] },
        OpenedBid { bidder: id(1), bid: 40, digest: vec![0] },
        OpenedBid { bidder: id(2), bid: 20, digest: vec![2] },
        OpenedBid { bidder: id(9), bid: 90, digest: vec![9] },
    ];
    ledger.resolve(&opened);
    assert_eq!(ledger.winner(), Some(AuctionResult { winner: id(3), debt: 20 }));
    assert_eq!(ledger.revealed_bid(&id(1)), None);
    assert_eq!(ledger.revealed_bid(&id(2)), Some(20));
    assert_eq!(ledger.revealed_bid(&id(3)), Some(30));
    assert_eq!(ledger.revealed_bid(&id(9)), None);
    assert_eq!(ledger.failed_proposal(&id(1)), Some(proposal(5, vec![1])));
    assert_eq!(ledger.deposit_of(&id(1)), None);
    assert_eq!(ledger.escrow_of(&id(1)), Some(5));
    assert_eq!(ledger.escrow_of(&id(2)), Some(6));
    assert_eq!(ledger.escrow_of(&id(9)), None);
    assert_eq!(ledger.proposal(&id(1)), None);
    assert_eq!(ledger.proposal(&id(2)), Some(proposal(6, vec![2])));
    assert_eq!(ledger.failed_proposal(&id(2)), None);
    assert_eq!(ledger.participants(), vec![id(1), id(2), id(3)]);
}
