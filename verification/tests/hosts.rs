use timelock_auction::account::AccountId;
use timelock_auction::drand::{DrandError, DrandErrorCode, Template};
use timelock_auction::exchange::{
    AssetNotRegistered, AssetTransferSuccess, ContractVersion, IrisAssetExchange, PurchaseOrder,
};
use timelock_auction::oracle::{slot_pending, slot_reached, EtfError, EtfErrorCode};

fn id(n: u8) -> AccountId {
    AccountId::new([n; 32])
}

#[test]
fn slot_answer_is_read() {
    assert!(slot_reached(&[1u8]));
    assert!(!slot_reached(&[0u8]));
    assert!(!slot_reached(&[]));
    assert!(!slot_reached(&[1u8, 1u8]));
    assert!(!slot_reached(&[2u8]));
}

#[test]
fn pending_slot_answer_is_read() {
    assert!(slot_pending(&[0u8]));
    assert!(!slot_pending(&[1u8]));
    assert!(!slot_pending(&[]));
    assert!(!slot_pending(&[0u8, 0u8]));
    assert!(!slot_pending(&[2u8]));
}

#[test]
fn etf_status_is_read() {
    assert_eq!(EtfErrorCode::from_status_code(0), Ok(()));
    assert_eq!(EtfErrorCode::from_status_code(1101), Err(EtfErrorCode::FailCheckSlot));
    assert_eq!(
        EtfError::from(EtfErrorCode::FailCheckSlot),
        EtfError::ErrorCode(EtfErrorCode::FailCheckSlot)
    );
}

#[test]
fn drand_status_is_read() {
    assert_eq!(DrandErrorCode::from_status_code(0), Ok(()));
    assert_eq!(DrandErrorCode::from_status_code(1101), Err(DrandErrorCode::InvalidBlockNumber));
    assert_eq!(
        DrandError::from(DrandErrorCode::InvalidBlockNumber),
        DrandError::ErrorCode(DrandErrorCode::InvalidBlockNumber)
    );
}

#[test]
fn lib_it_works() {
    let template = Template::new();
    assert_eq!(template.get_random(), [0u8; 32]);
}

#[test]
fn can_mutate_randomness() {
    let mut template = Template::new();
    assert_eq!(template.get_random(), [0u8; 32]);
    let res = template.mutate_random([12u8; 32]);
    assert!(res.is_ok());
    assert_eq!(template.get_random(), [12u8; 32]);
}

#[test]
fn template_default_is_zero() {
    assert_eq!(Template::default().get_random(), [0u8; 32]);
}

#[test]
fn lib_default_works() {
    let iris_asset_exchange = IrisAssetExchange::default();
    assert_eq!(iris_asset_exchange.get_version(), [1; 32]);
}

#[test]
fn publish_sale_works() {
    let mut iris_asset_exchange = IrisAssetExchange::default();
    assert_eq!(iris_asset_exchange.publish_sale(id(1), 1, 1), AssetTransferSuccess {});
    assert_eq!(
        iris_asset_exchange.purchase_tokens(id(2), 1, 1),
        Ok(PurchaseOrder { buyer: id(2), seller: id(1), asset_id: 1, quantity: 1, total_cost: 1 })
    );
}

#[test]
fn purchase_tokens_works() {
    let mut iris_asset_exchange = IrisAssetExchange::default();
    iris_asset_exchange.publish_sale(id(1), 1, 10);
    assert_eq!(
        iris_asset_exchange.purchase_tokens(id(2), 1, 10),
        Ok(PurchaseOrder {
            buyer: id(2),
            seller: id(1),
            asset_id: 1,
            quantity: 10,
            total_cost: 100
        })
    );
}

#[test]
fn purchase_of_unlisted_asset_is_refused() {
    let mut exchange = IrisAssetExchange::new();
    assert_eq!(exchange.contract_version(), ContractVersion { version: 1 });
    assert_eq!(exchange.purchase_tokens(id(2), 1, 10), Err(AssetNotRegistered {}));
    exchange.publish_sale(id(1), 1, 10);
    assert_eq!(exchange.purchase_tokens(id(2), 2, 10), Err(AssetNotRegistered {}));
    // a later sale of the same asset replaces the earlier
    exchange.publish_sale(id(3), 1, 4);
    assert_eq!(
        exchange.purchase_tokens(id(2), 1, 3),
        Ok(PurchaseOrder { buyer: id(2), seller: id(3), asset_id: 1, quantity: 3, total_cost: 12 })
    );
}
