//! The asset exchange: owners put assets up for sale at a price, and buyers
//! order them.
//!
//! The exchange keeps who sells which asset and at what price. Minting,
//! locking money and moving assets is the host's work: the exchange says what
//! a purchase comes to and whom it concerns.

use vstd::prelude::*;
use std::collections::HashMap;
use crate::account::AccountId;

verus! {

/// The version of the exchange.
#[derive(Clone, Copy, Debug, PartialEq, Eq, Structural)]
pub struct ContractVersion {
    pub version: u32,
}

/// An asset has been put up or handed over.
#[derive(Clone, Copy, Debug, PartialEq, Eq, Structural)]
pub struct AssetTransferSuccess {}

/// A sale has been opened.
#[derive(Clone, Copy, Debug, PartialEq, Eq, Structural)]
pub struct NewTokenSaleSuccess {}

/// The asset is not for sale here.
#[derive(Clone, Copy, Debug, PartialEq, Eq, Structural)]
pub struct AssetNotRegistered {}

/// Which of the host's services failed.
#[derive(Clone, Copy, Debug, PartialEq, Eq, Structural)]
pub enum IrisErr {
    /// The assets could not be handed over.
    FailTransferAsset,
    /// The assets could not be minted.
    FailMintAssets,
    /// The money could not be locked.
    FailLockCurrency,
    /// The money could not be released.
    FailUnlockCurrency,
}

impl IrisErr {
    /// The failure that a status of the host stands for.
    pub open spec fn of_status(status_code: u32) -> IrisErr {
        if status_code == 0 {
            IrisErr::FailTransferAsset
        } else if status_code == 1 {
            IrisErr::FailMintAssets
        } else if status_code == 2 {
            IrisErr::FailLockCurrency
        } else {
            IrisErr::FailUnlockCurrency
        }
    }

    /// Reads a status of the host. The host reports a status only when a
    /// service has failed, and numbers its services from 0 to 3.
    pub fn from_status_code(status_code: u32) -> (r: Result<(), IrisErr>)
        requires
            status_code <= 3,
        ensures
            r == Err::<(), IrisErr>(Self::of_status(status_code)),
    {
        if status_code == 0 {
            Err(IrisErr::FailTransferAsset)
        } else if status_code == 1 {
            Err(IrisErr::FailMintAssets)
        } else if status_code == 2 {
            Err(IrisErr::FailLockCurrency)
        } else {
            Err(IrisErr::FailUnlockCurrency)
        }
    }
}

/// What the host is to do for a purchase: lock the cost with the buyer, hand
/// the assets to the buyer, and release the cost to the seller.
#[derive(Clone, Copy, Debug, PartialEq, Eq)]
pub struct PurchaseOrder {
    /// The buyer.
    pub buyer: AccountId,
    /// The seller.
    pub seller: AccountId,
    /// The asset.
    pub asset_id: u32,
    /// How many are bought.
    pub quantity: u64,
    /// What they cost in all.
    pub total_cost: u64,
}

/// What the exchange holds: for each asset on sale, who sells it and the
/// price of one.
pub struct Sales {
    pub owners: Map<u32, AccountId>,
    pub prices: Map<u32, u64>,
}

impl Sales {
    /// Whether the asset is on sale.
    pub open spec fn lists(self, asset_id: u32) -> bool {
        self.prices.contains_key(asset_id) && self.owners.contains_key(asset_id)
    }

    /// What `quantity` of the asset cost.
    pub open spec fn cost(self, asset_id: u32, quantity: u64) -> int {
        quantity * self.prices[asset_id]
    }

    /// The sales after `caller` has put the asset up at `price`.
    pub open spec fn publish_sale(self, caller: AccountId, asset_id: u32, price: u64) -> Sales {
        Sales {
            owners: self.owners.insert(asset_id, caller),
            prices: self.prices.insert(asset_id, price),
        }
    }
}

/// An exchange for assets.
pub struct IrisAssetExchange {
    owner_registry: HashMap<u32, AccountId>,
    price_registry: HashMap<u32, u64>,
}

impl View for IrisAssetExchange {
    type V = Sales;

    closed spec fn view(&self) -> Sales {
        Sales { owners: self.owner_registry@, prices: self.price_registry@ }
    }
}

impl IrisAssetExchange {
    /// An exchange with nothing on sale.
    pub fn new() -> (exchange: IrisAssetExchange)
        ensures
            exchange@ == (Sales { owners: Map::empty(), prices: Map::empty() }),
    {
        IrisAssetExchange { owner_registry: HashMap::new(), price_registry: HashMap::new() }
    }

    /// The version of the exchange, as thirty-two bytes.
    pub fn get_version(&self) -> (version: [u8; 32])
        ensures
            version@ == Seq::new(32, |i: int| 1u8),
    {
        let version = [1u8;32];
        assert(version@ =~= Seq::new(32, |i: int| 1u8));
        version
    }

    /// The version of the exchange, as it is published.
    pub fn contract_version(&self) -> (event: ContractVersion)
        ensures
            event == (ContractVersion { version: 1 }),
    {
        ContractVersion { version: 1 }
    }

    /// The price of one of the asset, if it is on sale.
    pub fn price_of(&self, asset_id: u32) -> (r: Option<u64>)
        ensures
            r == (if self@.prices.contains_key(asset_id) {
                Some(self@.prices[asset_id])
            } else {
                None
            }),
    {
        broadcast use vstd::std_specs::hash::group_hash_axioms;

        match self.price_registry.get(&asset_id) {
            Some(price) => Some(*price),
            None => None,
        }
    }

    /// Who sells the asset, if it is on sale.
    pub fn owner_of(&self, asset_id: u32) -> (r: Option<AccountId>)
        ensures
            r == (if self@.owners.contains_key(asset_id) {
                Some(self@.owners[asset_id])
            } else {
                None
            }),
    {
        broadcast use vstd::std_specs::hash::group_hash_axioms;

        match self.owner_registry.get(&asset_id) {
            Some(owner) => Some(*owner),
            None => None,
        }
    }

    /// Puts the asset up for sale by `caller` at `price` apiece, in place of
    /// any earlier sale of the asset.
    pub fn publish_sale(&mut self, caller: AccountId, asset_id: u32, price: u64) -> (event:
        AssetTransferSuccess)
        ensures
            final(self)@ == old(self)@.publish_sale(caller, asset_id, price),
    {
        broadcast use vstd::std_specs::hash::group_hash_axioms;

        self.owner_registry.insert(asset_id, caller);
        self.price_registry.insert(asset_id, price);
        AssetTransferSuccess {  }
    }

    /// Orders `quantity` of the asset for `caller`: what the host is to do
    /// for it, or that the asset is not on sale. The cost fits the money
    /// type.
    pub fn purchase_tokens(&self, caller: AccountId, asset_id: u32, quantity: u64) -> (r: Result<
        PurchaseOrder,
        AssetNotRegistered,
    >)
        requires
            self@.prices.contains_key(asset_id) ==> self@.cost(asset_id, quantity) <= u64::MAX,
        ensures
            r == (if self@.lists(asset_id) {
                Ok::<PurchaseOrder, AssetNotRegistered>(
                    PurchaseOrder {
                        buyer: caller,
                        seller: self@.owners[asset_id],
                        asset_id,
                        quantity,
                        total_cost: self@.cost(asset_id, quantity) as u64,
                    },
                )
            } else {
                Err::<PurchaseOrder, AssetNotRegistered>(AssetNotRegistered {  })
            }),
    {
        broadcast use vstd::std_specs::hash::group_hash_axioms;

        match self.price_registry.get(&asset_id) {
            Some(price) => {
                let total_cost = quantity * *price;
                match self.owner_registry.get(&asset_id) {
                    Some(owner) => Ok(
                        PurchaseOrder {
                            buyer: caller,
                            seller: *owner,
                            asset_id,
                            quantity,
                            total_cost,
                        },
                    ),
                    None => Err(AssetNotRegistered {  }),
                }
            },
            None => Err(AssetNotRegistered {  }),
        }
    }
}

impl Default for IrisAssetExchange {
    fn default() -> (exchange: IrisAssetExchange)
        ensures
            exchange@ == (Sales { owners: Map::empty(), prices: Map::empty() }),
    {
        IrisAssetExchange::new()
    }
}

} // verus!
