//! The errors that an auction operation can return.

use vstd::prelude::*;

verus! {

/// Why an operation was refused. A refused operation changes nothing.
#[derive(Clone, Copy, Debug, PartialEq, Eq, Structural)]
pub enum Error {
    /// Only the owner of the auction may do this.
    NotAuctionOwner,
    /// The asset, or a deposit, could not be handed over.
    AssetTransferFailed,
    /// The auction no longer takes proposals.
    AuctionAlreadyComplete,
    /// The deadline has not been reached.
    AuctionInProgress,
    /// The auction asks for a larger deposit.
    DepositTooLow,
    /// The winner did not pay exactly the debt.
    InvalidCurrencyAmountTransferred,
    /// The auction has been resolved already; its result stands.
    AlreadyResolved,
    /// The caller has been served already.
    AlreadyClaimed,
    /// No deposit is held for the caller.
    NoDeposit,
    /// The bidder is not registered in this auction.
    NotParticipant,
    /// Only the proxy that owns the auction may do this.
    NotProxy,
    /// The origin is not authorised to do this.
    UnathorizedOrigin,
    /// The asset could not be minted.
    NFTMintFailed,
    /// The asset could not be handed to the winner.
    NftTransferFailed,
    /// The payment could not be handed to the seller.
    BalanceTransferFailed,
    /// No auction goes by that identifier.
    AuctionDoesNotExist,
    /// The auction has no winner.
    NoWinnerDetermined,
    /// The auction itself refused a call that the proxy passed on.
    Other,
}

} // verus!
