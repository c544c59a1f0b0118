//! What an operation reports when it has succeeded, for whoever publishes it.

use vstd::prelude::*;

verus! {

/// The item has been taken into the custody of the auction.
#[derive(Clone, Copy, Debug, PartialEq, Eq, Structural)]
pub struct AuctionItemVerified {}

/// A proposal has been accepted.
#[derive(Clone, Copy, Debug, PartialEq, Eq, Structural)]
pub struct ProposalSuccess {}

/// A bidder has been registered.
#[derive(Clone, Copy, Debug, PartialEq, Eq, Structural)]
pub struct BidSuccess {}

/// A claim has been served.
#[derive(Clone, Copy, Debug, PartialEq, Eq, Structural)]
pub struct BidComplete {
    /// Whether the claimant was the winner.
    pub winner: bool,
}

} // verus!
