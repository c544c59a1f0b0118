//! A sealed-bid, time-locked second-price auction, with the contracts that
//! go with it.
//!
//! Bidders submit commitments to hidden bids while the auction is open. Once
//! the deadline is reached the bids are revealed, each reveal is checked
//! against its commitment, and the highest valid bidder wins and owes the
//! second-highest valid bid.
//!
//! The auction itself:
//! - [`commitment`]: commitments to bid values and their check;
//! - [`pricing`]: the second-price rule;
//! - [`model`]: the mathematical model of an auction and of its transitions;
//! - [`laws`]: what holds of every auction, proved of the model;
//! - [`ledger`]: the books of an auction as they are kept;
//! - [`auction`]: the auction with deposits and a deadline of its own;
//! - [`spsb`], [`vickrey`]: the auctions that a proxy runs;
//! - [`sealed_proxy`]: the proxy for sealed-bid auctions;
//! - [`proxy`], [`asset`]: the proxy for the auctions whose bids it has
//!   revealed to it one by one, and the identifiers of the assets it mints;
//! - [`oracle`]: how the answers of the clock are read.
//!
//! Around it: [`account`], [`registry`] and [`store`] hold identities and
//! what is kept per identity; [`proposal`], [`events`] and [`error`] hold
//! what goes in and what comes out. [`access`], [`exchange`], [`drand`],
//! [`game`], [`guess`] and [`society`] are the smaller contracts that run on
//! the same hosts.
//!
//! Nothing here reads a clock or moves money. What the host knows is passed
//! in, and what the host is to do is handed back.

pub mod access;
pub mod account;
pub mod asset;
pub mod auction;
pub mod commitment;
pub mod drand;
pub mod error;
pub mod events;
pub mod exchange;
pub mod game;
pub mod guess;
pub mod laws;
pub mod ledger;
pub mod model;
pub mod oracle;
pub mod pricing;
pub mod proposal;
pub mod proxy;
pub mod registry;
pub mod sealed_proxy;
pub mod society;
pub mod spsb;
pub mod store;
pub mod vickrey;
