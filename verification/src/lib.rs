//! Composition and routing of cross-chain asset-transfer messages for a parachain.
//!
//! [`pallet::Pallet`] holds the two transfer operations and the relay rule they
//! rest on. It reaches the chain around it through the capabilities of a
//! [`host::Config`] only, and [`host::Host`] keeps the journal of those calls that
//! the contracts speak of. [`location`], [`message`] and [`balance`] hold the
//! values that the operations work on.

pub mod balance;
pub mod host;
pub mod location;
pub mod message;
pub mod pallet;

pub use host::Config;
pub use pallet::{Error, Pallet};
