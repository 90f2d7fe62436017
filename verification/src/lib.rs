//! A peer-to-peer collateralized lending marketplace.
//!
//! Lenders post offers and fund them into escrow; a lender may withdraw an open
//! offer, and a borrower may take one against collateral.  The marketplace keeps
//! its own books and tells the ledger host, through an ordered log of effects,
//! which slots to persist, which assets to move and which events to publish.
//! The host authenticates callers, holds the storage and the asset ledgers, and
//! runs each call as one atomic unit.
//!
//! - [`address`], [`offer`], [`event`], [`error`]: the plain data.
//! - [`env`]: the host as one invocation sees it.
//! - [`book`]: the mathematical content of the marketplace and what every call
//!   does to it.
//! - [`lending`]: the marketplace itself.
//! - [`history`], [`laws`], [`custody`]: what holds of every sequence of calls.
//! - [`credit_score`]: a registry of one score per identity.

pub mod address;
pub mod book;
pub mod credit_score;
pub mod custody;
pub mod env;
pub mod error;
pub mod event;
pub mod history;
pub mod laws;
pub mod lending;
pub mod offer;

pub use address::Address;
pub use book::Book;
pub use credit_score::CreditScoreContract;
pub use env::{Env, Host};
pub use error::Error;
pub use event::{Effect, Event};
pub use history::{Call, Invocation};
pub use lending::{load_usdc, load_xlm, LendingP2P};
pub use offer::{DataKey, LenderOffer};
