//! A minimal account-based value ledger.
//!
//! A [`Mint`] describes one fungible unit type and names the authority that
//! may issue it; a [`TokenAccount`] holds one owner's balance of it. Four
//! operations act on these records: [`init_mint`], [`init_token_account`],
//! [`mint_to`] and [`transfer`]. Every operation works only on the records it
//! is handed and on an identity that the caller has already authenticated;
//! it either applies in full or fails with an [`ErrorCode`] and changes
//! nothing.
//!
//! Two choices are made here once and for all. An amount of 0 is an amount
//! like any other: the caller must still be entitled, and nothing changes.
//! A transfer from an account to itself is [`self_transfer`]: it is held to
//! the rules of a transfer and changes nothing.
//!
//! The module [`supply`] states what the operations do to the sum of all
//! balances of a mint.

pub mod error;
pub mod identity;
pub mod state;
pub mod supply;
pub mod creation;
pub mod issuance;
pub mod transfers;

pub use creation::{init_mint, init_token_account};
pub use error::ErrorCode;
pub use identity::Identity;
pub use issuance::mint_to;
pub use state::{Mint, TokenAccount};
pub use transfers::{self_transfer, transfer};
