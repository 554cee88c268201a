//! A verified model of a small blogging program on an account ledger:
//! user profiles and the posts they author live in storage slots whose
//! addresses are derived from stable identity inputs.
//!
//! `address` derives the addresses, `state` holds the two kinds of record,
//! `instructions` says what the two operations check and write, `ledger`
//! keeps the records of one program, `model` is the ledger as a plain value,
//! and `laws` states what holds of every ledger.

pub mod address;
pub mod error;
pub mod instructions;
pub mod laws;
pub mod ledger;
pub mod model;
pub mod state;

pub use address::Address;
pub use error::BlogError;
pub use instructions::{create_post, init_user, CreatePost, InitUser};
pub use ledger::Ledger;
pub use state::{PostAccount, Signer, UserAccount};
