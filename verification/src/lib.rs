//! The House of Stake TLA registry, its custody lockers and its manager,
//! as verified state machines: each call maps the chain's context and its
//! arguments to a new state, an event and the action to perform.

pub mod account;
pub mod admin;
pub mod callbacks;
pub mod error;
pub mod events;
pub mod fees;
pub mod laws;
pub mod manager;
pub mod marketplace;
pub mod registry;
pub mod resale;
pub mod resale_locker;
pub mod strmap;
pub mod sub_account_locker;
pub mod types;
pub mod views;
