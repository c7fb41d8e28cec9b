//! A ledger-resident "last bidder wins" auction with a self-extending timer
//! and an atomic three-way payout split (winner / fee treasury / burn sink)
//! in basis points.
//!
//! The library is the auction's state machine: creating a [`game::Game`],
//! accepting bids that re-extend the deadline, and settling the pot once the
//! deadline has passed. Value movement itself is left to the host ledger; the
//! operations here return the transfer intents that the host must perform
//! atomically with the state change.

pub mod auth;
pub mod game;
pub mod ids;
pub mod lifecycle;
pub mod settle;
pub mod split;

pub use game::Game;
pub use game::PotError;
pub use ids::AccountId;
pub use ids::INCINERATOR;
pub use lifecycle::initialize_game;
pub use lifecycle::place_bid;
pub use settle::settle;
