//! The economic core of a multiplayer game.
//!
//! Each player has a wallet and a bank account; money moves between the two
//! for a fee. Players sell commodities to a market whose prices follow the
//! traded volume and drift back toward their base over time.
//!
//! All amounts are whole currency units. Rates and price multipliers are
//! fixed-point numbers in millionths, and every rounding is spelled out.
//!
//! - [`fixed`]: fixed-point arithmetic and its rounding rules.
//! - [`config`]: the economic parameters and the fees computed from them.
//! - [`account`]: balances and the conditional update of a transfer.
//! - [`user`]: player records and the course of a transfer.
//! - [`pricing`]: the price multiplier and the prices derived from it.
//! - [`market`]: items, the trade log, and what a sale writes.
//! - [`sale`]: the course of a sale.
//! - [`price_regeneration`]: the periodic decay of all prices.
//! - [`status`]: failures and how they are reported.
//! - [`text`]: the texts of messages.
//!
//! Nothing here touches storage. An operation that needs storage is a step
//! function: it says what to ask of storage next, and is handed the answer.

pub mod account;
pub mod config;
pub mod fixed;
pub mod market;
pub mod price_regeneration;
pub mod pricing;
pub mod sale;
pub mod status;
pub mod text;
pub mod user;
