//! The logic of an HTTP sidecar that exposes a Zcash light wallet.
//!
//! Configuration is read from the environment (`environment`, `text`, `settings`,
//! `wallet`) and made into a plan for the light client (`client`). Requests find
//! their endpoint (`routes`), are let in or refused (`auth`), and are answered from
//! what the wallet tells (`address`, `balance`, `status`, `transactions`) or by
//! having it send a payment (`send`). Meanwhile the wallet is kept up to date
//! (`sync`).

pub mod address;
pub mod amount;
pub mod auth;
pub mod balance;
pub mod choice;
pub mod client;
pub mod environment;
pub mod error;
pub mod key_text;
pub mod keys;
pub mod outside;
pub mod routes;
pub mod send;
pub mod settings;
pub mod status;
pub mod sync;
pub mod text;
pub mod transactions;
pub mod wallet;
