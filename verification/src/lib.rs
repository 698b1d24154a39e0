//! Ledger controller of a token presale.
//!
//! An administrator configures the sale, buyers pay in a stable token or in
//! the native asset for a recorded allocation of the new token, and the
//! administrator pauses the sale or changes its configuration. The library
//! decides each request; it moves no funds and stores nothing. Its host
//! resolves the accounts of a request, carries out the transfer that a
//! purchase asks for and keeps the configuration record and the log of
//! purchases.
//!
//! - `identity`: the 32-byte references by which everything is named.
//! - `address`: the derived addresses of the configuration record and of
//!   token accounts.
//! - `state`: the configuration record, the purchase record, the errors.
//! - `accounts`: the accounts of each request and the constraints on them.
//! - `operations`: `initialize`, `purchase_usdc`, `purchase_sol` and
//!   `update_config`.
//! - `model`: the sale as a whole, served request by request.
//! - `laws`: what holds of every request and every sequence of requests.

pub mod accounts;
pub mod address;
pub mod identity;
pub mod laws;
pub mod model;
pub mod operations;
pub mod state;

pub use accounts::{
    ConfigAccount, Initialize, PurchaseSol, PurchaseUsdc, TokenAccount, UpdateConfig,
};
pub use identity::Identity;
pub use operations::{
    initialize, initialize_with, purchase_sol, purchase_sol_with, purchase_usdc,
    purchase_usdc_with, update_config, update_config_with,
};
pub use state::{Clock, Config, PendingPurchase, PresaleError, PurchaseEvent, Transfer};
