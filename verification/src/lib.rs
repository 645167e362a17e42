//! Decision logic of a withdrawal-processing gateway.
//!
//! The gateway issues access keys, accepts withdrawal requests, has an
//! authorization service check them, and reports on withdrawals. Everything
//! here is pure: network calls, delays, the clock and the random source are
//! the caller's part, who performs the action that a handler names and
//! reports the result to it as the next event.

pub mod api;
pub mod auth;
pub mod buy;
pub mod cfg;
pub mod nonce;
pub mod text;
pub mod withdrawals;

pub use buy::{buy_get_handler, BuyParams};
pub use cfg::Cfg;
pub use withdrawals::{withdrawals_get_handler, withdrawals_post_handler};
