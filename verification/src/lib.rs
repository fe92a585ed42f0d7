//! A non-custodial recurring-billing engine coupled to a merchant
//! trust/reputation registry.
//!
//! The billing side owns the subscription lifecycle (create, execute due
//! payments under layered safety limits, pause, resume, cancel, close) and
//! the platform-wide ledger counters. The registry side owns merchant
//! verification tiers, a community reputation score driven by transaction
//! reports and reviews, and a sybil-resistant review gate.
//!
//! The host ledger that actually moves funds, stores accounts and supplies
//! the clock is an external collaborator: every function here works on plain
//! values and leaves transfers, delegation and event emission to the caller.

pub mod arith;
pub mod errors;
pub mod fees;
pub mod initialize_config;
pub mod merchant;
pub mod model;
pub mod platform;
pub mod platform_config;
pub mod registry;
pub mod review;
pub mod subscription;
pub mod update_config;
