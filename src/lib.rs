//! Authorization and threshold-approval engine for multi-chain transaction
//! requests: role-based permissions, priority-ordered policy evaluation,
//! multi-signature request lifecycle and an append-only audit trail.

pub mod principal;
pub mod text;
pub mod types;
pub mod access_control;
pub mod threshold;
pub mod audit;
pub mod errors;
pub mod universal_router;
pub mod abi;
pub mod config;
pub mod btc_address;
pub mod guard;
