//! A thin on-chain proxy that forwards token-management calls to the
//! token program and market-maker operations to an external AMM program.
//! Each entry point validates the caller-supplied accounts against a
//! per-operation schema and assembles one outbound call descriptor that
//! carries the caller's arguments unchanged.

pub mod account;
pub mod amm;
pub mod authority;
pub mod descriptor;
pub mod error;
pub mod outcome;
pub mod schema;
pub mod spl_calls;
pub mod token;
