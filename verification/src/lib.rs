//! On-chain authorization logic for a layer-2 rollup.
//!
//! The crate decides whether a claimed point in time or block height has
//! become finalized under the rollup's protocol rule, and whether a
//! transaction is entitled to unlock a staked, custodian, or
//! signature-gated cell.  Every decision procedure is a pure function over
//! a fully materialized transaction context; the host that queries the
//! chain hands the context in as plain values.

pub mod account;
pub mod context;
pub mod crypto;
pub mod error;
pub mod finality;
pub mod locator;
pub mod timepoint;
pub mod unlock;
