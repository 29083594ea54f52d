//! A passthrough adapter for a bonding-curve token swap program.
//!
//! The library re-derives the deterministic addresses the external swap
//! program expects, encodes its swap instruction payload, and assembles the
//! ordered account-reference list for a single cross-program call. All
//! economic logic lives in the external program; what is verified here is
//! that the bytes and the account list handed to it are exactly the ones its
//! binary interface prescribes.

pub mod addr;
pub mod instruction;
pub mod payload;
pub mod pda;
