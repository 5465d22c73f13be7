//! Verified planning logic for a small Solana token client: which
//! instructions go into which transaction, how account data is read back,
//! and the arithmetic around fees and balances.
use vstd::prelude::*;

pub mod ata;
pub mod config;
pub mod fees;
pub mod ids;
pub mod instruction;
pub mod laws;
pub mod metadata;
pub mod pda;
pub mod plan;
pub mod script;
pub mod state;
pub mod system;
pub mod token;
pub mod walk;
