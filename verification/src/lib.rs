//! An escrow for token swaps between two parties on Solana: the maker locks
//! tokens of one mint in a vault and names the amount of a second mint wanted
//! in return; a taker completes the swap, or the maker takes the tokens back.
//!
//! The library decides each instruction: it parses instruction data, reads
//! the escrow state and token accounts, checks the accounts handed in, and
//! answers with the cross-program invocations and state writes to perform, in
//! order, or with the error or failed check that ends the instruction.
pub mod account;
pub mod address;
pub mod instructions;
pub mod pda;
pub mod processor;
pub mod properties;
pub mod state;
pub mod token;
