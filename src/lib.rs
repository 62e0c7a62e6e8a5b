//! An on-chain program with a single `initialize` instruction: it takes a
//! context without accounts, writes one greeting that names the executing
//! program to the program log, and always succeeds.

pub mod address;
pub mod program;
