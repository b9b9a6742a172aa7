//! A two-party escrow program: an initializer deposits lamports into an
//! escrow account, and either a taker settles the trade or the initializer
//! cancels it. Every decision the program makes is stated and proved here;
//! the host runtime supplies account snapshots, the rent reserve and the
//! system transfers.

pub mod error;
pub mod instruction;
pub mod processor;
pub mod state;

pub use error::EscrowError;
pub use instruction::EscrowInstruction;
pub use processor::{process_instruction, Account, Effects, Movement};
pub use state::{EscrowRecord, EscrowState};
