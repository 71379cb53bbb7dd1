//! A deterministic store of movie reviews.
//!
//! A request arrives as bytes, is decoded into a typed instruction, and is
//! carried out against a storage slot whose address is derived from the
//! identity of the caller and the title of the review. Every rule that
//! decides whether a request is carried out, and every byte that ends up in
//! a slot, is stated in a contract and proved.

pub mod address;
pub mod error;
pub mod instruction;
pub mod laws;
pub mod processor;
pub mod state;
pub mod student;
pub mod wire;

pub use crate::error::ReviewError;
pub use crate::instruction::MovieInstruction;
pub use crate::processor::{
    add_movie_review, process_instruction, update_movie_review, write_review, Account, Outcome,
    SlotRequest,
};
pub use crate::state::{MovieAccountState, MAX_RECORD_BYTES};
pub use crate::student::StudentInstruction;
