//! Mutators change inputs; here, the token (dictionary) mutations.
use vstd::prelude::*;

pub mod token_mutations;

pub use token_mutations::{TokenInsert, TokenReplace, Tokens};

verus! {

/// The result of a mutation.
#[derive(Debug, Clone, Copy, PartialEq, Eq, Structural)]
pub enum MutationResult {
    /// The input was mutated.
    Mutated,
    /// The mutation did not apply; the input is unchanged.
    Skipped,
}

} // verus!
