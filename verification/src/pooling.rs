use vstd::prelude::*;

verus! {

/// Strategy for aggregating per-token embedding vectors into one fixed-size
/// embedding for the whole input.
#[derive(Clone, Copy, Debug, PartialEq, Eq, Structural)]
pub enum Pooling {
    /// Use the embedding of the leading classification token.
    Cls,
    /// Average the embeddings of all tokens.
    Mean,
}

} // verus!
