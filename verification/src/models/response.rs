//! Response shape of the embedding collaborator: one vector per input text,
//! in input order, plus token accounting.

use vstd::prelude::*;

verus! {

/// The embedding collaborator's answer for one batch.
#[derive(Debug)]
pub struct EmbeddingResponse {
    pub object: String,
    pub data: Vec<EmbeddingData>,
    pub model: String,
    pub usage: Tokens,
}

/// One embedding vector, carried as opaque raw 32-bit encodings.
#[derive(Debug)]
pub struct EmbeddingData {
    pub object: String,
    pub embedding: Vec<u32>,
    pub index: u32,
}

/// Token usage reported by the embedding collaborator.
#[derive(Debug, Clone, Copy, PartialEq, Eq, Structural)]
pub struct Tokens {
    pub prompt_tokens: u32,
    pub total_tokens: u32,
}

} // verus!
