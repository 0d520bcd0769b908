//! Request shape for the similarity collaborator: one batched call carrying
//! one filtered query per event.

use vstd::prelude::*;

verus! {

/// One batched similarity call: one entry per event of the drained batch.
#[derive(Debug)]
pub struct SearchRequest {
    pub searches: Vec<PointSearchVectors>,
}

/// One similarity query: an embedding vector (raw 32-bit encodings), a filter
/// restricting matches to the event's submitter, and a result limit.
#[derive(Debug)]
pub struct PointSearchVectors {
    pub query: Vec<u32>,
    pub filter: FilterType,
    pub with_payload: bool,
    pub limit: u8,
}

/// A conjunction of match conditions.
#[derive(Debug)]
pub struct FilterType {
    pub must: Vec<Must>,
}

/// One condition: the named payload field must match the given value.
#[derive(Debug)]
pub struct Must {
    pub key: String,
    pub match_value: KeyValue,
}

/// The value a filtered payload field must equal.
#[derive(Debug)]
pub struct KeyValue {
    pub value: String,
}

} // verus!
