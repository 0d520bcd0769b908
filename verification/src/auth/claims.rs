//! The claims carried by an accepted token.

use vstd::prelude::*;

verus! {

/// Claims of a verified token: the subject is the submitter identifier used
/// throughout the pipeline.
#[derive(Debug)]
pub struct Claims {
    pub sub: String,
    pub exp: usize,
    pub iat: usize,
    pub iss: String,
}

} // verus!
