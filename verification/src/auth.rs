//! Authentication-adjacent logic: token claims, header and query-string
//! token extraction, and the owned signing-key cache.
//!
//! Actual signature verification is the credential collaborator's concern
//! and stays outside the library; what lives here is the data handling
//! around it.

pub mod claims;
pub mod extractor;
pub mod jwt;
pub mod verify;
