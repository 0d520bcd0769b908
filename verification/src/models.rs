//! Data model: events, collaborator request/response shapes, and their
//! mathematical views.

pub mod internal;
pub mod limits;
pub mod middleware;
pub mod response;
pub mod similarity_result;
