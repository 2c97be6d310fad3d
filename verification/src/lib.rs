//! Core of a newsletter subscription service.
//!
//! The library contains the verified subscription workflow: validation of
//! sign-up input, generation of confirmation tokens, the transactional
//! store of subscribers and their tokens, construction of the confirmation
//! email, and the orchestration that maps each outcome to an HTTP status.
//! Network and database transport live outside the library; the workflow is
//! verified against an in-memory store with the same atomicity guarantees.

pub mod domain;
pub mod email;
pub mod store;
pub mod token;
pub mod workflow;
