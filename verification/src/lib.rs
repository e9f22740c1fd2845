//! Out-of-band verification that an HTTP-01 style domain-validation challenge
//! is published and retrievable for a set of configured certificates.
//!
//! The library holds the decision logic of one orchestration run: building the
//! well-known challenge URL, classifying each HTTP response against the
//! expected token, selecting certificates by a name filter, and the
//! allocate / probe / cleanup state machine that brackets the checks. All
//! network traffic and token publication happen outside the library; callers
//! hand the outcomes of those actions in as plain values.

pub mod filter;
pub mod model;
pub mod probe;
pub mod run;
