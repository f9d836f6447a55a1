//! The decision engine of a release tagging tool.
//!
//! The crate decides whether and how a new release tag may be created: it
//! parses, orders and bumps semantic versions, canonicalises and validates tag
//! names, interprets the operator's confirmation, recognises the remote's
//! owner and repository, and sequences the whole lifecycle as a state machine
//! that a thin driver feeds with what the repository and the operator report.
//!
//! The functions are verified against their contracts, which speak of texts
//! as sequences of characters and of versions as triples of numbers. Reading
//! and writing a version is left to the `semver` crate; what is believed of
//! its two calls is stated where they are made.

pub mod cli;
pub mod git;
pub mod tag;
pub mod text;
pub mod version;
