//! A small issue-tracking adapter library.
//!
//! The library translates between a backend-agnostic `Issue` resource model
//! and the wire schema of a Jira-shaped issue tracker.  It owns the field
//! mapping, the synthesis of resource names, the attachment of credentials
//! to outbound calls, and the classification of backend failures.  The
//! actual HTTP transport (inbound routing and the single outbound call per
//! operation) is left to the embedding application: the adapter plans each
//! backend call as a plain value and interprets the backend's outcome,
//! so that every decision the adapter makes is verified.

pub mod error;
pub mod jira;
pub mod model;
