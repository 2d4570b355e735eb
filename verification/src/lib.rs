//! Verified core of a client for an on-chain group-membership registry.
//!
//! The crate models the registry connection, decodes membership-change
//! events into locally indexed leaf assignments, and builds the two
//! state-changing calls (group creation, member insertion), enforcing the
//! preconditions the chain does not enforce atomically.  All chain I/O is
//! left to the surrounding process; this crate holds the decisions and the
//! codecs, each with a proved contract.

pub mod contracts;
pub mod field;
