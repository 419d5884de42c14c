//! Deferred validation of reference-type command-line inputs.
//!
//! A path argument is a reference to external, mutable state: any check of
//! it ages the moment it is made, because other processes may rename, delete
//! or re-permission the path at any time. This library therefore never
//! trusts a stored verdict about a path. An early probe may reject an
//! obviously bad argument as a courtesy to the user, but every actual use is
//! judged by the outcome of the one operation that performed it, so that the
//! check and the use are a single step with no window between them.
//!
//! The crate has three parts: [`args`] resolves the invocation's input list
//! (never empty: an empty invocation falls back to exactly one default),
//! [`validate`] classifies each use of a path from that use's own outcome,
//! and [`errors`] renders a chain of causally linked error messages and
//! picks the process exit code.

pub mod args;
pub mod errors;
pub mod validate;
