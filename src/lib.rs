//! Dotfile management: tracked files live in a store directory under the
//! home directory and are linked back to their places.
//!
//! The library decides; its caller performs the filesystem and
//! version-control work it asks for and reports back.
//! - `store`: where the store is and which of its children are tracked.
//! - `adopt`: bringing one file under management, undoing the move when the
//!   link cannot be made.
//! - `reconcile`: linking every tracked file, under a conflict policy.
//! - `vcs`: the version-control calls, and which push a branch needs.
//! - `fsmodel`: the model of the filesystem that the laws are stated over.
pub mod adopt;
pub mod fsmodel;
pub mod paths;
pub mod reconcile;
pub mod store;
pub mod vcs;
