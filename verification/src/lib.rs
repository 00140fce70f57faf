//! Core of a World of Warcraft profile-copy tool.
//!
//! The library is split in two parts, leaves first:
//!
//! * [`install`] — the install model: given a snapshot of the directory
//!   layout under a chosen root, build the tree of versions, accounts,
//!   realms and characters that have configuration data.
//! * [`engine`] — the copy engine: given a fully resolved source and
//!   destination, drive an ordered sequence of file-copy and
//!   cache-invalidation steps, producing a per-file log, or a single
//!   fatal error when a structural step fails.
//!
//! [`operation`] holds the selection state that ties the two together,
//! and [`layout`] the path derivation and log-line formats both share.
//! All filesystem access happens outside this crate: callers hand the
//! install model a [`install::RootDir`] snapshot, and run the engine as
//! a loop, performing each requested [`engine::Action`] and feeding the
//! outcome back as an [`engine::Event`].

pub mod engine;
pub mod install;
pub mod layout;
pub mod operation;
