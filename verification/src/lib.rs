//! A forked-state database for dry-run simulation of chain transactions.
//!
//! The core is an overlay/cache layer that makes a pinned remote chain
//! snapshot look like an in-process state store, while letting the caller
//! inject synthetic accounts, balances and storage that take priority over
//! the real snapshot.

pub mod alist;
pub mod fork_backend;
pub mod encode;
pub mod fork_factory;
pub mod harness;
pub mod laws;
pub mod types;
