//! A message-driven state container: a Model/Update/View runtime core.
//!
//! The crate provides the dispatch engine of an MVU application: a typed
//! message channel with a single consumer, a serialized update step, a FIFO
//! queue of deferred commands, coarse dirty-region invalidation, fine-grained
//! reactive signals, a type-keyed shared world for long-lived services, and
//! forkable, zoomable client handles (dispatchers, updaters, getters).
//!
//! Everything that decides is verified; the channel transport itself is the
//! bounded mpsc channel of the `tokio` crate, reached through a small set of
//! trusted wrappers.

pub mod apps;
pub mod base;
pub mod channel;
pub mod command;
pub mod dispatcher;
pub mod error;
pub mod interceptor;
pub mod maybe;
pub mod region;
pub mod runtime;
pub mod signal;
pub mod world;

use vstd::prelude::*;

verus! {

/// Implemented only inside this crate: seals extension traits against
/// downstream implementations.
pub trait Sealed {}

/// A capability value that only this crate can mint; holding one proves the
/// caller came through the crate's own entry points.
pub struct Token(());

impl Token {
    pub fn new() -> (r: Self) {
        Token(())
    }
}

/// Mints a [`Token`] for the crate's own plumbing.
pub fn __token() -> (r: Token) {
    Token::new()
}

} // verus!
