//! Read-only middleware observing every inbound message before it is
//! applied.
//!
//! Interceptors run in registration order, see the model as it stands before
//! the mutation, and cannot alter the message or abort the transition.

use crate::base::Model;
use vstd::prelude::*;

verus! {

/// A side-effect-only observation point: called once per inbound message,
/// with the settled model and the message about to be applied. The borrow
/// discipline makes mutation of the model impossible from here.
pub trait Interceptor<M: Model> {
    fn intercept(&mut self, model: &M, message: &M::Message);
}

/// The interceptor that observes nothing; the default when an application
/// registers no middleware.
pub struct NoopInterceptor;

impl<M: Model> Interceptor<M> for NoopInterceptor {
    fn intercept(&mut self, model: &M, message: &M::Message) {
    }
}

/// Middleware that counts the messages it has seen; a minimal audit trail.
pub struct CountingInterceptor {
    /// How many messages have passed this interceptor.
    pub seen: u64,
}

impl CountingInterceptor {
    /// A counter that has seen nothing yet.
    pub fn new() -> (r: Self)
        ensures
            r.seen == 0,
    {
        CountingInterceptor { seen: 0 }
    }
}

impl<M: Model> Interceptor<M> for CountingInterceptor {
    fn intercept(&mut self, model: &M, message: &M::Message) {
        self.seen = self.seen.wrapping_add(1);
    }
}

} // verus!
