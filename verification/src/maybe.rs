//! Capability marker traits.
//!
//! In the single-threaded configuration of the runtime these markers demand
//! nothing; they keep the signatures that a thread-safe configuration would
//! constrain, so user code can bound its own items uniformly.

use vstd::prelude::*;

verus! {

/// Marks values that may move to the task driving the runtime.
pub trait MaybeSend {}

/// Marks values that may be shared with the task driving the runtime.
pub trait MaybeSync {}

/// Marks values that may outlive the scope that created them.
pub trait MaybeStatic {}

impl<T> MaybeSend for T {}

impl<T> MaybeSync for T {}

impl<T> MaybeStatic for T {}

/// Both [`MaybeSend`] and [`MaybeSync`].
pub trait MaybeSendSync: MaybeSend + MaybeSync {}

impl<T: MaybeSend + MaybeSync> MaybeSendSync for T {}

/// Both [`MaybeSend`] and [`MaybeStatic`].
pub trait MaybeSendStatic: MaybeSend + MaybeStatic {}

impl<T: MaybeSend + MaybeStatic> MaybeSendStatic for T {}

} // verus!
