//! Error values surfaced by the fallible (`try_*`) entry points.

use vstd::prelude::*;

verus! {

/// The receiving half held by the runtime is gone: no further message or
/// query can ever be delivered on this channel lineage.
#[derive(Clone, Copy, Debug, PartialEq, Eq, Structural)]
pub struct MvuRuntimeChannelClosedError;

/// The one-shot reply channel of a getter round trip was dropped before an
/// answer arrived, so the query can never be answered.
#[derive(Clone, Copy, Debug, PartialEq, Eq, Structural)]
pub struct ModelGetterChannelClosedError;

/// The channel to the host that drives the event loop is closed.
#[derive(Clone, Copy, Debug, PartialEq, Eq, Structural)]
pub struct HostChannelClosed;

/// Everything a fallible client call can report: either the runtime itself is
/// unreachable, or the reply path of a getter round trip was torn down.
#[derive(Clone, Copy, Debug, PartialEq, Eq, Structural)]
pub enum Error {
    MvuRuntimeChannelClosed,
    ModelGetterChannelClosed,
}

impl Error {
    /// A human-readable description of the error.
    pub fn message(&self) -> (r: &'static str)
        ensures
            *self is MvuRuntimeChannelClosed ==> r@ == "the channel to the mvu runtime is closed"@,
            *self is ModelGetterChannelClosed ==> r@ == "the channel to the model getter is closed"@,
    {
        match self {
            Error::MvuRuntimeChannelClosed => "the channel to the mvu runtime is closed",
            Error::ModelGetterChannelClosed => "the channel to the model getter is closed",
        }
    }
}

impl From<HostChannelClosed> for Error {
    fn from(v: HostChannelClosed) -> (r: Self)
        ensures
            r is MvuRuntimeChannelClosed,
    {
        Error::MvuRuntimeChannelClosed
    }
}

impl vstd::std_specs::convert::FromSpecImpl<HostChannelClosed> for Error {
    open spec fn obeys_from_spec() -> bool {
        true
    }

    open spec fn from_spec(v: HostChannelClosed) -> Self {
        Error::MvuRuntimeChannelClosed
    }
}

impl From<MvuRuntimeChannelClosedError> for Error {
    fn from(v: MvuRuntimeChannelClosedError) -> (r: Self)
        ensures
            r is MvuRuntimeChannelClosed,
    {
        Error::MvuRuntimeChannelClosed
    }
}

impl vstd::std_specs::convert::FromSpecImpl<MvuRuntimeChannelClosedError> for Error {
    open spec fn obeys_from_spec() -> bool {
        true
    }

    open spec fn from_spec(v: MvuRuntimeChannelClosedError) -> Self {
        Error::MvuRuntimeChannelClosed
    }
}

impl From<ModelGetterChannelClosedError> for Error {
    fn from(v: ModelGetterChannelClosedError) -> (r: Self)
        ensures
            r is ModelGetterChannelClosed,
    {
        Error::ModelGetterChannelClosed
    }
}

impl vstd::std_specs::convert::FromSpecImpl<ModelGetterChannelClosedError> for Error {
    open spec fn obeys_from_spec() -> bool {
        true
    }

    open spec fn from_spec(v: ModelGetterChannelClosedError) -> Self {
        Error::ModelGetterChannelClosed
    }
}

} // verus!
