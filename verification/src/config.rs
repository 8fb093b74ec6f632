//! Queue and publish options shared by producers and consumers.

use vstd::prelude::*;

verus! {

/// Options attached to a queue declaration.
#[derive(Clone, Copy, Debug, PartialEq, Eq, Structural)]
pub struct QueueOptions {
    pub durable: bool,
    pub exclusive: bool,
    pub auto_delete: bool,
}

impl Default for QueueOptions {
    fn default() -> (r: Self)
        ensures
            r == (QueueOptions { durable: false, exclusive: false, auto_delete: false }),
    {
        QueueOptions { durable: false, exclusive: false, auto_delete: false }
    }
}

/// Options attached to a basic publish.
#[derive(Clone, Copy, Debug, PartialEq, Eq, Structural)]
pub struct PublishOptions {
    pub mandatory: bool,
    pub immediate: bool,
}

impl Default for PublishOptions {
    fn default() -> (r: Self)
        ensures
            r == (PublishOptions { mandatory: false, immediate: false }),
    {
        PublishOptions { mandatory: false, immediate: false }
    }
}

/// The options of the ephemeral reply destination a request/reply call
/// declares: exclusive to its consumer and deleted by the broker as soon as
/// that consumer disconnects, so a correlation queue never outlives its call.
pub open spec fn spec_correlation_options(base: QueueOptions) -> QueueOptions {
    QueueOptions { exclusive: true, auto_delete: true, ..base }
}

/// Build the options of a correlation queue from a producer's queue options.
pub fn correlation_options(base: &QueueOptions) -> (r: QueueOptions)
    ensures
        r == spec_correlation_options(*base),
{
    QueueOptions { durable: base.durable, exclusive: true, auto_delete: true }
}

} // verus!
