//! The fan-out orchestrator's partitioning: how many producer and consumer
//! instances to run, on which of the two role connections, and how the
//! consumers are split into scheduling groups.
//!
//! Two concurrency models are supported.  Under a shared worker pool every
//! instance is its own task, so every consumer forms a group of one.  Under
//! grouped cooperative pools the consumers are partitioned into groups of a
//! fixed size, one cooperative scheduler per group; a remainder smaller
//! than a full group is not spawned, exactly as dividing the instance count
//! by the group size prescribes.

use vstd::prelude::*;
use vstd::arithmetic::div_mod::lemma_fundamental_div_mod;

verus! {

/// The execution substrate the orchestrator schedules instances on.
#[derive(Clone, Copy, Debug, PartialEq, Eq, Structural)]
pub enum RuntimeKind {
    /// One bounded worker pool shared by every instance.
    SharedPool,
    /// One single-threaded cooperative pool per consumer group.
    GroupedPools,
}

/// What the caller asks of the orchestrator.
#[derive(Clone, Copy, Debug, PartialEq, Eq, Structural)]
pub struct FanoutConfig {
    pub producers: usize,
    pub consumers: usize,
    /// Consumers multiplexed on one cooperative pool; read only under
    /// [`RuntimeKind::GroupedPools`].
    pub consumers_per_group: usize,
    pub runtime: RuntimeKind,
}

/// The instances to spawn: producer count, the two role connections, and
/// the size of each consumer group.
pub struct FanoutPlan {
    /// Handle of the connection shared by every producer.
    pub producer_connection: u64,
    /// Handle of the connection shared by every consumer; a different
    /// session than the producers', isolating the two roles.
    pub consumer_connection: u64,
    pub producers: usize,
    /// One entry per consumer group, giving the group's instance count.
    pub consumer_groups: Vec<usize>,
}

/// The number of consumer instances a sequence of groups holds in all.
pub open spec fn spec_group_total(groups: Seq<usize>) -> int
    decreases groups.len(),
{
    if groups.len() == 0 {
        0
    } else {
        spec_group_total(groups.drop_last()) + groups.last()
    }
}

/// Partition the requested instances over connections and groups.
///
/// Producers are never grouped: the plan carries their count unchanged.
/// Under a shared pool every consumer is a group of one, so all of them are
/// spawned; under grouped pools there are `consumers / consumers_per_group`
/// full groups and the remainder is not spawned.  The two roles get
/// distinct connection handles.
pub fn plan_fanout(config: &FanoutConfig) -> (p: FanoutPlan)
    requires
        config.runtime is GroupedPools ==> config.consumers_per_group >= 1,
    ensures
        p.producers == config.producers,
        p.producer_connection != p.consumer_connection,
        config.runtime is SharedPool ==> {
            &&& p.consumer_groups@.len() == config.consumers
            &&& forall|i: int| 0 <= i < p.consumer_groups@.len() ==> p.consumer_groups@[i] == 1
            &&& spec_group_total(p.consumer_groups@) == config.consumers
        },
        config.runtime is GroupedPools ==> {
            &&& p.consumer_groups@.len() == config.consumers / config.consumers_per_group
            &&& forall|i: int|
                0 <= i < p.consumer_groups@.len()
                    ==> p.consumer_groups@[i] == config.consumers_per_group
            &&& spec_group_total(p.consumer_groups@) == config.consumers - config.consumers
                % config.consumers_per_group
        },
        spec_group_total(p.consumer_groups@) <= config.consumers,
{
    let (count, size): (usize, usize) = match config.runtime {
        RuntimeKind::SharedPool => (config.consumers, 1),
        RuntimeKind::GroupedPools => (config.consumers / config.consumers_per_group, config.consumers_per_group),
    };
    let mut groups: Vec<usize> = Vec::new();
    let mut i: usize = 0;
    while i < count
        invariant
            i <= count,
            groups@.len() == i,
            forall|j: int| 0 <= j < groups@.len() ==> groups@[j] == size,
            spec_group_total(groups@) == i * size,
        decreases count - i,
    {
        let ghost prev = groups@;
        groups.push(size);
        i = i + 1;
        proof {
            assert(groups@.drop_last() =~= prev);
            assert(groups@.last() == size);
            assert(spec_group_total(groups@) == spec_group_total(prev) + size);
            assert(i * size == (i - 1) * size + size) by (nonlinear_arith);
        }
    }
    proof {
        if config.runtime is SharedPool {
            assert(count * 1 == count) by (nonlinear_arith);
        } else {
            let c = config.consumers as int;
            let g = config.consumers_per_group as int;
            lemma_fundamental_div_mod(c, g);
            assert(c == g * (c / g) + c % g);
            assert((c / g) * g == g * (c / g)) by (nonlinear_arith);
            assert(count * size == c - c % g);
            assert(c % g >= 0);
        }
    }
    FanoutPlan {
        producer_connection: 0,
        consumer_connection: 1,
        producers: config.producers,
        consumer_groups: groups,
    }
}

} // verus!
