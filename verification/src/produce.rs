//! The producer side: fire-and-forget publishing and request/reply calls
//! with a per-call correlation queue.
//!
//! A producer does not talk to the broker itself.  Each call is a small
//! protocol: the caller starts it, performs the [`ProducerAction`] the
//! machine hands out (open a channel, declare a queue, publish, wait for a
//! reply), and feeds the outcome back as a [`ProducerEvent`] until the state
//! is terminal.  The step functions below pin down every transition, so the
//! correlation discipline — a fresh exclusive auto-delete reply queue per
//! call, attached to the request before it is published, and a reply
//! accepted only from that queue — is proved over the transitions.

use vstd::prelude::*;
use vstd::string::StringExecFns;
use crate::config::{QueueOptions, PublishOptions, spec_correlation_options, correlation_options};
use crate::error::Error;

verus! {

/// A non-consuming builder of [`Producer`]s.
///
/// The builder binds the handle of a shared connection to a queue name and
/// options.  It can be cloned so that many producers are spawned from one
/// base configuration; clones share the connection handle and nothing else.
pub struct ProducerBuilder {
    /// Handle of the shared connection every built producer publishes on.
    pub connection: u64,
    pub exchange: String,
    pub queue: String,
    pub queue_options: QueueOptions,
    pub publish_options: PublishOptions,
}

/// The builder value after its queue name is replaced.
pub open spec fn spec_with_queue(b: ProducerBuilder, queue: String) -> ProducerBuilder {
    ProducerBuilder { queue, ..b }
}

impl Clone for ProducerBuilder {
    fn clone(&self) -> (r: Self)
        ensures
            r == *self,
    {
        ProducerBuilder {
            connection: self.connection,
            exchange: self.exchange.clone(),
            queue: self.queue.clone(),
            queue_options: self.queue_options,
            publish_options: self.publish_options,
        }
    }
}

impl ProducerBuilder {
    /// A builder over the given connection handle, with the default
    /// exchange, the root queue name and default options.
    pub fn new(connection: u64) -> (b: Self)
        ensures
            b.connection == connection,
            b.exchange@ == ""@,
            b.queue@ == "/"@,
            b.queue_options == (QueueOptions { durable: false, exclusive: false, auto_delete: false }),
            b.publish_options == (PublishOptions { mandatory: false, immediate: false }),
    {
        ProducerBuilder {
            connection,
            exchange: String::from_str(""),
            queue: String::from_str("/"),
            queue_options: QueueOptions::default(),
            publish_options: PublishOptions::default(),
        }
    }

    /// Replace the queue name; every other setting is kept.
    pub fn with_queue(&mut self, queue: String)
        ensures
            *final(self) == spec_with_queue(*old(self), queue),
    {
        self.queue = queue;
    }

    /// Bind a producer to this configuration.  No channel is opened here:
    /// the producer creates one lazily on its first publish.
    pub fn build(&self) -> (p: Producer)
        ensures
            p.connection == self.connection,
            p.exchange == self.exchange,
            p.queue == self.queue,
            p.queue_options == self.queue_options,
            p.publish_options == self.publish_options,
            p.channel is None,
    {
        Producer {
            connection: self.connection,
            exchange: self.exchange.clone(),
            queue: self.queue.clone(),
            queue_options: self.queue_options,
            publish_options: self.publish_options,
            channel: None,
        }
    }
}

/// Builder clones are independent: replacing the queue name of a clone
/// yields a configuration that differs from the original in the queue name
/// alone, and the original builder's own queue name is untouched.
pub proof fn lemma_producer_clone_with_queue_independent(
    original: ProducerBuilder,
    cloned: ProducerBuilder,
    queue: String,
)
    requires
        cloned == original,
    ensures
        spec_with_queue(cloned, queue).queue == queue,
        spec_with_queue(cloned, queue).connection == original.connection,
        spec_with_queue(cloned, queue).exchange == original.exchange,
        spec_with_queue(cloned, queue).queue_options == original.queue_options,
        spec_with_queue(cloned, queue).publish_options == original.publish_options,
{
}

/// A publisher of messages, bound to one exchange and routing queue.
///
/// The channel is created lazily on the first publish and cached; a failed
/// publish leaves the cached channel in place so the caller may retry.
pub struct Producer {
    /// Handle of the shared connection this producer's channel lives on.
    pub connection: u64,
    pub exchange: String,
    pub queue: String,
    pub queue_options: QueueOptions,
    pub publish_options: PublishOptions,
    /// Handle of the cached channel, once one was opened.
    pub channel: Option<u64>,
}

impl Default for Producer {
    fn default() -> (p: Self)
        ensures
            p.connection == 0,
            p.exchange@ == ""@,
            p.queue@ == "/"@,
            p.queue_options == (QueueOptions { durable: false, exclusive: false, auto_delete: false }),
            p.publish_options == (PublishOptions { mandatory: false, immediate: false }),
            p.channel is None,
    {
        Producer {
            connection: 0,
            exchange: String::from_str(""),
            queue: String::from_str("/"),
            queue_options: QueueOptions::default(),
            publish_options: PublishOptions::default(),
            channel: None,
        }
    }
}

/// What a producer asks its driver to do next.
pub enum ProducerAction {
    /// Open a channel on the producer's connection and declare the routing
    /// queue on it.
    OpenChannel { queue: String, options: QueueOptions },
    /// Declare a fresh server-named correlation queue with the given
    /// options on the producer's channel.
    DeclareCorrQueue { options: QueueOptions },
    /// Publish a request whose reply destination is `reply_to`.
    PublishRequest { exchange: String, routing_key: String, reply_to: String, payload: Vec<u8> },
    /// Publish a plain message with no reply destination.
    PublishMessage { exchange: String, routing_key: String, payload: Vec<u8> },
    /// Wait, up to the configured bound, for one delivery on `queue`.
    AwaitReply { queue: String },
    /// Nothing more to do: the state is terminal.
    Complete,
}

/// What the driver reports back to a producer.
pub enum ProducerEvent {
    /// The channel was opened and the routing queue declared; `channel` is
    /// the driver's handle for it.
    ChannelReady { channel: u64 },
    /// Opening the channel or declaring the routing queue failed.
    ChannelFailed,
    /// The correlation queue was declared; `name` is the server-assigned,
    /// broker-unique queue name.
    CorrQueueReady { name: String },
    /// Declaring the correlation queue failed.
    CorrQueueFailed,
    /// The publish round trip completed.
    PublishDone,
    /// The publish round trip failed.
    PublishFailed,
    /// One delivery arrived on `queue` carrying `payload`.
    ReplyReceived { queue: String, payload: Vec<u8> },
    /// No reply arrived within the configured bound.
    ReplyTimedOut,
}

/// The state of one request/reply call.
pub enum RpcState {
    OpeningChannel { payload: Vec<u8> },
    DeclaringCorrQueue { payload: Vec<u8> },
    Publishing { corr_queue: String },
    AwaitingReply { corr_queue: String },
    /// The call completed; `reply` is the payload delivered on this call's
    /// own correlation queue.
    Succeeded { reply: Vec<u8> },
    Failed { error: Error },
}

/// The state of one fire-and-forget publish.
pub enum PublishState {
    OpeningChannel { payload: Vec<u8> },
    Publishing,
    Succeeded,
    Failed { error: Error },
}

/// The events a request/reply state is prepared to receive.
pub open spec fn rpc_expects(st: RpcState, ev: ProducerEvent) -> bool {
    match st {
        RpcState::OpeningChannel { .. } => ev is ChannelReady || ev is ChannelFailed,
        RpcState::DeclaringCorrQueue { .. } => ev is CorrQueueReady || ev is CorrQueueFailed,
        RpcState::Publishing { .. } => ev is PublishDone || ev is PublishFailed,
        RpcState::AwaitingReply { .. } => ev is ReplyReceived || ev is ReplyTimedOut,
        RpcState::Succeeded { .. } => false,
        RpcState::Failed { .. } => false,
    }
}

/// The transition function of a request/reply call: from the producer, the
/// call state and an event to the new producer, the new call state and the
/// next action.
pub open spec fn rpc_next(pre: Producer, st: RpcState, ev: ProducerEvent) -> (Producer, RpcState, ProducerAction) {
    match (st, ev) {
        (RpcState::OpeningChannel { payload }, ProducerEvent::ChannelReady { channel }) => (
            Producer { channel: Some(channel), ..pre },
            RpcState::DeclaringCorrQueue { payload },
            ProducerAction::DeclareCorrQueue { options: spec_correlation_options(pre.queue_options) },
        ),
        (RpcState::OpeningChannel { .. }, ProducerEvent::ChannelFailed) => (
            pre,
            RpcState::Failed { error: Error::PublishError },
            ProducerAction::Complete,
        ),
        (RpcState::DeclaringCorrQueue { payload }, ProducerEvent::CorrQueueReady { name }) => (
            pre,
            RpcState::Publishing { corr_queue: name },
            ProducerAction::PublishRequest {
                exchange: pre.exchange,
                routing_key: pre.queue,
                reply_to: name,
                payload,
            },
        ),
        (RpcState::DeclaringCorrQueue { .. }, ProducerEvent::CorrQueueFailed) => (
            pre,
            RpcState::Failed { error: Error::PublishError },
            ProducerAction::Complete,
        ),
        (RpcState::Publishing { corr_queue }, ProducerEvent::PublishDone) => (
            pre,
            RpcState::AwaitingReply { corr_queue },
            ProducerAction::AwaitReply { queue: corr_queue },
        ),
        (RpcState::Publishing { .. }, ProducerEvent::PublishFailed) => (
            pre,
            RpcState::Failed { error: Error::PublishError },
            ProducerAction::Complete,
        ),
        (RpcState::AwaitingReply { corr_queue }, ProducerEvent::ReplyReceived { queue, payload }) => (
            pre,
            if queue@ == corr_queue@ {
                RpcState::Succeeded { reply: payload }
            } else {
                RpcState::AwaitingReply { corr_queue }
            },
            if queue@ == corr_queue@ {
                ProducerAction::Complete
            } else {
                ProducerAction::AwaitReply { queue: corr_queue }
            },
        ),
        (RpcState::AwaitingReply { .. }, ProducerEvent::ReplyTimedOut) => (
            pre,
            RpcState::Failed { error: Error::RpcTimeout },
            ProducerAction::Complete,
        ),
        (st, _) => (pre, st, ProducerAction::Complete),
    }
}

/// The events a fire-and-forget publish state is prepared to receive.
pub open spec fn publish_expects(st: PublishState, ev: ProducerEvent) -> bool {
    match st {
        PublishState::OpeningChannel { .. } => ev is ChannelReady || ev is ChannelFailed,
        PublishState::Publishing { .. } => ev is PublishDone || ev is PublishFailed,
        PublishState::Succeeded => false,
        PublishState::Failed { .. } => false,
    }
}

/// The transition function of a fire-and-forget publish.
pub open spec fn publish_next(pre: Producer, st: PublishState, ev: ProducerEvent) -> (Producer, PublishState, ProducerAction) {
    match (st, ev) {
        (PublishState::OpeningChannel { payload }, ProducerEvent::ChannelReady { channel }) => (
            Producer { channel: Some(channel), ..pre },
            PublishState::Publishing,
            ProducerAction::PublishMessage {
                exchange: pre.exchange,
                routing_key: pre.queue,
                payload,
            },
        ),
        (PublishState::OpeningChannel { .. }, ProducerEvent::ChannelFailed) => (
            pre,
            PublishState::Failed { error: Error::PublishError },
            ProducerAction::Complete,
        ),
        (PublishState::Publishing { .. }, ProducerEvent::PublishDone) => (
            pre,
            PublishState::Succeeded,
            ProducerAction::Complete,
        ),
        (PublishState::Publishing { .. }, ProducerEvent::PublishFailed) => (
            pre,
            PublishState::Failed { error: Error::PublishError },
            ProducerAction::Complete,
        ),
        (st, _) => (pre, st, ProducerAction::Complete),
    }
}

impl Producer {
    /// A producer over the given connection handle and routing queue, with
    /// the default exchange and options and no channel yet.
    pub fn new(connection: u64, queue: String) -> (p: Self)
        ensures
            p.connection == connection,
            p.queue == queue,
            p.exchange@ == ""@,
            p.queue_options == (QueueOptions { durable: false, exclusive: false, auto_delete: false }),
            p.publish_options == (PublishOptions { mandatory: false, immediate: false }),
            p.channel is None,
    {
        Producer { connection, queue, ..Producer::default() }
    }

    /// Begin a request/reply call for `payload`.
    ///
    /// With a cached channel the call goes straight to declaring its
    /// correlation queue; otherwise a channel is opened first.  The
    /// producer itself is not changed here.
    pub fn rpc(&mut self, payload: Vec<u8>) -> (r: (RpcState, ProducerAction))
        ensures
            *final(self) == *old(self),
            old(self).channel is Some ==> r.0 == (RpcState::DeclaringCorrQueue { payload })
                && r.1 == (ProducerAction::DeclareCorrQueue {
                    options: spec_correlation_options(old(self).queue_options),
                }),
            old(self).channel is None ==> r.0 == (RpcState::OpeningChannel { payload })
                && r.1 == (ProducerAction::OpenChannel {
                    queue: old(self).queue,
                    options: old(self).queue_options,
                }),
    {
        match &self.channel {
            Some(_) => (
                RpcState::DeclaringCorrQueue { payload },
                ProducerAction::DeclareCorrQueue { options: correlation_options(&self.queue_options) },
            ),
            None => (
                RpcState::OpeningChannel { payload },
                ProducerAction::OpenChannel { queue: self.queue.clone(), options: self.queue_options },
            ),
        }
    }

    /// Advance a request/reply call by one event.
    pub fn rpc_step(&mut self, state: RpcState, event: ProducerEvent) -> (r: (RpcState, ProducerAction))
        requires
            rpc_expects(state, event),
        ensures
            (*final(self), r.0, r.1) == rpc_next(*old(self), state, event),
    {
        match (state, event) {
            (RpcState::OpeningChannel { payload }, ProducerEvent::ChannelReady { channel }) => {
                self.channel = Some(channel);
                (
                    RpcState::DeclaringCorrQueue { payload },
                    ProducerAction::DeclareCorrQueue {
                        options: correlation_options(&self.queue_options),
                    },
                )
            },
            (RpcState::OpeningChannel { .. }, ProducerEvent::ChannelFailed) => (
                RpcState::Failed { error: Error::PublishError },
                ProducerAction::Complete,
            ),
            (RpcState::DeclaringCorrQueue { payload }, ProducerEvent::CorrQueueReady { name }) => (
                RpcState::Publishing { corr_queue: name.clone() },
                ProducerAction::PublishRequest {
                    exchange: self.exchange.clone(),
                    routing_key: self.queue.clone(),
                    reply_to: name,
                    payload,
                },
            ),
            (RpcState::DeclaringCorrQueue { .. }, ProducerEvent::CorrQueueFailed) => (
                RpcState::Failed { error: Error::PublishError },
                ProducerAction::Complete,
            ),
            (RpcState::Publishing { corr_queue }, ProducerEvent::PublishDone) => (
                RpcState::AwaitingReply { corr_queue: corr_queue.clone() },
                ProducerAction::AwaitReply { queue: corr_queue },
            ),
            (RpcState::Publishing { .. }, ProducerEvent::PublishFailed) => (
                RpcState::Failed { error: Error::PublishError },
                ProducerAction::Complete,
            ),
            (RpcState::AwaitingReply { corr_queue }, ProducerEvent::ReplyReceived { queue, payload }) => {
                if queue == corr_queue {
                    (RpcState::Succeeded { reply: payload }, ProducerAction::Complete)
                } else {
                    (
                        RpcState::AwaitingReply { corr_queue: corr_queue.clone() },
                        ProducerAction::AwaitReply { queue: corr_queue },
                    )
                }
            },
            (RpcState::AwaitingReply { .. }, ProducerEvent::ReplyTimedOut) => (
                RpcState::Failed { error: Error::RpcTimeout },
                ProducerAction::Complete,
            ),
            (st, _) => (st, ProducerAction::Complete),
        }
    }

    /// Begin a fire-and-forget publish of `payload`.
    pub fn publish(&mut self, payload: Vec<u8>) -> (r: (PublishState, ProducerAction))
        ensures
            *final(self) == *old(self),
            old(self).channel is Some ==> r.0 == (PublishState::Publishing)
                && r.1 == (ProducerAction::PublishMessage {
                    exchange: old(self).exchange,
                    routing_key: old(self).queue,
                    payload,
                }),
            old(self).channel is None ==> r.0 == (PublishState::OpeningChannel { payload })
                && r.1 == (ProducerAction::OpenChannel {
                    queue: old(self).queue,
                    options: old(self).queue_options,
                }),
    {
        match &self.channel {
            Some(_) => (
                PublishState::Publishing,
                ProducerAction::PublishMessage {
                    exchange: self.exchange.clone(),
                    routing_key: self.queue.clone(),
                    payload,
                },
            ),
            None => (
                PublishState::OpeningChannel { payload },
                ProducerAction::OpenChannel { queue: self.queue.clone(), options: self.queue_options },
            ),
        }
    }

    /// Advance a fire-and-forget publish by one event.
    pub fn publish_step(&mut self, state: PublishState, event: ProducerEvent) -> (r: (PublishState, ProducerAction))
        requires
            publish_expects(state, event),
        ensures
            (*final(self), r.0, r.1) == publish_next(*old(self), state, event),
    {
        match (state, event) {
            (PublishState::OpeningChannel { payload }, ProducerEvent::ChannelReady { channel }) => {
                self.channel = Some(channel);
                (
                    PublishState::Publishing,
                    ProducerAction::PublishMessage {
                        exchange: self.exchange.clone(),
                        routing_key: self.queue.clone(),
                        payload,
                    },
                )
            },
            (PublishState::OpeningChannel { .. }, ProducerEvent::ChannelFailed) => (
                PublishState::Failed { error: Error::PublishError },
                ProducerAction::Complete,
            ),
            (PublishState::Publishing { .. }, ProducerEvent::PublishDone) => (
                PublishState::Succeeded,
                ProducerAction::Complete,
            ),
            (PublishState::Publishing { .. }, ProducerEvent::PublishFailed) => (
                PublishState::Failed { error: Error::PublishError },
                ProducerAction::Complete,
            ),
            (st, _) => (st, ProducerAction::Complete),
        }
    }
}

/// A call awaiting its reply accepts a delivery only from its own
/// correlation queue, so two calls with distinct correlation queues can
/// never both accept one delivery: concurrent calls on one producer do not
/// observe each other's replies.
pub proof fn lemma_rpc_reply_isolation(
    pre1: Producer,
    st1: RpcState,
    pre2: Producer,
    st2: RpcState,
    ev: ProducerEvent,
)
    requires
        st1 matches RpcState::AwaitingReply { corr_queue: c1 } && st2 matches RpcState::AwaitingReply { corr_queue: c2 } && c1@ != c2@,
        ev is ReplyReceived,
    ensures
        !(rpc_next(pre1, st1, ev).1 is Succeeded && rpc_next(pre2, st2, ev).1 is Succeeded),
{
}

/// A delivery addressed to any other queue leaves a waiting call exactly
/// as it was: still waiting on its own correlation queue, with the
/// producer untouched, asking its driver to keep listening there.
pub proof fn lemma_rpc_ignores_foreign_reply(
    pre: Producer,
    st: RpcState,
    queue: String,
    payload: Vec<u8>,
)
    requires
        st matches RpcState::AwaitingReply { corr_queue } && corr_queue@ != queue@,
    ensures
        ({
            let ev = ProducerEvent::ReplyReceived { queue, payload };
            &&& rpc_next(pre, st, ev).0 == pre
            &&& rpc_next(pre, st, ev).1 == st
            &&& st matches RpcState::AwaitingReply { corr_queue }
                ==> rpc_next(pre, st, ev).2 == (ProducerAction::AwaitReply { queue: corr_queue })
        }),
{
}

/// A call completes successfully only by a reply addressed to its own
/// correlation queue, and the reply it returns is that delivery's payload.
pub proof fn lemma_rpc_success_needs_matching_reply(
    pre: Producer,
    st: RpcState,
    ev: ProducerEvent,
)
    requires
        rpc_expects(st, ev),
        rpc_next(pre, st, ev).1 is Succeeded,
    ensures
        st matches RpcState::AwaitingReply { corr_queue } ==> (ev matches ProducerEvent::ReplyReceived { queue, payload } && queue@ == corr_queue@ && rpc_next(pre, st, ev).1 == (RpcState::Succeeded { reply: payload })),
        st is AwaitingReply,
{
}

/// A call that times out waiting for its reply fails with `RpcTimeout` and
/// nothing else; the producer itself, its cached channel too, is left
/// as it was.
pub proof fn lemma_rpc_timeout(pre: Producer, st: RpcState)
    requires
        st is AwaitingReply,
    ensures
        rpc_next(pre, st, ProducerEvent::ReplyTimedOut).1 == (RpcState::Failed { error: Error::RpcTimeout }),
        rpc_next(pre, st, ProducerEvent::ReplyTimedOut).0 == pre,
{
}

/// The request of a call is published with the correlation queue declared
/// by that same call as its reply destination: the declaration precedes the
/// publish, and the call then waits on exactly that queue.
pub proof fn lemma_rpc_fresh_reply_destination(pre: Producer, st: RpcState, ev: ProducerEvent)
    requires
        rpc_next(pre, st, ev).2 is PublishRequest,
    ensures
        st is DeclaringCorrQueue,
        ev matches ProducerEvent::CorrQueueReady { name } ==> {
            &&& rpc_next(pre, st, ev).2 matches ProducerAction::PublishRequest { reply_to, .. }
                && reply_to == name
            &&& rpc_next(pre, st, ev).1 matches RpcState::Publishing { corr_queue, .. }
                && corr_queue == name
        },
{
}

/// No step of a call changes the producer's configuration, and the cached
/// channel changes only when a freshly opened channel is recorded; in
/// particular every failure leaves the cached channel in place.
pub proof fn lemma_rpc_preserves_producer(pre: Producer, st: RpcState, ev: ProducerEvent)
    ensures
        ({
            let post = rpc_next(pre, st, ev).0;
            &&& post.connection == pre.connection
            &&& post.exchange == pre.exchange
            &&& post.queue == pre.queue
            &&& post.queue_options == pre.queue_options
            &&& post.publish_options == pre.publish_options
            &&& (post.channel == pre.channel || (ev matches ProducerEvent::ChannelReady { channel } && post.channel == Some(channel)))
            &&& (rpc_next(pre, st, ev).1 is Failed ==> post.channel == pre.channel || pre.channel is None)
        }),
{
}

/// The publish counterpart of [`lemma_rpc_preserves_producer`]: a failed
/// publish leaves the cached channel in place, so the caller may retry.
pub proof fn lemma_publish_preserves_producer(pre: Producer, st: PublishState, ev: ProducerEvent)
    ensures
        ({
            let post = publish_next(pre, st, ev).0;
            &&& post.connection == pre.connection
            &&& post.exchange == pre.exchange
            &&& post.queue == pre.queue
            &&& post.queue_options == pre.queue_options
            &&& post.publish_options == pre.publish_options
            &&& (post.channel == pre.channel || (ev matches ProducerEvent::ChannelReady { channel } && post.channel == Some(channel)))
            &&& (publish_next(pre, st, ev).1 is Failed ==> post.channel == pre.channel)
        }),
{
}

} // verus!

