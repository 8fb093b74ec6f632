//! The consumer side: pulling deliveries from a subscription, answering
//! requests or handing plain messages to the caller, and acknowledging each
//! delivery only after its answer or handling completed.
//!
//! Like the producer, a consumer does not talk to the broker itself.  The
//! driver pulls the next delivery (or the end of the stream) and feeds it in
//! as a [`ConsumerEvent`]; the machine answers with the [`ConsumerAction`]
//! to perform next.  The acknowledgement discipline — one delivery in
//! flight, acked in arrival order, and never before its answer-publish or
//! handler invocation finished — is proved over the transition function.

use vstd::prelude::*;
use vstd::string::StringExecFns;
use crate::config::QueueOptions;
use crate::envelope::{Envelope, spec_decode, decode};
use crate::error::Error;

verus! {

/// One message instance received from a subscription, paired with the tag
/// that acknowledges it.
pub struct Delivery {
    pub delivery_tag: u64,
    /// The reply destination, present exactly when the delivery is a
    /// request expecting an answer.
    pub reply_to: Option<String>,
    pub data: Vec<u8>,
}

/// Where a consumer stands between two events.
#[derive(Clone, Copy, Debug)]
pub enum ConsumerPhase {
    /// Ready for the next delivery or the end of the stream.
    Awaiting,
    /// A request is being answered; its delivery is not yet acknowledged.
    Answering { tag: u64 },
    /// A plain message is being handled; its delivery is not yet
    /// acknowledged.
    Handling { tag: u64 },
    /// The answered or handled delivery is being acknowledged.
    Acking { tag: u64 },
    /// A malformed delivery is being acknowledged; once the ack went
    /// through, the run stops with `DecodeError` so the failure is never
    /// silently dropped, while the ack keeps the broker from redelivering
    /// the poison message forever.
    AckingPoisoned { tag: u64 },
    /// The run is over: with no error when the broker closed the stream,
    /// with the first error encountered otherwise.
    Closed { failure: Option<Error> },
}

/// What the driver reports to a consumer.
pub enum ConsumerEvent {
    /// The subscription yielded a delivery.
    Delivered { delivery: Delivery },
    /// The subscription ended: the broker closed it.
    StreamEnded,
    /// The answer-publish for the current request completed.
    AnswerPublished,
    /// The answer-publish for the current request failed.
    AnswerFailed,
    /// The caller-supplied handling of the current message completed.
    Handled,
    /// The pending acknowledgement completed.
    AckSucceeded,
    /// The pending acknowledgement failed.
    AckFailed,
}

/// What a consumer asks its driver to do next.
pub enum ConsumerAction {
    /// Pull the next delivery from the subscription.
    AwaitNext,
    /// Publish an answer for `request` to `destination` on this consumer's
    /// own channel.
    PublishAnswer { destination: String, request: Envelope },
    /// Hand `message` to the caller-supplied handling logic.
    HandleMessage { message: Envelope },
    /// Positively acknowledge the delivery with tag `tag`.
    Ack { tag: u64 },
    /// The run is over with the given failure, if any.
    Stop { failure: Option<Error> },
}

/// A consumer bound to one queue, with its dispatch state and the count of
/// deliveries acknowledged so far.
pub struct Consumer {
    pub queue: String,
    pub phase: ConsumerPhase,
    pub acked: u64,
}

/// A non-consuming builder of [`Consumer`]s.
pub struct ConsumerBuilder {
    /// Handle of the shared connection every built consumer subscribes on.
    pub connection: u64,
    pub queue_options: QueueOptions,
}

/// The builder value after its queue options are replaced.
pub open spec fn spec_with_queue_options(b: ConsumerBuilder, options: QueueOptions) -> ConsumerBuilder {
    ConsumerBuilder { queue_options: options, ..b }
}

impl Clone for ConsumerBuilder {
    fn clone(&self) -> (r: Self)
        ensures
            r == *self,
    {
        ConsumerBuilder { connection: self.connection, queue_options: self.queue_options }
    }
}

impl ConsumerBuilder {
    /// A builder over the given connection handle with default queue
    /// options.
    pub fn new(connection: u64) -> (b: Self)
        ensures
            b.connection == connection,
            b.queue_options == (QueueOptions { durable: false, exclusive: false, auto_delete: false }),
    {
        ConsumerBuilder { connection, queue_options: QueueOptions::default() }
    }

    /// Replace the queue options; the connection handle is kept.
    pub fn with_queue_options(&mut self, options: QueueOptions)
        ensures
            *final(self) == spec_with_queue_options(*old(self), options),
    {
        self.queue_options = options;
    }

    /// Bind a consumer to the named queue.  The driver declares the queue
    /// with this builder's options and opens the subscription; the machine
    /// starts ready for its first delivery with nothing acknowledged.
    pub fn consumer(&self, queue: &str) -> (c: Consumer)
        ensures
            c.queue@ == queue@,
            c.phase is Awaiting,
            c.acked == 0,
    {
        Consumer { queue: String::from_str(queue), phase: ConsumerPhase::Awaiting, acked: 0 }
    }
}

/// Builder clones are independent: replacing the queue options of a clone
/// yields a configuration that differs from the original in the options
/// alone, and the original builder is untouched.
pub proof fn lemma_consumer_clone_with_options_independent(
    original: ConsumerBuilder,
    cloned: ConsumerBuilder,
    options: QueueOptions,
)
    requires
        cloned == original,
    ensures
        spec_with_queue_options(cloned, options).queue_options == options,
        spec_with_queue_options(cloned, options).connection == original.connection,
{
}

/// The events a consumer phase is prepared to receive.
pub open spec fn consumer_expects(c: Consumer, ev: ConsumerEvent) -> bool {
    match c.phase {
        ConsumerPhase::Awaiting => ev is Delivered || ev is StreamEnded,
        ConsumerPhase::Answering { .. } => ev is AnswerPublished || ev is AnswerFailed,
        ConsumerPhase::Handling { .. } => ev is Handled,
        ConsumerPhase::Acking { .. } => (ev is AckSucceeded && c.acked < u64::MAX) || ev is AckFailed,
        ConsumerPhase::AckingPoisoned { .. } => (ev is AckSucceeded && c.acked < u64::MAX) || ev is AckFailed,
        ConsumerPhase::Closed { .. } => false,
    }
}

/// The transition relation of a consumer: from the machine and an event to
/// the new machine and the next action.  It is a relation only because the
/// envelope handed out for a well-formed delivery is any executable value
/// of the decoded message; every other component is determined.
pub open spec fn consumer_trans(pre: Consumer, ev: ConsumerEvent, post: Consumer, act: ConsumerAction) -> bool {
    match (pre.phase, ev) {
        (ConsumerPhase::Awaiting, ConsumerEvent::Delivered { delivery }) => {
            &&& post.queue == pre.queue
            &&& post.acked == pre.acked
            &&& match spec_decode(delivery.data@) {
                Option::None => {
                    &&& post.phase == (ConsumerPhase::AckingPoisoned { tag: delivery.delivery_tag })
                    &&& act == (ConsumerAction::Ack { tag: delivery.delivery_tag })
                },
                Option::Some(m) => match delivery.reply_to {
                    Option::Some(destination) => {
                        &&& post.phase == (ConsumerPhase::Answering { tag: delivery.delivery_tag })
                        &&& act matches ConsumerAction::PublishAnswer { destination: d, request }
                            && d == destination && request@ == m
                    },
                    Option::None => {
                        &&& post.phase == (ConsumerPhase::Handling { tag: delivery.delivery_tag })
                        &&& act matches ConsumerAction::HandleMessage { message } && message@ == m
                    },
                },
            }
        },
        (ConsumerPhase::Awaiting, ConsumerEvent::StreamEnded) => {
            &&& post == (Consumer { phase: ConsumerPhase::Closed { failure: None }, ..pre })
            &&& act == (ConsumerAction::Stop { failure: None })
        },
        (ConsumerPhase::Answering { tag }, ConsumerEvent::AnswerPublished) => {
            &&& post == (Consumer { phase: ConsumerPhase::Acking { tag }, ..pre })
            &&& act == (ConsumerAction::Ack { tag })
        },
        (ConsumerPhase::Answering { .. }, ConsumerEvent::AnswerFailed) => {
            &&& post == (Consumer { phase: ConsumerPhase::Closed { failure: Some(Error::PublishError) }, ..pre })
            &&& act == (ConsumerAction::Stop { failure: Some(Error::PublishError) })
        },
        (ConsumerPhase::Handling { tag }, ConsumerEvent::Handled) => {
            &&& post == (Consumer { phase: ConsumerPhase::Acking { tag }, ..pre })
            &&& act == (ConsumerAction::Ack { tag })
        },
        (ConsumerPhase::Acking { .. }, ConsumerEvent::AckSucceeded) => {
            &&& post == (Consumer { phase: ConsumerPhase::Awaiting, acked: (pre.acked + 1) as u64, ..pre })
            &&& act == (ConsumerAction::AwaitNext)
        },
        (ConsumerPhase::Acking { .. }, ConsumerEvent::AckFailed) => {
            &&& post == (Consumer { phase: ConsumerPhase::Closed { failure: Some(Error::AckError) }, ..pre })
            &&& act == (ConsumerAction::Stop { failure: Some(Error::AckError) })
        },
        (ConsumerPhase::AckingPoisoned { .. }, ConsumerEvent::AckSucceeded) => {
            &&& post == (Consumer {
                phase: ConsumerPhase::Closed { failure: Some(Error::DecodeError) },
                acked: (pre.acked + 1) as u64,
                ..pre
            })
            &&& act == (ConsumerAction::Stop { failure: Some(Error::DecodeError) })
        },
        (ConsumerPhase::AckingPoisoned { .. }, ConsumerEvent::AckFailed) => {
            &&& post == (Consumer { phase: ConsumerPhase::Closed { failure: Some(Error::DecodeError) }, ..pre })
            &&& act == (ConsumerAction::Stop { failure: Some(Error::DecodeError) })
        },
        _ => false,
    }
}

impl Consumer {
    /// Advance the run loop by one event.
    ///
    /// This is the whole of the loop's decision logic: dispatching a
    /// delivery to the answer or the handling path, acknowledging after
    /// either completed, counting the acknowledgement, stopping cleanly
    /// when the stream ends and stopping with the first error otherwise.
    pub fn run(&mut self, event: ConsumerEvent) -> (act: ConsumerAction)
        requires
            consumer_expects(*old(self), event),
        ensures
            consumer_trans(*old(self), event, *final(self), act),
    {
        match (self.phase, event) {
            (ConsumerPhase::Awaiting, ConsumerEvent::Delivered { delivery }) => {
                let Delivery { delivery_tag, reply_to, data } = delivery;
                match decode(data.as_slice()) {
                    Err(_) => {
                        self.phase = ConsumerPhase::AckingPoisoned { tag: delivery_tag };
                        ConsumerAction::Ack { tag: delivery_tag }
                    },
                    Ok(message) => match reply_to {
                        Some(destination) => {
                            self.phase = ConsumerPhase::Answering { tag: delivery_tag };
                            ConsumerAction::PublishAnswer { destination, request: message }
                        },
                        None => {
                            self.phase = ConsumerPhase::Handling { tag: delivery_tag };
                            ConsumerAction::HandleMessage { message }
                        },
                    },
                }
            },
            (ConsumerPhase::Awaiting, ConsumerEvent::StreamEnded) => {
                self.phase = ConsumerPhase::Closed { failure: None };
                ConsumerAction::Stop { failure: None }
            },
            (ConsumerPhase::Answering { tag }, ConsumerEvent::AnswerPublished) => {
                self.phase = ConsumerPhase::Acking { tag };
                ConsumerAction::Ack { tag }
            },
            (ConsumerPhase::Answering { .. }, ConsumerEvent::AnswerFailed) => {
                self.phase = ConsumerPhase::Closed { failure: Some(Error::PublishError) };
                ConsumerAction::Stop { failure: Some(Error::PublishError) }
            },
            (ConsumerPhase::Handling { tag }, ConsumerEvent::Handled) => {
                self.phase = ConsumerPhase::Acking { tag };
                ConsumerAction::Ack { tag }
            },
            (ConsumerPhase::Acking { .. }, ConsumerEvent::AckSucceeded) => {
                self.phase = ConsumerPhase::Awaiting;
                self.acked = self.acked + 1;
                ConsumerAction::AwaitNext
            },
            (ConsumerPhase::Acking { .. }, ConsumerEvent::AckFailed) => {
                self.phase = ConsumerPhase::Closed { failure: Some(Error::AckError) };
                ConsumerAction::Stop { failure: Some(Error::AckError) }
            },
            (ConsumerPhase::AckingPoisoned { .. }, ConsumerEvent::AckSucceeded) => {
                self.phase = ConsumerPhase::Closed { failure: Some(Error::DecodeError) };
                self.acked = self.acked + 1;
                ConsumerAction::Stop { failure: Some(Error::DecodeError) }
            },
            (ConsumerPhase::AckingPoisoned { .. }, ConsumerEvent::AckFailed) => {
                self.phase = ConsumerPhase::Closed { failure: Some(Error::DecodeError) };
                ConsumerAction::Stop { failure: Some(Error::DecodeError) }
            },
            (_, _) => ConsumerAction::AwaitNext,
        }
    }

    /// The answer path's publish: what a consumer asks of its driver to
    /// answer a request on the consumer's own channel.  The destination is
    /// the reply queue named by the request's delivery.
    pub fn publish(&self, destination: String, answer: Envelope) -> (act: ConsumerAction)
        ensures
            act == (ConsumerAction::PublishAnswer { destination, request: answer }),
    {
        ConsumerAction::PublishAnswer { destination, request: answer }
    }
}

/// A consumer never acknowledges a delivery before completing the
/// corresponding answer-publish or handler invocation: an `Ack` for a tag
/// is emitted only right after the answer for that tag was published, the
/// handling of that tag's message finished, or — for a malformed delivery,
/// which owes neither — immediately on its arrival.
pub proof fn lemma_no_ack_before_completion(pre: Consumer, ev: ConsumerEvent, post: Consumer, act: ConsumerAction)
    requires
        consumer_trans(pre, ev, post, act),
        act matches ConsumerAction::Ack { .. },
    ensures
        act matches ConsumerAction::Ack { tag } ==> {
            ||| pre.phase == (ConsumerPhase::Answering { tag }) && ev is AnswerPublished
            ||| pre.phase == (ConsumerPhase::Handling { tag }) && ev is Handled
            ||| (pre.phase is Awaiting && (ev matches ConsumerEvent::Delivered { delivery }
                && delivery.delivery_tag == tag && spec_decode(delivery.data@) is None))
        },
{
}

/// The acknowledgement count grows by one exactly on a successful ack and
/// never otherwise, so a finished run acknowledged exactly as many
/// deliveries as acks that went through.
pub proof fn lemma_acked_counts_successful_acks(pre: Consumer, ev: ConsumerEvent, post: Consumer, act: ConsumerAction)
    requires
        consumer_trans(pre, ev, post, act),
        pre.acked < u64::MAX,
    ensures
        ev is AckSucceeded ==> post.acked == pre.acked + 1,
        !(ev is AckSucceeded) ==> post.acked == pre.acked,
{
}

/// A consumer takes in a new delivery only while nothing else is in
/// flight: deliveries are dispatched and acknowledged strictly one at a
/// time, in the order the subscription yields them.
pub proof fn lemma_one_delivery_in_flight(c: Consumer, ev: ConsumerEvent)
    requires
        consumer_expects(c, ev),
        ev is Delivered,
    ensures
        c.phase is Awaiting,
{
}

/// One whole run of a consumer: a chain of machine states in which every
/// step is a transition on the event received and the action asked for.
pub open spec fn consumer_run_trace(
    states: Seq<Consumer>,
    events: Seq<ConsumerEvent>,
    acts: Seq<ConsumerAction>,
) -> bool {
    &&& states.len() == events.len() + 1
    &&& acts.len() == events.len()
    &&& forall|i: int|
        0 <= i < events.len() ==> consumer_trans(states[i], events[i], states[i + 1], acts[i])
}

/// How many acknowledgements went through in a run.
pub open spec fn spec_successful_acks(events: Seq<ConsumerEvent>) -> int
    decreases events.len(),
{
    if events.len() == 0 {
        0
    } else {
        spec_successful_acks(events.drop_last()) + if events.last() is AckSucceeded {
            1int
        } else {
            0int
        }
    }
}

/// A run cannot acknowledge more often than it received events.
pub proof fn lemma_successful_acks_bound(events: Seq<ConsumerEvent>)
    ensures
        0 <= spec_successful_acks(events) <= events.len(),
    decreases events.len(),
{
    if events.len() > 0 {
        lemma_successful_acks_bound(events.drop_last());
    }
}

/// Over any whole run, the machine's count is exactly the number of
/// acknowledgements that went through: a run over a stream of `n`
/// deliveries, each answered or handled and then acknowledged, ends having
/// acknowledged exactly `n` — not more, not fewer.
pub proof fn lemma_run_counts_every_ack(
    states: Seq<Consumer>,
    events: Seq<ConsumerEvent>,
    acts: Seq<ConsumerAction>,
)
    requires
        consumer_run_trace(states, events, acts),
        states[0].acked + events.len() <= u64::MAX,
    ensures
        states.last().acked == states[0].acked + spec_successful_acks(events),
    decreases events.len(),
{
    if events.len() > 0 {
        let n = events.len() as int;
        let states2 = states.drop_last();
        let events2 = events.drop_last();
        let acts2 = acts.drop_last();
        assert(consumer_run_trace(states2, events2, acts2));
        lemma_run_counts_every_ack(states2, events2, acts2);
        lemma_successful_acks_bound(events2);
        assert(states2.last() == states[n - 1]);
        lemma_acked_counts_successful_acks(states[n - 1], events[n - 1], states[n], acts[n - 1]);
    }
}

/// The whole-run form of [`lemma_no_ack_before_completion`]: in any run,
/// every acknowledgement the machine asks for comes in the very step in
/// which the work owed for that delivery was reported complete.
pub proof fn lemma_trace_no_early_ack(
    states: Seq<Consumer>,
    events: Seq<ConsumerEvent>,
    acts: Seq<ConsumerAction>,
    i: int,
)
    requires
        consumer_run_trace(states, events, acts),
        0 <= i < acts.len(),
        acts[i] matches ConsumerAction::Ack { .. },
    ensures
        acts[i] matches ConsumerAction::Ack { tag } ==> {
            ||| states[i].phase == (ConsumerPhase::Answering { tag }) && events[i] is AnswerPublished
            ||| states[i].phase == (ConsumerPhase::Handling { tag }) && events[i] is Handled
            ||| (states[i].phase is Awaiting && (events[i] matches ConsumerEvent::Delivered { delivery }
                && delivery.delivery_tag == tag && spec_decode(delivery.data@) is None))
        },
{
    lemma_no_ack_before_completion(states[i], events[i], states[i + 1], acts[i]);
}

/// When the broker closes the stream on a consumer that owes nothing, the
/// run ends cleanly: no failure, and the acknowledgement count untouched.
pub proof fn lemma_stream_end_is_clean(pre: Consumer, post: Consumer, act: ConsumerAction)
    requires
        pre.phase is Awaiting,
        consumer_trans(pre, ConsumerEvent::StreamEnded, post, act),
    ensures
        post.phase == (ConsumerPhase::Closed { failure: None }),
        post.acked == pre.acked,
        act == (ConsumerAction::Stop { failure: None }),
{
}

} // verus!
