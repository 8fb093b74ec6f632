use rustmq::config::QueueOptions;
use rustmq::consume::{ConsumerBuilder, ConsumerPhase};
use rustmq::produce::ProducerBuilder;

#[test]
fn producer_builder_defaults() {
    let b = ProducerBuilder::new(7);
    assert_eq!(b.connection, 7);
    assert_eq!(b.exchange, "");
    assert_eq!(b.queue, "/");
    assert!(!b.queue_options.durable);
    assert!(!b.queue_options.exclusive);
    assert!(!b.queue_options.auto_delete);
    assert!(!b.publish_options.mandatory);
    assert!(!b.publish_options.immediate);
}

#[test]
fn producer_builder_clone_is_independent() {
    let mut base = ProducerBuilder::new(0);
    base.with_queue(String::from("request"));
    let mut clone = base.clone();
    clone.with_queue(String::from("other"));
    assert_eq!(base.queue, "request");
    assert_eq!(clone.queue, "other");
    assert_eq!(clone.connection, base.connection);
    assert_eq!(clone.exchange, base.exchange);
}

#[test]
fn producer_builder_builds_lazy_producer() {
    let mut b = ProducerBuilder::new(3);
    b.with_queue(String::from("request"));
    let p = b.build();
    assert_eq!(p.connection, 3);
    assert_eq!(p.queue, "request");
    assert_eq!(p.exchange, "");
    assert!(p.channel.is_none());
}

#[test]
fn consumer_builder_clone_is_independent() {
    let base = ConsumerBuilder::new(1);
    let mut clone = base.clone();
    clone.with_queue_options(QueueOptions { durable: true, exclusive: false, auto_delete: true });
    assert!(!base.queue_options.durable);
    assert!(!base.queue_options.auto_delete);
    assert!(clone.queue_options.durable);
    assert!(clone.queue_options.auto_delete);
    assert_eq!(clone.connection, base.connection);
}

#[test]
fn consumer_builder_binds_fresh_consumer() {
    let b = ConsumerBuilder::new(2);
    let c = b.consumer("echo");
    assert_eq!(c.queue, "echo");
    assert_eq!(c.acked, 0);
    assert!(matches!(c.phase, ConsumerPhase::Awaiting));
}
