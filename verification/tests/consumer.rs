use rustmq::consume::{
    Consumer, ConsumerAction, ConsumerBuilder, ConsumerEvent, ConsumerPhase, Delivery,
};
use rustmq::envelope::{encode, Envelope, MessageType};
use rustmq::error::Error;

fn plain_delivery(tag: u64, text: &[u8]) -> Delivery {
    let data = encode(&Envelope { id: tag, msg_type: MessageType::Hello, text: text.to_vec() });
    Delivery { delivery_tag: tag, reply_to: None, data }
}

fn request_delivery(tag: u64, reply_to: &str, text: &[u8]) -> Delivery {
    let data = encode(&Envelope { id: tag, msg_type: MessageType::Hello, text: text.to_vec() });
    Delivery { delivery_tag: tag, reply_to: Some(String::from(reply_to)), data }
}

#[test]
fn run_acks_exactly_three_deliveries_then_ends_cleanly() {
    let mut c = ConsumerBuilder::new(0).consumer("work");
    for tag in 1..=3u64 {
        let act = c.run(ConsumerEvent::Delivered { delivery: plain_delivery(tag, b"m") });
        assert!(matches!(act, ConsumerAction::HandleMessage { .. }));
        let act = c.run(ConsumerEvent::Handled);
        assert!(matches!(act, ConsumerAction::Ack { tag: t } if t == tag));
        let act = c.run(ConsumerEvent::AckSucceeded);
        assert!(matches!(act, ConsumerAction::AwaitNext));
    }
    let act = c.run(ConsumerEvent::StreamEnded);
    assert!(matches!(act, ConsumerAction::Stop { failure: None }));
    assert!(matches!(c.phase, ConsumerPhase::Closed { failure: None }));
    assert_eq!(c.acked, 3);
}

#[test]
fn ack_comes_only_after_completion() {
    // An instrumented run: record every action the consumer asks for, and
    // check that each ack is asked for only right after the answer or the
    // handling of that same delivery completed.
    let mut c = ConsumerBuilder::new(0).consumer("work");
    let mut log: Vec<(String, u64)> = Vec::new();

    let script = [
        (request_delivery(1, "amq.gen-9", b"req"), ConsumerEvent::AnswerPublished),
        (plain_delivery(2, b"plain"), ConsumerEvent::Handled),
    ];
    for (delivery, completion) in script {
        let tag = delivery.delivery_tag;
        let act = c.run(ConsumerEvent::Delivered { delivery });
        match act {
            ConsumerAction::PublishAnswer { .. } => log.push((String::from("answered"), tag)),
            ConsumerAction::HandleMessage { .. } => log.push((String::from("handled"), tag)),
            _ => panic!("expected the delivery to be dispatched before any ack"),
        }
        let act = c.run(completion);
        match act {
            ConsumerAction::Ack { tag: t } => log.push((String::from("acked"), t)),
            _ => panic!("expected an ack after completion"),
        }
        let act = c.run(ConsumerEvent::AckSucceeded);
        assert!(matches!(act, ConsumerAction::AwaitNext));
    }

    for (i, (what, tag)) in log.iter().enumerate() {
        if what == "acked" {
            let (before, t) = &log[i - 1];
            assert!(before == "answered" || before == "handled");
            assert_eq!(t, tag);
        }
    }
    assert_eq!(c.acked, 2);
}

#[test]
fn request_is_answered_to_its_reply_queue() {
    let mut c = ConsumerBuilder::new(0).consumer("echo");
    let act = c.run(ConsumerEvent::Delivered { delivery: request_delivery(5, "amq.gen-3", b"hi") });
    match act {
        ConsumerAction::PublishAnswer { destination, request } => {
            assert_eq!(destination, "amq.gen-3");
            assert_eq!(request.text, b"hi");
            assert_eq!(request.id, 5);
        },
        _ => panic!("a delivery with a reply destination is a request"),
    }
}

#[test]
fn malformed_delivery_is_acked_then_reported() {
    let mut c = ConsumerBuilder::new(0).consumer("work");
    let poisoned = Delivery { delivery_tag: 9, reply_to: None, data: vec![0, 1, 2] };
    let act = c.run(ConsumerEvent::Delivered { delivery: poisoned });
    // The malformed delivery is acknowledged at once, without any handling.
    assert!(matches!(act, ConsumerAction::Ack { tag: 9 }));
    let act = c.run(ConsumerEvent::AckSucceeded);
    assert!(matches!(act, ConsumerAction::Stop { failure: Some(Error::DecodeError) }));
    assert_eq!(c.acked, 1);
}

#[test]
fn failed_ack_stops_the_run() {
    let mut c = ConsumerBuilder::new(0).consumer("work");
    let act = c.run(ConsumerEvent::Delivered { delivery: plain_delivery(1, b"m") });
    assert!(matches!(act, ConsumerAction::HandleMessage { .. }));
    let _ = c.run(ConsumerEvent::Handled);
    let act = c.run(ConsumerEvent::AckFailed);
    assert!(matches!(act, ConsumerAction::Stop { failure: Some(Error::AckError) }));
    assert_eq!(c.acked, 0);
}

#[test]
fn failed_answer_stops_the_run_without_ack() {
    let mut c = ConsumerBuilder::new(0).consumer("echo");
    let act = c.run(ConsumerEvent::Delivered { delivery: request_delivery(4, "amq.gen-1", b"q") });
    assert!(matches!(act, ConsumerAction::PublishAnswer { .. }));
    let act = c.run(ConsumerEvent::AnswerFailed);
    assert!(matches!(act, ConsumerAction::Stop { failure: Some(Error::PublishError) }));
    assert_eq!(c.acked, 0);
}

#[test]
fn publish_names_the_reply_destination() {
    let c = Consumer { queue: String::from("echo"), phase: ConsumerPhase::Awaiting, acked: 0 };
    let answer = Envelope { id: 1, msg_type: MessageType::Hello, text: b"pong".to_vec() };
    let act = c.publish(String::from("amq.gen-7"), answer);
    match act {
        ConsumerAction::PublishAnswer { destination, request } => {
            assert_eq!(destination, "amq.gen-7");
            assert_eq!(request.text, b"pong");
        },
        _ => panic!("publish must ask for an answer-publish"),
    }
}
