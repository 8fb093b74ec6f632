use rustmq::error::Error;
use rustmq::produce::{
    Producer, ProducerAction, ProducerEvent, PublishState, RpcState,
};

#[test]
fn rpc_opens_channel_lazily_then_caches_it() {
    let mut p = Producer::new(0, String::from("request"));
    assert!(p.channel.is_none());

    let (st, act) = p.rpc(vec![1, 2, 3]);
    assert!(matches!(st, RpcState::OpeningChannel { .. }));
    match act {
        ProducerAction::OpenChannel { queue, .. } => assert_eq!(queue, "request"),
        _ => panic!("expected a channel to be opened"),
    }

    let (st, act) = p.rpc_step(st, ProducerEvent::ChannelReady { channel: 42 });
    assert_eq!(p.channel, Some(42));
    assert!(matches!(st, RpcState::DeclaringCorrQueue { .. }));
    match act {
        ProducerAction::DeclareCorrQueue { options } => {
            assert!(options.exclusive);
            assert!(options.auto_delete);
        },
        _ => panic!("expected the correlation queue to be declared"),
    }

    // A second call on the same producer skips straight to the
    // correlation-queue declaration.
    let (st2, _) = p.rpc(vec![9]);
    assert!(matches!(st2, RpcState::DeclaringCorrQueue { .. }));
    assert_eq!(p.channel, Some(42));
}

#[test]
fn rpc_publishes_with_fresh_reply_destination() {
    let mut p = Producer::new(0, String::from("request"));
    let (st, _) = p.rpc(vec![7]);
    let (st, _) = p.rpc_step(st, ProducerEvent::ChannelReady { channel: 1 });
    let (st, act) = p.rpc_step(st, ProducerEvent::CorrQueueReady { name: String::from("amq.gen-1") });
    match act {
        ProducerAction::PublishRequest { exchange, routing_key, reply_to, payload } => {
            assert_eq!(exchange, "");
            assert_eq!(routing_key, "request");
            assert_eq!(reply_to, "amq.gen-1");
            assert_eq!(payload, vec![7]);
        },
        _ => panic!("expected the request to be published"),
    }
    let (st, act) = p.rpc_step(st, ProducerEvent::PublishDone);
    assert!(matches!(st, RpcState::AwaitingReply { .. }));
    match act {
        ProducerAction::AwaitReply { queue } => assert_eq!(queue, "amq.gen-1"),
        _ => panic!("expected the call to wait on its correlation queue"),
    }
}

#[test]
fn rpc_accepts_only_its_own_reply() {
    let mut p = Producer::new(0, String::from("request"));
    let (st, _) = p.rpc(vec![7]);
    let (st, _) = p.rpc_step(st, ProducerEvent::ChannelReady { channel: 1 });
    let (st, _) = p.rpc_step(st, ProducerEvent::CorrQueueReady { name: String::from("amq.gen-1") });
    let (st, _) = p.rpc_step(st, ProducerEvent::PublishDone);

    // A reply addressed to another call's correlation queue is ignored and
    // the call keeps waiting on its own queue.
    let (st, act) = p.rpc_step(
        st,
        ProducerEvent::ReplyReceived { queue: String::from("amq.gen-2"), payload: vec![9, 9] },
    );
    assert!(matches!(st, RpcState::AwaitingReply { .. }));
    match act {
        ProducerAction::AwaitReply { queue } => assert_eq!(queue, "amq.gen-1"),
        _ => panic!("expected the call to keep waiting"),
    }

    // The reply addressed to this call's own queue completes it.
    let (st, act) = p.rpc_step(
        st,
        ProducerEvent::ReplyReceived { queue: String::from("amq.gen-1"), payload: vec![1, 1] },
    );
    assert!(matches!(act, ProducerAction::Complete));
    match st {
        RpcState::Succeeded { reply } => assert_eq!(reply, vec![1, 1]),
        _ => panic!("expected the call to succeed"),
    }
}

#[test]
fn rpc_times_out_without_reply() {
    let mut p = Producer::new(0, String::from("request"));
    let (st, _) = p.rpc(vec![7]);
    let (st, _) = p.rpc_step(st, ProducerEvent::ChannelReady { channel: 1 });
    let (st, _) = p.rpc_step(st, ProducerEvent::CorrQueueReady { name: String::from("amq.gen-1") });
    let (st, _) = p.rpc_step(st, ProducerEvent::PublishDone);
    let (st, act) = p.rpc_step(st, ProducerEvent::ReplyTimedOut);
    assert!(matches!(act, ProducerAction::Complete));
    assert!(matches!(st, RpcState::Failed { error: Error::RpcTimeout }));
    // The cached channel survives the timeout: the caller may retry.
    assert_eq!(p.channel, Some(1));
}

#[test]
fn rpc_channel_failure_fails_the_call() {
    let mut p = Producer::new(0, String::from("request"));
    let (st, _) = p.rpc(vec![7]);
    let (st, _) = p.rpc_step(st, ProducerEvent::ChannelFailed);
    assert!(matches!(st, RpcState::Failed { error: Error::PublishError }));
    assert!(p.channel.is_none());
}

#[test]
fn publish_failure_keeps_cached_channel() {
    let mut p = Producer::new(0, String::from("request"));
    let (st, _) = p.publish(vec![5]);
    let (st, act) = p.publish_step(st, ProducerEvent::ChannelReady { channel: 8 });
    match act {
        ProducerAction::PublishMessage { routing_key, payload, .. } => {
            assert_eq!(routing_key, "request");
            assert_eq!(payload, vec![5]);
        },
        _ => panic!("expected the message to be published"),
    }
    let (st, _) = p.publish_step(st, ProducerEvent::PublishFailed);
    assert!(matches!(st, PublishState::Failed { error: Error::PublishError }));
    assert_eq!(p.channel, Some(8));

    // The retry reuses the cached channel.
    let (st, act) = p.publish(vec![5]);
    assert!(matches!(st, PublishState::Publishing));
    assert!(matches!(act, ProducerAction::PublishMessage { .. }));
    let (st, _) = p.publish_step(st, ProducerEvent::PublishDone);
    assert!(matches!(st, PublishState::Succeeded));
}
