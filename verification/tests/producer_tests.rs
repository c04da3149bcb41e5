use rdkafka::channel::DeliveryPoll;
use rdkafka::client::{Client, ClientType, DeliveryEvent, DeliveryStatus, Topic};
use rdkafka::config::Config;
use rdkafka::error::{
    errno_to_resp_err, Error, RespError, ERRNO_INVALID, ERRNO_IO, ERRNO_MSG_SIZE,
    ERRNO_NO_BUFFERS, ERRNO_NO_ENTRY, ERRNO_NO_PROCESS, ERRNO_TIMED_OUT,
};
use rdkafka::producer::Producer;

fn fresh_producer() -> Producer {
    let mut config = Config::new();
    config.set("bootstrap.servers", "localhost:9092");
    let verdicts = vec![rdkafka::config::ConfVerdict {
        res: rdkafka::error::ConfRes::ConfOk,
        descr: String::new(),
    }];
    let native = config.create_kafka_config(&verdicts).unwrap();
    let client = Client::new(native, ClientType::Producer, None).unwrap();
    Producer::new(client)
}

fn fresh_topic(producer: &Producer, name: &str) -> Topic {
    producer.get_topic(name).create(&Vec::new(), true).unwrap()
}

fn event(token: u64, partition: i32, offset: i64) -> DeliveryEvent {
    DeliveryEvent { token, error: RespError::NoError, partition, offset }
}

#[test]
fn send_and_one_dispatch_step_resolves_the_future() {
    let mut producer = fresh_producer();
    let topic = fresh_topic(&producer, "test");
    let payload = b"hello".to_vec();
    let mut future = producer.send_copy(&topic, Some(&payload), None, 0).unwrap();
    assert_eq!(future.poll(), DeliveryPoll::Pending);
    let served = producer.poll(&vec![event(future.token(), 0, 0)]);
    assert_eq!(served, 1);
    match future.poll() {
        DeliveryPoll::Delivered(status) => {
            assert_eq!(status.error, RespError::NoError);
            assert!(status.partition >= 0);
            assert!(status.offset >= 0);
        }
        other => panic!("future did not resolve: {:?}", other),
    }
}

#[test]
fn immediate_rejection_returns_error_and_leaks_nothing() {
    let mut producer = fresh_producer();
    let topic = fresh_topic(&producer, "test");
    let payload = b"hello".to_vec();
    let err = producer.send_copy(&topic, Some(&payload), None, ERRNO_NO_BUFFERS).unwrap_err();
    assert_eq!(err, Error::MessageProduction(RespError::QueueFull));
    assert_eq!(producer.in_flight(), 0);
}

#[test]
fn each_future_receives_exactly_its_own_status() {
    let mut producer = fresh_producer();
    let topic = fresh_topic(&producer, "test");
    let mut futures_out = Vec::new();
    for _ in 0..3 {
        futures_out.push(producer.send_copy(&topic, None, None, 0).unwrap());
    }
    let tokens: Vec<u64> = futures_out.iter().map(|f| f.token()).collect();
    assert!(tokens[0] != tokens[1] && tokens[1] != tokens[2] && tokens[0] != tokens[2]);
    // Deliver out of order, each with a distinguishing offset.
    let events = vec![
        event(tokens[2], 1, 102),
        event(tokens[0], 1, 100),
        event(tokens[1], 1, 101),
    ];
    assert_eq!(producer.poll(&events), 3);
    assert_eq!(producer.in_flight(), 0);
    for (i, future) in futures_out.iter_mut().enumerate() {
        match future.poll() {
            DeliveryPoll::Delivered(status) => assert_eq!(status.offset, 100 + i as i64),
            other => panic!("future {} did not resolve: {:?}", i, other),
        }
    }
}

#[test]
fn duplicate_completion_record_is_ignored() {
    let mut producer = fresh_producer();
    let topic = fresh_topic(&producer, "test");
    let mut future = producer.send_copy(&topic, None, None, 0).unwrap();
    let ev = event(future.token(), 0, 5);
    assert_eq!(producer.poll(&vec![ev, ev]), 2);
    assert_eq!(producer.in_flight(), 0);
    assert_eq!(
        future.poll(),
        DeliveryPoll::Delivered(DeliveryStatus { error: RespError::NoError, partition: 0, offset: 5 })
    );
}

#[test]
fn record_for_unknown_token_changes_nothing() {
    let mut producer = fresh_producer();
    let topic = fresh_topic(&producer, "test");
    let future = producer.send_copy(&topic, None, None, 0).unwrap();
    assert_eq!(producer.in_flight(), 1);
    producer.poll(&vec![event(future.token() + 1, 0, 0)]);
    assert_eq!(producer.in_flight(), 1);
}

#[test]
fn dropped_future_does_not_disturb_its_completion() {
    let mut producer = fresh_producer();
    let topic = fresh_topic(&producer, "test");
    let future = producer.send_copy(&topic, None, None, 0).unwrap();
    let token = future.token();
    drop(future);
    assert_eq!(producer.poll(&vec![event(token, 0, 0)]), 1);
    assert_eq!(producer.in_flight(), 0);
}

#[test]
fn failed_send_produces_no_token_for_later_records() {
    let mut producer = fresh_producer();
    let topic = fresh_topic(&producer, "test");
    producer.send_copy(&topic, None, None, ERRNO_MSG_SIZE).unwrap_err();
    let future = producer.send_copy(&topic, None, None, 0).unwrap();
    assert_eq!(producer.in_flight(), 1);
    assert_eq!(producer.poll(&vec![event(future.token(), 0, 0)]), 1);
    assert_eq!(producer.in_flight(), 0);
}

#[test]
fn topic_keeps_engine_alive() {
    let producer = fresh_producer();
    let topic = fresh_topic(&producer, "kept");
    drop(producer);
    // The topic still holds its parent handle; using it is safe.
    assert_eq!(topic.name, "kept");
    assert!(topic.client.dr_callback);
}

#[test]
fn errno_translation_matches_the_lookup() {
    assert_eq!(errno_to_resp_err(ERRNO_INVALID), RespError::InvalidArg);
    assert_eq!(errno_to_resp_err(ERRNO_NO_ENTRY), RespError::UnknownTopic);
    assert_eq!(errno_to_resp_err(ERRNO_NO_PROCESS), RespError::UnknownPartition);
    assert_eq!(errno_to_resp_err(ERRNO_TIMED_OUT), RespError::TimedOut);
    assert_eq!(errno_to_resp_err(ERRNO_MSG_SIZE), RespError::MsgSizeTooLarge);
    assert_eq!(errno_to_resp_err(ERRNO_NO_BUFFERS), RespError::QueueFull);
    assert_eq!(errno_to_resp_err(ERRNO_IO), RespError::Transport);
    assert_eq!(errno_to_resp_err(12345), RespError::Fail);
}
