use rdkafka::client::{Client, ClientType, DeliveryEvent};
use rdkafka::config::Config;
use rdkafka::dispatch::{DispatchControl, LoopPhase};
use rdkafka::error::RespError;
use rdkafka::producer::Producer;

fn fresh_producer() -> Producer {
    let config = Config::new();
    let native = config.create_kafka_config(&Vec::new()).unwrap();
    let client = Client::new(native, ClientType::Producer, None).unwrap();
    Producer::new(client)
}

#[test]
fn a_new_loop_is_idle() {
    let control = DispatchControl::new();
    assert_eq!(control.phase(), LoopPhase::Idle);
}

#[test]
fn start_step_stop_walks_the_protocol() {
    let mut control = DispatchControl::new();
    control.start();
    assert_eq!(control.phase(), LoopPhase::Running);

    let mut producer = fresh_producer();
    let topic = producer.get_topic("test").create(&Vec::new(), true).unwrap();
    let future = producer.send_copy(&topic, None, None, 0).unwrap();
    let ev = DeliveryEvent {
        token: future.token(),
        error: RespError::NoError,
        partition: 0,
        offset: 0,
    };
    assert_eq!(control.step(&mut producer, &vec![ev]), 1);
    assert_eq!(producer.in_flight(), 0);

    control.stop();
    assert_eq!(control.phase(), LoopPhase::Joined);
}

#[test]
fn stop_of_a_never_started_loop_joins_nothing() {
    let mut control = DispatchControl::new();
    control.stop();
    assert_eq!(control.phase(), LoopPhase::Idle);
}

#[test]
fn stop_is_idempotent() {
    let mut control = DispatchControl::new();
    control.start();
    control.stop();
    control.stop();
    assert_eq!(control.phase(), LoopPhase::Joined);
}

#[test]
fn request_stop_then_join_equals_stop() {
    let mut control = DispatchControl::new();
    control.start();
    control.request_stop();
    assert_eq!(control.phase(), LoopPhase::Stopping);
    control.join();
    assert_eq!(control.phase(), LoopPhase::Joined);
}
