use rdkafka::config::{Config, ConfVerdict};
use rdkafka::error::{ConfRes, Error};

fn accept() -> ConfVerdict {
    ConfVerdict { res: ConfRes::ConfOk, descr: String::new() }
}

fn reject(res: ConfRes, descr: &str) -> ConfVerdict {
    ConfVerdict { res, descr: descr.to_string() }
}

#[test]
fn build_reflects_every_accepted_pair() {
    let mut config = Config::new();
    config.set("bootstrap.servers", "localhost:9092");
    config.set("queue.buffering.max.ms", "50");
    let verdicts = vec![accept(), accept()];
    let native = config.create_kafka_config(&verdicts).unwrap();
    assert_eq!(
        native.entries(),
        &vec![
            ("bootstrap.servers".to_string(), "localhost:9092".to_string()),
            ("queue.buffering.max.ms".to_string(), "50".to_string()),
        ]
    );
}

#[test]
fn build_of_empty_config_succeeds() {
    let config = Config::new();
    let verdicts: Vec<ConfVerdict> = Vec::new();
    let native = config.create_kafka_config(&verdicts).unwrap();
    assert!(native.entries().is_empty());
}

#[test]
fn last_write_of_a_key_wins() {
    let mut config = Config::new();
    config
        .set("bootstrap.servers", "localhost:9092")
        .set("compression.codec", "none")
        .set("bootstrap.servers", "broker:9092");
    let verdicts = vec![accept(), accept()];
    let native = config.create_kafka_config(&verdicts).unwrap();
    assert_eq!(
        native.entries(),
        &vec![
            ("bootstrap.servers".to_string(), "broker:9092".to_string()),
            ("compression.codec".to_string(), "none".to_string()),
        ]
    );
}

#[test]
fn build_fails_naming_the_rejected_pair() {
    let mut config = Config::new();
    config.set("invalid.key", "x");
    let verdicts = vec![reject(ConfRes::ConfUnknown, "No such configuration property")];
    let err = config.create_kafka_config(&verdicts).unwrap_err();
    assert_eq!(
        err,
        Error::Config(
            ConfRes::ConfUnknown,
            "No such configuration property".to_string(),
            "invalid.key".to_string(),
            "x".to_string(),
        )
    );
}

#[test]
fn build_reports_exactly_the_first_rejected_pair() {
    let mut config = Config::new();
    config.set("good.key", "1");
    config.set("bad.key", "2");
    config.set("worse.key", "3");
    let verdicts = vec![
        accept(),
        reject(ConfRes::ConfInvalid, "bad value"),
        reject(ConfRes::ConfUnknown, "unknown"),
    ];
    let err = config.create_kafka_config(&verdicts).unwrap_err();
    assert_eq!(
        err,
        Error::Config(
            ConfRes::ConfInvalid,
            "bad value".to_string(),
            "bad.key".to_string(),
            "2".to_string(),
        )
    );
}

#[test]
fn build_rejects_embedded_terminator_in_key() {
    let mut config = Config::new();
    config.set("bad\0key", "v");
    let verdicts = vec![accept()];
    let err = config.create_kafka_config(&verdicts).unwrap_err();
    assert_eq!(err, Error::Nul("bad\0key".to_string()));
}

#[test]
fn build_rejects_embedded_terminator_in_value() {
    let mut config = Config::new();
    config.set("key", "bad\0value");
    let verdicts = vec![accept()];
    let err = config.create_kafka_config(&verdicts).unwrap_err();
    assert_eq!(err, Error::Nul("bad\0value".to_string()));
}
