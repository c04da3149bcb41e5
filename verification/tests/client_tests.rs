use rdkafka::client::{Client, ClientType, TopicBuilder};
use rdkafka::config::{Config, ConfVerdict};
use rdkafka::error::{ConfRes, Error, IsError, RespError};

fn accept() -> ConfVerdict {
    ConfVerdict { res: ConfRes::ConfOk, descr: String::new() }
}

fn built_client(client_type: ClientType) -> Client {
    let config = Config::new();
    let native = config.create_kafka_config(&Vec::new()).unwrap();
    Client::new(native, client_type, None).unwrap()
}

#[test]
fn producer_client_registers_delivery_callback() {
    let client = built_client(ClientType::Producer);
    assert!(client.dr_callback);
    assert_eq!(client.client_type, ClientType::Producer);
}

#[test]
fn consumer_client_registers_no_delivery_callback() {
    let client = built_client(ClientType::Consumer);
    assert!(!client.dr_callback);
    assert_eq!(client.client_type, ClientType::Consumer);
}

#[test]
fn client_creation_failure_carries_engine_text() {
    let config = Config::new();
    let native = config.create_kafka_config(&Vec::new()).unwrap();
    let err = Client::new(native, ClientType::Producer, Some("broker list empty".to_string()))
        .unwrap_err();
    assert_eq!(err, Error::ClientCreation("broker list empty".to_string()));
}

#[test]
fn topic_builder_creates_topic() {
    let client = std::sync::Arc::new(built_client(ClientType::Producer));
    let mut builder = TopicBuilder::new(&client, "events");
    builder.set("request.required.acks", "1");
    let topic = builder.create(&vec![accept()], true).unwrap();
    assert_eq!(topic.name, "events");
}

#[test]
fn refused_topic_handle_implicates_the_name() {
    let client = std::sync::Arc::new(built_client(ClientType::Producer));
    let builder = TopicBuilder::new(&client, "no/such/topic");
    let err = builder.create(&Vec::new(), false).unwrap_err();
    assert_eq!(err, Error::TopicName("no/such/topic".to_string()));
}

#[test]
fn rejected_topic_option_fails_creation() {
    let client = std::sync::Arc::new(built_client(ClientType::Producer));
    let mut builder = TopicBuilder::new(&client, "events");
    builder.set("nonsense.option", "x");
    let verdicts = vec![ConfVerdict { res: ConfRes::ConfUnknown, descr: "unknown".to_string() }];
    let err = builder.create(&verdicts, true).unwrap_err();
    assert_eq!(
        err,
        Error::Config(
            ConfRes::ConfUnknown,
            "unknown".to_string(),
            "nonsense.option".to_string(),
            "x".to_string(),
        )
    );
}

#[test]
fn topic_name_with_embedded_terminator_is_refused() {
    let client = std::sync::Arc::new(built_client(ClientType::Producer));
    let builder = TopicBuilder::new(&client, "bad\0name");
    let err = builder.create(&Vec::new(), true).unwrap_err();
    assert_eq!(err, Error::Nul("bad\0name".to_string()));
}

#[test]
fn error_codes_know_whether_they_are_errors() {
    assert!(!RespError::NoError.is_error());
    assert!(RespError::QueueFull.is_error());
    assert!(RespError::Fail.is_error());
    assert!(!ConfRes::ConfOk.is_error());
    assert!(ConfRes::ConfInvalid.is_error());
    assert!(ConfRes::ConfUnknown.is_error());
}
