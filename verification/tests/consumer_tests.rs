use kafka_basics_rust::config::{AppConfig, ConsumerConfig, KafkaConfig, ProducerConfig};
use kafka_basics_rust::consumer::{
    CollectAction, CollectEvent, CollectSession, ConsumedRecord, MessageParts, OrderConsumer,
};
use kafka_basics_rust::error::KafkaAppError;
use kafka_basics_rust::order_event::OrderEvent;
use rdkafka::error::{KafkaError, RDKafkaErrorCode};

fn app_config(enable_auto_commit: bool) -> AppConfig {
    AppConfig {
        kafka: KafkaConfig {
            broker: "localhost:9092".to_string(),
            topic: "orders".to_string(),
        },
        producer: ProducerConfig {
            message_timeout_ms: 5000,
            event_count: 5,
            delay_ms: 250,
        },
        consumer: ConsumerConfig {
            group_id: "orders-rust-consumer".to_string(),
            auto_offset_reset: "earliest".to_string(),
            enable_auto_commit,
        },
    }
}

fn message(key: &str, payload: &str, offset: i64) -> MessageParts {
    MessageParts {
        key: Some(key.as_bytes().to_vec()),
        payload: Some(payload.as_bytes().to_vec()),
        partition: 0,
        offset,
    }
}

fn event(order_id: &str) -> OrderEvent {
    OrderEvent::new(order_id, "u1", 10.0f64.to_bits(), "created")
}

#[test]
fn consumer_getters_and_configs() {
    let consumer = OrderConsumer::new(app_config(true));
    assert_eq!(consumer.default_group_id(), "orders-rust-consumer");
    let stream = consumer.stream_consumer_config("shared_group");
    assert_eq!(stream.get("group.id"), Some("shared_group"));
    assert_eq!(stream.get("enable.auto.commit"), Some("true"));
}

#[test]
fn consume_n_never_commits_automatically_even_when_configured_to() {
    let consumer = OrderConsumer::new(app_config(true));
    let config = consumer.consume_n_config("manual_commit_group");
    assert_eq!(config.get("enable.auto.commit"), Some("false"));
    assert_eq!(config.get("group.id"), Some("manual_commit_group"));
    assert_eq!(config.get("auto.offset.reset"), Some("earliest"));

    let (mut session, action) = CollectSession::start(2, false);
    assert!(matches!(action, CollectAction::Receive));
    let action = session.step(CollectEvent::Received(message("order-1", "{}", 0)));
    assert!(matches!(action, CollectAction::Parse(_)));
    let action = session.step(CollectEvent::Parsed(Ok(event("order-1"))));
    assert!(matches!(action, CollectAction::Receive));
}

#[test]
fn collect_session_commits_each_record_when_asked() {
    let (mut session, _) = CollectSession::start(2, true);
    let mut commits = 0;
    let mut action = session.step(CollectEvent::Received(message("order-1", "first", 0)));
    let mut next_offset = 1;
    let records = loop {
        action = match action {
            CollectAction::Parse(payload) => {
                let id = if payload == "first" { "order-1" } else { "order-2" };
                session.step(CollectEvent::Parsed(Ok(event(id))))
            }
            CollectAction::Commit => {
                commits += 1;
                session.step(CollectEvent::Committed(Ok(())))
            }
            CollectAction::Receive => {
                let parts = message("order-2", "second", next_offset);
                next_offset += 1;
                session.step(CollectEvent::Received(parts))
            }
            CollectAction::Finish(result) => break result.expect("two records"),
        };
    };
    assert_eq!(commits, 2);
    assert_eq!(records.len(), 2);
    assert_eq!(records[0].payload, "first");
    assert_eq!(records[0].key.as_deref(), Some("order-1"));
    assert_eq!(records[1].offset, 1);
    assert_eq!(records[1].event.order_id, "order-2");
}

#[test]
fn collect_session_times_out_with_what_it_has() {
    let (mut session, _) = CollectSession::start(2, false);
    session.step(CollectEvent::Received(message("order-1", "{}", 0)));
    session.step(CollectEvent::Parsed(Ok(event("order-1"))));
    let records = match session.step(CollectEvent::TimedOut) {
        CollectAction::Finish(Ok(records)) => records,
        other => panic!("unexpected action: {other:?}"),
    };
    assert_eq!(records.len(), 1);
    match OrderConsumer::require_count(records, 2) {
        Err(KafkaAppError::Timeout { expected, received }) => {
            assert_eq!(expected, 2);
            assert_eq!(received, 1);
        }
        other => panic!("unexpected result: {other:?}"),
    }
}

#[test]
fn require_count_accepts_all_the_records_asked_for() {
    let records = vec![ConsumedRecord {
        key: None,
        partition: 0,
        offset: 3,
        payload: String::new(),
        event: event("order-1"),
    }];
    let kept = OrderConsumer::require_count(records, 1).expect("one record was asked for");
    assert_eq!(kept[0].offset, 3);
}

#[test]
fn collect_session_reports_invalid_order_payloads_with_their_position() {
    let (mut session, _) = CollectSession::start(1, false);
    let mut parts = message("order-1", "{\"order_id\":", 7);
    parts.partition = 4;
    let payload = match session.step(CollectEvent::Received(parts)) {
        CollectAction::Parse(payload) => payload,
        other => panic!("unexpected action: {other:?}"),
    };
    assert_eq!(payload, "{\"order_id\":");
    let failure = serde_json::from_str::<serde_json::Value>(&payload).unwrap_err();
    match session.step(CollectEvent::Parsed(Err(failure))) {
        CollectAction::Finish(Err(KafkaAppError::InvalidOrderEvent { partition, offset, .. })) => {
            assert_eq!(partition, 4);
            assert_eq!(offset, 7);
        }
        other => panic!("unexpected action: {other:?}"),
    }
}

#[test]
fn collect_session_refuses_keys_that_are_not_utf8() {
    let (mut session, _) = CollectSession::start(1, false);
    let parts = MessageParts {
        key: Some(vec![0xff, 0xfe]),
        payload: Some(b"{}".to_vec()),
        partition: 0,
        offset: 0,
    };
    assert!(matches!(
        session.step(CollectEvent::Received(parts)),
        CollectAction::Finish(Err(KafkaAppError::Utf8(_)))
    ));
}

#[test]
fn collect_session_reads_a_missing_payload_as_empty() {
    let (mut session, _) = CollectSession::start(1, false);
    let parts = MessageParts { key: None, payload: None, partition: 0, offset: 0 };
    match session.step(CollectEvent::Received(parts)) {
        CollectAction::Parse(payload) => assert_eq!(payload, ""),
        other => panic!("unexpected action: {other:?}"),
    }
}

#[test]
fn collect_session_stops_on_receive_and_commit_failures() {
    let (mut session, _) = CollectSession::start(1, false);
    let failure = KafkaError::MessageConsumption(RDKafkaErrorCode::BrokerTransportFailure);
    assert!(matches!(
        session.step(CollectEvent::ReceiveFailed(failure)),
        CollectAction::Finish(Err(KafkaAppError::Kafka(_)))
    ));

    let (mut session, _) = CollectSession::start(1, true);
    session.step(CollectEvent::Received(message("order-1", "{}", 0)));
    assert!(matches!(
        session.step(CollectEvent::Parsed(Ok(event("order-1")))),
        CollectAction::Commit
    ));
    let failure = KafkaError::ConsumerCommit(RDKafkaErrorCode::RebalanceInProgress);
    assert!(matches!(
        session.step(CollectEvent::Committed(Err(failure))),
        CollectAction::Finish(Err(KafkaAppError::Kafka(_)))
    ));
}

#[test]
fn collect_session_of_zero_messages_finishes_at_once() {
    let (_session, action) = CollectSession::start(0, true);
    match action {
        CollectAction::Finish(Ok(records)) => assert!(records.is_empty()),
        other => panic!("unexpected action: {other:?}"),
    }
}

#[test]
fn consumed_records_clone_field_for_field() {
    let record = ConsumedRecord {
        key: Some("order-1".to_string()),
        partition: 2,
        offset: 9,
        payload: "{}".to_string(),
        event: event("order-1"),
    };
    assert_eq!(record.clone(), record);
}

#[test]
fn collect_session_reports_the_key_error_before_the_payload_error() {
    let bad_key = vec![b'k', 0xff];
    let bad_payload = vec![b'{', b'}', 0xc0, 0x80];
    let key_error = std::str::from_utf8(&bad_key).unwrap_err();
    let payload_error = std::str::from_utf8(&bad_payload).unwrap_err();
    assert_ne!(key_error, payload_error);

    let (mut session, _) = CollectSession::start(1, false);
    let parts = MessageParts {
        key: Some(bad_key.clone()),
        payload: Some(bad_payload.clone()),
        partition: 0,
        offset: 0,
    };
    match session.step(CollectEvent::Received(parts)) {
        CollectAction::Finish(Err(KafkaAppError::Utf8(error))) => assert_eq!(error, key_error),
        other => panic!("unexpected action: {other:?}"),
    }

    let (mut session, _) = CollectSession::start(1, false);
    let parts = MessageParts {
        key: Some(b"order-1".to_vec()),
        payload: Some(bad_payload),
        partition: 0,
        offset: 0,
    };
    match session.step(CollectEvent::Received(parts)) {
        CollectAction::Finish(Err(KafkaAppError::Utf8(error))) => assert_eq!(error, payload_error),
        other => panic!("unexpected action: {other:?}"),
    }
}
