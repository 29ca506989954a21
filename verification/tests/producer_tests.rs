use kafka_basics_rust::config::{
    AppConfig, ConfigError, ConsumerConfig, KafkaConfig, ProducerConfig,
};
use kafka_basics_rust::error::KafkaAppError;
use kafka_basics_rust::order_event::OrderEvent;
use kafka_basics_rust::producer::{
    Delivery, OrderProducer, ProduceAction, ProduceEvent, ProduceSession, RecordToProduce,
};
use rdkafka::error::{KafkaError, RDKafkaErrorCode};

fn app_config(event_count: u32) -> AppConfig {
    AppConfig {
        kafka: KafkaConfig {
            broker: "localhost:9092".to_string(),
            topic: "orders".to_string(),
        },
        producer: ProducerConfig {
            message_timeout_ms: 5000,
            event_count,
            delay_ms: 250,
        },
        consumer: ConsumerConfig {
            group_id: "orders-rust-consumer".to_string(),
            auto_offset_reset: "earliest".to_string(),
            enable_auto_commit: false,
        },
    }
}

fn record(key: Option<&str>, partition: Option<i32>, order_id: &str, status: &str) -> RecordToProduce {
    RecordToProduce {
        key: key.map(|k| k.to_string()),
        partition,
        event: OrderEvent::new(order_id, "u1", 49.9f64.to_bits(), status),
    }
}

#[test]
fn order_event_new_keeps_its_fields() {
    let event = OrderEvent::new("order-123", "u1", 49.9f64.to_bits(), "created");
    assert_eq!(event.order_id, "order-123");
    assert_eq!(event.user_id, "u1");
    assert_eq!(f64::from_bits(event.amount_bits), 49.9);
    assert_eq!(event.status, "created");
}

#[test]
fn sample_events_are_numbered_from_order_100_and_rotate_users() {
    let first = OrderEvent::sample(0, 10.0f64.to_bits());
    assert_eq!(first.order_id, "order-100");
    assert_eq!(first.user_id, "user-1");
    assert_eq!(first.status, "created");
    assert_eq!(f64::from_bits(first.amount_bits), 10.0);

    let fifth = OrderEvent::sample(4, 40.0f64.to_bits());
    assert_eq!(fifth.order_id, "order-104");
    assert_eq!(fifth.user_id, "user-2");
}

#[test]
fn producer_getters_read_the_configuration() {
    let producer = OrderProducer::new(app_config(5));
    assert_eq!(producer.default_topic(), "orders");
    assert_eq!(producer.event_count(), 5);
    let config = producer.future_producer_config();
    assert_eq!(config.get("message.timeout.ms"), Some("5000"));
    assert_eq!(config.get("bootstrap.servers"), Some("localhost:9092"));
}

#[test]
fn producer_from_config_passes_errors_through() {
    let producer = OrderProducer::from_config(Ok(app_config(2))).expect("configuration was loaded");
    assert_eq!(producer.event_count(), 2);

    let missing = ConfigError::Read {
        path: "config/app.toml".to_string(),
        source: std::io::Error::new(std::io::ErrorKind::NotFound, "missing"),
    };
    match OrderProducer::from_config(Err(missing)) {
        Err(ConfigError::Read { path, .. }) => assert_eq!(path, "config/app.toml"),
        other => panic!("unexpected result: {other:?}"),
    }
}

#[test]
fn sample_events_key_each_record_by_its_order() {
    let producer = OrderProducer::new(app_config(4));
    let records = producer.sample_events(|index| (10.0 + index as f64 * 7.5).to_bits());
    assert_eq!(records.len(), 4);
    for (index, record) in records.iter().enumerate() {
        let order_id = format!("order-{}", 100 + index);
        assert_eq!(record.key.as_deref(), Some(order_id.as_str()));
        assert_eq!(record.partition, None);
        assert_eq!(record.event.order_id, order_id);
        assert_eq!(record.event.user_id, format!("user-{}", index % 3 + 1));
        assert_eq!(record.event.status, "created");
        assert_eq!(f64::from_bits(record.event.amount_bits), 10.0 + index as f64 * 7.5);
    }
}

#[test]
fn produce_session_keeps_record_order_keys_and_events() {
    let records = vec![
        record(Some("order-123"), None, "order-123", "created"),
        record(Some("order-123"), None, "order-123", "paid"),
        record(None, Some(2), "order-999", "shipped"),
    ];
    let (mut session, mut action) = ProduceSession::start("ordering_orders", records.clone());
    let mut offset = 0;
    let mut sent = Vec::new();
    let produced = loop {
        action = match action {
            ProduceAction::Serialize(event) => {
                session.step(ProduceEvent::Serialized(Ok(format!("payload of {}", event.status))))
            }
            ProduceAction::Send(request) => {
                assert_eq!(request.topic, "ordering_orders");
                sent.push((request.key.clone(), request.partition, request.payload.clone()));
                offset += 1;
                session.step(ProduceEvent::Delivered(Ok(Delivery { partition: 1, offset })))
            }
            ProduceAction::Finish(result) => break result.expect("every record was delivered"),
        };
    };

    assert_eq!(
        sent,
        vec![
            (Some("order-123".to_string()), None, "payload of created".to_string()),
            (Some("order-123".to_string()), None, "payload of paid".to_string()),
            (None, Some(2), "payload of shipped".to_string()),
        ]
    );
    assert_eq!(produced.len(), 3);
    let statuses: Vec<_> = produced.iter().map(|r| r.event.status.as_str()).collect();
    assert_eq!(statuses, vec!["created", "paid", "shipped"]);
    let offsets: Vec<_> = produced.iter().map(|r| r.offset).collect();
    assert_eq!(offsets, vec![1, 2, 3]);
    assert_eq!(produced[2].key, None);
    assert_eq!(produced[0].event, records[0].event);
}

#[test]
fn produce_session_of_no_records_finishes_at_once() {
    let (_session, action) = ProduceSession::start("orders", Vec::new());
    match action {
        ProduceAction::Finish(Ok(produced)) => assert!(produced.is_empty()),
        other => panic!("unexpected action: {other:?}"),
    }
}

#[test]
fn produce_session_stops_at_the_first_failed_delivery() {
    let records = vec![
        record(Some("order-1"), None, "order-1", "created"),
        record(Some("order-2"), None, "order-2", "paid"),
    ];
    let (mut session, action) = ProduceSession::start("orders", records);
    assert!(matches!(action, ProduceAction::Serialize(_)));
    let action = session.step(ProduceEvent::Serialized(Ok("{}".to_string())));
    assert!(matches!(action, ProduceAction::Send(_)));
    let failure = KafkaError::MessageProduction(RDKafkaErrorCode::MessageTimedOut);
    match session.step(ProduceEvent::Delivered(Err(failure))) {
        ProduceAction::Finish(Err(KafkaAppError::Kafka(error))) => {
            assert_eq!(error, KafkaError::MessageProduction(RDKafkaErrorCode::MessageTimedOut))
        }
        other => panic!("unexpected action: {other:?}"),
    }
}

#[test]
fn produce_session_reports_serialization_failures() {
    let records = vec![record(Some("order-1"), None, "order-1", "created")];
    let (mut session, _) = ProduceSession::start("orders", records);
    let failure = serde_json::from_str::<serde_json::Value>("{").unwrap_err();
    assert!(matches!(
        session.step(ProduceEvent::Serialized(Err(failure))),
        ProduceAction::Finish(Err(KafkaAppError::Json(_)))
    ));
}

#[test]
fn sample_events_are_for_different_orders() {
    let producer = OrderProducer::new(app_config(30));
    let records = producer.sample_events(|_| 0);
    let mut ids: Vec<_> = records.iter().map(|r| r.event.order_id.clone()).collect();
    ids.sort();
    ids.dedup();
    assert_eq!(ids.len(), 30);
}

#[test]
fn order_events_compare_amounts_as_numbers() {
    let positive_zero = OrderEvent::new("order-1", "u1", 0.0f64.to_bits(), "created");
    let negative_zero = OrderEvent::new("order-1", "u1", (-0.0f64).to_bits(), "created");
    assert_eq!(positive_zero, negative_zero);

    let nan = OrderEvent::new("order-1", "u1", f64::NAN.to_bits(), "created");
    assert_ne!(nan, nan.clone());

    let more = OrderEvent::new("order-1", "u1", 49.9f64.to_bits(), "created");
    let same = OrderEvent::new("order-1", "u1", 49.9f64.to_bits(), "created");
    let other_status = OrderEvent::new("order-1", "u1", 49.9f64.to_bits(), "paid");
    assert_eq!(more, same);
    assert_ne!(more, other_status);
    assert_ne!(more, positive_zero);
}
