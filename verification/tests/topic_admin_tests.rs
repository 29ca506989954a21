use kafka_basics_rust::config::{AppConfig, ConsumerConfig, KafkaConfig, ProducerConfig};
use kafka_basics_rust::error::KafkaAppError;
use kafka_basics_rust::topic_admin::{
    CreateAction, CreateOutcome, CreateSession, TopicAdmin, TopicDescription, TopicSummary,
};
use rdkafka::error::RDKafkaErrorCode;

fn app_config() -> AppConfig {
    AppConfig {
        kafka: KafkaConfig {
            broker: "localhost:9092".to_string(),
            topic: "orders".to_string(),
        },
        producer: ProducerConfig {
            message_timeout_ms: 5000,
            event_count: 5,
            delay_ms: 250,
        },
        consumer: ConsumerConfig {
            group_id: "orders-rust-consumer".to_string(),
            auto_offset_reset: "earliest".to_string(),
            enable_auto_commit: false,
        },
    }
}

fn summary(name: &str, error: Option<RDKafkaErrorCode>, replica_counts: Vec<usize>) -> TopicSummary {
    TopicSummary { name: name.to_string(), error, replica_counts }
}

#[test]
fn admin_getters_read_the_configuration() {
    let admin = TopicAdmin::new(app_config());
    assert_eq!(admin.default_topic(), "orders");
    assert_eq!(admin.admin_client_config().get("bootstrap.servers"), Some("localhost:9092"));
    let loaded = TopicAdmin::from_config(Ok(app_config())).expect("configuration was loaded");
    assert_eq!(loaded.default_topic(), "orders");
}

#[test]
fn describe_counts_partitions_and_takes_the_largest_replica_count() {
    let topics = vec![
        summary("other", None, vec![5]),
        summary("metadata_orders", None, vec![1, 3, 2]),
    ];
    let description = TopicAdmin::describe_from_metadata("metadata_orders", &topics).unwrap();
    assert_eq!(
        description,
        TopicDescription {
            name: "metadata_orders".to_string(),
            partition_count: 3,
            replication_factor: 3,
        }
    );

    let empty = vec![summary("metadata_orders", None, vec![])];
    let description = TopicAdmin::describe_from_metadata("metadata_orders", &empty).unwrap();
    assert_eq!(description.partition_count, 0);
    assert_eq!(description.replication_factor, 0);
}

#[test]
fn describe_of_a_missing_topic_is_an_unknown_topic() {
    let topics = vec![summary("other", None, vec![1])];
    match TopicAdmin::describe_from_metadata("missing_topic", &topics) {
        Err(KafkaAppError::TopicOperation { operation, topic, code }) => {
            assert_eq!(operation, "describe");
            assert_eq!(topic, "missing_topic");
            assert_eq!(code, RDKafkaErrorCode::UnknownTopicOrPartition);
        }
        other => panic!("unexpected result: {other:?}"),
    }
}

#[test]
fn describe_reports_the_topic_error() {
    let topics = vec![summary("orders", Some(RDKafkaErrorCode::LeaderNotAvailable), vec![1])];
    match TopicAdmin::describe_from_metadata("orders", &topics) {
        Err(KafkaAppError::TopicOperation { operation, code, .. }) => {
            assert_eq!(operation, "describe");
            assert_eq!(code, RDKafkaErrorCode::LeaderNotAvailable);
        }
        other => panic!("unexpected result: {other:?}"),
    }
}

#[test]
fn create_outcome_reads_each_answer() {
    assert!(matches!(
        TopicAdmin::create_outcome("orders", &Ok("orders".to_string())),
        CreateOutcome::Created
    ));
    assert!(matches!(
        TopicAdmin::create_outcome(
            "orders",
            &Err(("orders".to_string(), RDKafkaErrorCode::TopicAlreadyExists))
        ),
        CreateOutcome::CheckExisting
    ));
    assert!(matches!(
        TopicAdmin::create_outcome(
            "orders",
            &Err(("other".to_string(), RDKafkaErrorCode::TopicAlreadyExists))
        ),
        CreateOutcome::Failed(KafkaAppError::TopicOperation { operation: "create", .. })
    ));
}

#[test]
fn create_session_accepts_a_new_topic() {
    let (_session, action) = CreateSession::start("orders", 3, 1, vec![Ok("orders".to_string())]);
    assert!(matches!(action, CreateAction::Finish(Ok(()))));
}

#[test]
fn create_session_accepts_an_existing_topic_of_the_same_shape() {
    let results = vec![Err(("orders".to_string(), RDKafkaErrorCode::TopicAlreadyExists))];
    let (mut session, action) = CreateSession::start("orders", 3, 1, results);
    assert!(matches!(action, CreateAction::Describe));
    assert!(session.awaits_description());
    let description = TopicDescription {
        name: "orders".to_string(),
        partition_count: 3,
        replication_factor: 1,
    };
    assert!(matches!(session.step(Ok(description)), CreateAction::Finish(Ok(()))));
}

#[test]
fn create_session_detects_existing_topic_shape_mismatches() {
    let results = vec![Err(("mismatch_orders".to_string(), RDKafkaErrorCode::TopicAlreadyExists))];
    let (mut session, action) = CreateSession::start("mismatch_orders", 2, 1, results);
    assert!(matches!(action, CreateAction::Describe));
    let description = TopicDescription {
        name: "mismatch_orders".to_string(),
        partition_count: 1,
        replication_factor: 1,
    };
    match session.step(Ok(description)) {
        CreateAction::Finish(Err(KafkaAppError::TopicConfigurationMismatch {
            topic,
            expected_partitions,
            actual_partitions,
            expected_replication_factor,
            actual_replication_factor,
        })) => {
            assert_eq!(topic, "mismatch_orders");
            assert_eq!(expected_partitions, 2);
            assert_eq!(actual_partitions, 1);
            assert_eq!(expected_replication_factor, 1);
            assert_eq!(actual_replication_factor, 1);
        }
        other => panic!("unexpected action: {other:?}"),
    }
}

#[test]
fn create_session_passes_on_describe_failures_and_other_errors() {
    let results = vec![Err(("orders".to_string(), RDKafkaErrorCode::TopicAlreadyExists))];
    let (mut session, _) = CreateSession::start("orders", 1, 1, results);
    let failure = KafkaAppError::Timeout { expected: 1, received: 0 };
    assert!(matches!(
        session.step(Err(failure)),
        CreateAction::Finish(Err(KafkaAppError::Timeout { expected: 1, received: 0 }))
    ));

    let results = vec![
        Ok("orders".to_string()),
        Err(("orders".to_string(), RDKafkaErrorCode::InvalidReplicationFactor)),
    ];
    match CreateSession::start("orders", 1, 3, results).1 {
        CreateAction::Finish(Err(KafkaAppError::TopicOperation { operation, topic, code })) => {
            assert_eq!(operation, "create");
            assert_eq!(topic, "orders");
            assert_eq!(code, RDKafkaErrorCode::InvalidReplicationFactor);
        }
        other => panic!("unexpected action: {other:?}"),
    }
}

#[test]
fn check_existing_shape_compares_partitions_and_replicas() {
    let description = TopicDescription {
        name: "orders".to_string(),
        partition_count: 3,
        replication_factor: 1,
    };
    assert!(TopicAdmin::check_existing_shape("orders", 3, 1, &description).is_ok());
    assert!(matches!(
        TopicAdmin::check_existing_shape("orders", 3, 2, &description),
        Err(KafkaAppError::TopicConfigurationMismatch { actual_replication_factor: 1, .. })
    ));
}

#[test]
fn delete_tolerates_only_the_missing_topic_itself() {
    assert!(TopicAdmin::check_delete_results("orders", &vec![Ok("orders".to_string())]).is_ok());
    let missing = vec![Err(("orders".to_string(), RDKafkaErrorCode::UnknownTopicOrPartition))];
    assert!(TopicAdmin::check_delete_results("orders", &missing).is_ok());

    let other_missing = vec![Err(("other".to_string(), RDKafkaErrorCode::UnknownTopicOrPartition))];
    assert!(matches!(
        TopicAdmin::check_delete_results("orders", &other_missing),
        Err(KafkaAppError::TopicOperation { operation: "delete", .. })
    ));

    let refused = vec![
        Ok("orders".to_string()),
        Err(("orders".to_string(), RDKafkaErrorCode::TopicAuthorizationFailed)),
        Err(("orders".to_string(), RDKafkaErrorCode::RequestTimedOut)),
    ];
    match TopicAdmin::check_delete_results("orders", &refused) {
        Err(KafkaAppError::TopicOperation { operation, topic, code }) => {
            assert_eq!(operation, "delete");
            assert_eq!(topic, "orders");
            assert_eq!(code, RDKafkaErrorCode::TopicAuthorizationFailed);
        }
        other => panic!("unexpected result: {other:?}"),
    }
}

#[test]
fn describing_twice_from_the_same_metadata_gives_the_same_answer() {
    let topics = vec![summary("orders", None, vec![1, 2])];
    let first = TopicAdmin::describe_from_metadata("orders", &topics).unwrap();
    let second = TopicAdmin::describe_from_metadata("orders", &topics).unwrap();
    assert_eq!(first, second);

    let missing = |_: ()| match TopicAdmin::describe_from_metadata("missing", &topics) {
        Err(KafkaAppError::TopicOperation { operation, topic, code }) => (operation, topic, code),
        other => panic!("unexpected result: {other:?}"),
    };
    assert_eq!(missing(()), missing(()));
}
