use schema_registry::config::{self, CommunicationMethodConfig, CommunicationMethodType};
use schema_registry::replication::{
    consume_event, consumer_config, handle_outcome, CommunicationMethod, ConsumerConfig, DbOperation, ReplicationEvent,
    ReplicationMethodConfig, ReplicationRole, ReplicationStart, ReplicationState,
};
use schema_registry::rpc::schema_registry_types::SchemaType;
use schema_registry::settings::{
    set_schema_statement, AmqpSettings, CommunicationMethod as SettingsMethod, KafkaSettings, MetadataSource,
    PostgresSettings, ServicesSettings, Settings,
};
use schema_registry::startup;
use schema_registry::{AmqpConfig, KafkaConfig};

fn s(text: &str) -> String {
    text.to_string()
}

fn cli_config(method: CommunicationMethodType) -> config::Config {
    config::Config {
        input_port: 50101,
        db_username: s("postgres"),
        db_password: s("secret"),
        db_host: s("localhost"),
        db_port: 5432,
        db_name: s("registry"),
        db_schema: s("public"),
        communication_method: method,
        kafka_brokers: None,
        kafka_group_id: None,
        amqp_connection_string: None,
        amqp_consumer_tag: None,
        export_dir: None,
        import_file: None,
        metrics_port: 58105,
        status_port: 3000,
    }
}

fn env_config(method: startup::CommunicationMethodType) -> startup::Config {
    startup::Config {
        input_port: 50101,
        db_name: s("registry"),
        replication_role: ReplicationRole::Master,
        communication_method: method,
        kafka_brokers: None,
        kafka_group_id: None,
        amqp_connection_string: None,
        amqp_consumer_tag: None,
        replication_source: s("cdl.schema_registry.internal"),
        replication_destination: s("cdl.schema_registry.internal"),
        pod_name: None,
        export_dir: None,
        import_file: None,
        metrics_port: None,
    }
}

fn err_of<T>(r: Result<T, String>) -> String {
    match r {
        Err(e) => e,
        Ok(_) => panic!("expected an error"),
    }
}

#[test]
fn kafka_needs_brokers_then_group() {
    let mut c = cli_config(CommunicationMethodType::Kafka);
    assert_eq!(err_of(config::communication_config(&c)), "Missing kafka brokers");
    c.kafka_group_id = Some(s("group"));
    assert_eq!(err_of(config::communication_config(&c)), "Missing kafka brokers");
    c.kafka_brokers = Some(s("localhost:9092"));
    c.kafka_group_id = None;
    assert_eq!(err_of(config::communication_config(&c)), "Missing kafka group");
    c.kafka_group_id = Some(s("group"));
    match config::communication_config(&c) {
        Ok(CommunicationMethodConfig::Kafka(KafkaConfig { brokers, group_id })) => {
            assert_eq!(brokers, "localhost:9092");
            assert_eq!(group_id, "group");
        }
        _ => panic!("expected kafka"),
    }
}

#[test]
fn amqp_needs_connection_string_then_tag() {
    let mut c = cli_config(CommunicationMethodType::Amqp);
    assert_eq!(err_of(config::communication_config(&c)), "Missing amqp connection string");
    c.amqp_connection_string = Some(s("amqp://localhost"));
    assert_eq!(err_of(config::communication_config(&c)), "Missing amqp consumer tag");
    c.amqp_consumer_tag = Some(s("tag"));
    match config::communication_config(&c) {
        Ok(CommunicationMethodConfig::Amqp(AmqpConfig { connection_string, consumer_tag })) => {
            assert_eq!(connection_string, "amqp://localhost");
            assert_eq!(consumer_tag, "tag");
        }
        _ => panic!("expected amqp"),
    }
}

#[test]
fn grpc_needs_nothing() {
    let c = cli_config(CommunicationMethodType::GRpc);
    assert!(matches!(config::communication_config(&c), Ok(CommunicationMethodConfig::Grpc)));
    let e = env_config(startup::CommunicationMethodType::Grpc);
    assert!(matches!(startup::communication_config(&e), Ok(CommunicationMethodConfig::Grpc)));
    assert!(matches!(startup::replication_config(&e), Ok(None)));
}

#[test]
fn communication_method_names_in_any_case() {
    assert_eq!(startup::parse_communication_method("Kafka"), Ok(startup::CommunicationMethodType::Kafka));
    assert_eq!(startup::parse_communication_method("AMQP"), Ok(startup::CommunicationMethodType::Amqp));
    assert_eq!(startup::parse_communication_method("grpc"), Ok(startup::CommunicationMethodType::Grpc));
    assert_eq!(
        err_of(startup::parse_communication_method("Rabbit")),
        "Invalid message queue type: `rabbit`"
    );
    assert_eq!(err_of(startup::method_from_lowercase("x")), "Invalid message queue type: `x`");
}

#[test]
fn replication_config_of_kafka() {
    let mut e = env_config(startup::CommunicationMethodType::Kafka);
    assert_eq!(err_of(startup::replication_config(&e)), "Missing kafka brokers");
    e.kafka_brokers = Some(s("b:9092"));
    assert_eq!(err_of(startup::replication_config(&e)), "Missing kafka group");
    e.kafka_group_id = Some(s("g"));
    match startup::replication_config(&e) {
        Ok(Some(ReplicationMethodConfig { queue: CommunicationMethod::Kafka(k), source, destination })) => {
            assert_eq!(k.brokers, "b:9092");
            assert_eq!(k.group_id, "g");
            assert_eq!(source, "cdl.schema_registry.internal");
            assert_eq!(destination, "cdl.schema_registry.internal");
        }
        _ => panic!("expected kafka replication"),
    }
}

#[test]
fn replication_config_of_amqp() {
    let mut e = env_config(startup::CommunicationMethodType::Amqp);
    e.amqp_connection_string = Some(s("amqp://h"));
    assert_eq!(err_of(startup::replication_config(&e)), "Missing amqp consumer tag");
    e.amqp_consumer_tag = Some(s("t"));
    assert!(matches!(
        startup::replication_config(&e),
        Ok(Some(ReplicationMethodConfig { queue: CommunicationMethod::Amqp(_), .. }))
    ));
    assert!(matches!(startup::communication_config(&e), Ok(CommunicationMethodConfig::Amqp(_))));
}

#[test]
fn replication_roles_from_text() {
    assert_eq!(ReplicationRole::from_config_text("master"), Some(ReplicationRole::Master));
    assert_eq!(ReplicationRole::from_config_text("slave"), Some(ReplicationRole::Slave));
    assert_eq!(ReplicationRole::from_config_text("none"), Some(ReplicationRole::Disabled));
    assert_eq!(ReplicationRole::from_config_text("Master"), None);
}

fn kafka_replication() -> ReplicationMethodConfig {
    ReplicationMethodConfig {
        queue: CommunicationMethod::Kafka(KafkaConfig { brokers: s("b"), group_id: s("g") }),
        source: s("src"),
        destination: s("dst"),
    }
}

#[test]
fn only_a_master_sends_events() {
    let mut state = ReplicationState::new(kafka_replication());
    assert_eq!(state.replication_role(), ReplicationRole::Disabled);
    assert!(!state.replicate_message());

    let change = state.set_role(ReplicationRole::Master);
    assert!(!change.stop_previous);
    assert!(matches!(change.start, Some(ReplicationStart::Master(_))));
    assert!(state.replicate_message());

    let change = state.set_role(ReplicationRole::Slave);
    assert!(change.stop_previous);
    assert!(matches!(change.start, Some(ReplicationStart::Slave(_))));
    assert!(!state.replicate_message());

    let change = state.set_role(ReplicationRole::Disabled);
    assert!(change.stop_previous);
    assert!(change.start.is_none());
    assert!(!state.replicate_message());
    assert_eq!(state.replication_role(), ReplicationRole::Disabled);

    let change = state.set_role(ReplicationRole::Disabled);
    assert!(!change.stop_previous);
}

#[test]
fn metadata_event_becomes_one_operation_per_field() {
    let ops = consume_event(ReplicationEvent::UpdateSchemaMetadata {
        id: 7,
        name: Some(s("n")),
        insert_destination: None,
        query_address: Some(s("q")),
        schema_type: Some(SchemaType::Timeseries),
    });
    assert_eq!(ops.len(), 3);
    assert!(matches!(&ops[0], DbOperation::UpdateSchemaName { id: 7, name } if name == "n"));
    assert!(matches!(&ops[1], DbOperation::UpdateSchemaQueryAddress { id: 7, query_address } if query_address == "q"));
    assert!(matches!(&ops[2], DbOperation::UpdateSchemaType { id: 7, schema_type: SchemaType::Timeseries }));
    let none = consume_event(ReplicationEvent::UpdateSchemaMetadata {
        id: 7,
        name: None,
        insert_destination: None,
        query_address: None,
        schema_type: None,
    });
    assert!(none.is_empty());
}

#[test]
fn slave_consumer_settings_and_stop() {
    match consumer_config(&kafka_replication()) {
        ConsumerConfig::Kafka { group_id, brokers, topic } => {
            assert_eq!(group_id, "g");
            assert_eq!(brokers, "b");
            assert_eq!(topic, "src");
        }
        _ => panic!("expected kafka consumer"),
    }
    let amqp = ReplicationMethodConfig {
        queue: CommunicationMethod::Amqp(AmqpConfig { connection_string: s("c"), consumer_tag: s("t") }),
        source: s("queue"),
        destination: s("dst"),
    };
    assert!(matches!(consumer_config(&amqp), ConsumerConfig::Amqp { queue_name, .. } if queue_name == "queue"));
    assert_eq!(handle_outcome(true), Err(s("Slave replication disabled")));
    assert_eq!(handle_outcome(false), Ok(()));
}

fn settings(method: SettingsMethod) -> Settings {
    Settings {
        communication_method: method,
        input_port: 50101,
        import_file: None,
        export_dir: None,
        services: ServicesSettings { edge_registry_url: s("http://localhost:50110") },
        postgres: PostgresSettings {
            username: s("postgres"),
            password: s("secret"),
            host: s("localhost"),
            port: 5432,
            dbname: s("postgres"),
            schema: s("cdl"),
        },
        kafka: None,
        amqp: None,
    }
}

#[test]
fn metadata_source_follows_the_method() {
    let mut k = settings(SettingsMethod::Kafka);
    assert_eq!(k.metadata_fetcher().err(), Some(s("Unsupported consumer specification")));
    k.kafka = Some(KafkaSettings { brokers: s("b") });
    assert!(matches!(k.metadata_fetcher(), Ok(MetadataSource::Kafka { brokers }) if brokers == "b"));
    let mut a = settings(SettingsMethod::Amqp);
    a.kafka = Some(KafkaSettings { brokers: s("b") });
    assert_eq!(a.metadata_fetcher().err(), Some(s("Unsupported consumer specification")));
    a.amqp = Some(AmqpSettings { exchange_url: s("amqp://x") });
    assert!(matches!(a.metadata_fetcher(), Ok(MetadataSource::Amqp { exchange_url }) if exchange_url == "amqp://x"));
    assert!(matches!(settings(SettingsMethod::GRpc).metadata_fetcher(), Ok(MetadataSource::Grpc)));
    assert_eq!(set_schema_statement("cdl"), "SET SCHEMA 'cdl'");
}
