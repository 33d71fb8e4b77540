//! The command-line configuration of the registry and the message-queue
//! connection it selects.
use vstd::prelude::*;

verus! {

/// How the registry talks to the other services: over Kafka, over AMQP, or
/// over gRPC.
pub enum CommunicationMethodConfig {
    Kafka(KafkaConfig),
    Amqp(AmqpConfig),
    Grpc,
}

/// The Kafka brokers to connect to and the consumer group to join.
pub struct KafkaConfig {
    pub brokers: String,
    pub group_id: String,
}

/// The AMQP server to connect to and the consumer tag to use.
pub struct AmqpConfig {
    pub connection_string: String,
    pub consumer_tag: String,
}

impl KafkaConfig {
    /// A copy of the configuration.
    pub fn duplicate(&self) -> (res: KafkaConfig)
        ensures
            res == *self,
    {
        KafkaConfig { brokers: self.brokers.clone(), group_id: self.group_id.clone() }
    }
}

impl AmqpConfig {
    /// A copy of the configuration.
    pub fn duplicate(&self) -> (res: AmqpConfig)
        ensures
            res == *self,
    {
        AmqpConfig { connection_string: self.connection_string.clone(), consumer_tag: self.consumer_tag.clone() }
    }
}

/// The communication method named on the command line (`grpc` is also
/// accepted for `GRpc`).
#[derive(Clone, Copy, Debug, PartialEq, Eq, Structural)]
pub enum CommunicationMethodType {
    Amqp,
    Kafka,
    GRpc,
}

/// The registry's configuration, from command-line arguments or the
/// environment. Paths are held as text.
pub struct Config {
    /// Port to listen on
    pub input_port: u16,
    /// Postgres username
    pub db_username: String,
    /// Postgres password
    pub db_password: String,
    /// Host of the postgres server
    pub db_host: String,
    /// Port on which postgres server listens (5432 unless given)
    pub db_port: u16,
    /// Database name
    pub db_name: String,
    /// SQL schema available for service (`public` unless given)
    pub db_schema: String,
    /// The method of communication with external services.
    pub communication_method: CommunicationMethodType,
    /// Address of Kafka brokers
    pub kafka_brokers: Option<String>,
    /// Group ID of the consumer
    pub kafka_group_id: Option<String>,
    /// Connection URL to AMQP server
    pub amqp_connection_string: Option<String>,
    /// Consumer tag
    pub amqp_consumer_tag: Option<String>,
    /// Directory to save state of the database. The state is saved in a
    /// newly created folder named with the time of the export
    /// (`export_folder_name`)
    pub export_dir: Option<String>,
    /// JSON file from which the registry should load its initial state. If
    /// the state already exists this is ignored
    pub import_file: Option<String>,
    /// Port to listen on for Prometheus requests
    pub metrics_port: u16,
    /// Port exposing status of the application
    pub status_port: u16,
}

/// What selecting a communication method comes to: the method with the
/// settings it needs, or the message naming the first missing setting.
pub open spec fn selected_communication(
    method: CommunicationMethodType,
    kafka_brokers: Option<String>,
    kafka_group_id: Option<String>,
    amqp_connection_string: Option<String>,
    amqp_consumer_tag: Option<String>,
) -> Result<CommunicationMethodConfig, Seq<char>> {
    match method {
        CommunicationMethodType::Kafka => match (kafka_brokers, kafka_group_id) {
            (None, _) => Err("Missing kafka brokers"@),
            (Some(_), None) => Err("Missing kafka group"@),
            (Some(b), Some(g)) => Ok(CommunicationMethodConfig::Kafka(KafkaConfig { brokers: b, group_id: g })),
        },
        CommunicationMethodType::Amqp => match (amqp_connection_string, amqp_consumer_tag) {
            (None, _) => Err("Missing amqp connection string"@),
            (Some(_), None) => Err("Missing amqp consumer tag"@),
            (Some(c), Some(t)) => Ok(CommunicationMethodConfig::Amqp(AmqpConfig { connection_string: c, consumer_tag: t })),
        },
        CommunicationMethodType::GRpc => Ok(CommunicationMethodConfig::Grpc),
    }
}

/// `res` is `expected`, where an error is compared by its message.
pub open spec fn same_outcome<T>(res: Result<T, String>, expected: Result<T, Seq<char>>) -> bool {
    match (res, expected) {
        (Ok(a), Ok(b)) => a == b,
        (Err(m), Err(t)) => m@ == t,
        _ => false,
    }
}

/// Copies the optional setting, or fails with `missing`.
pub(crate) fn required(setting: &Option<String>, missing: &str) -> (res: Result<String, String>)
    ensures
        match *setting {
            Some(s) => res == Ok::<String, String>(s),
            None => res matches Err(m) && m@ == missing@,
        },
{
    match setting {
        Some(s) => Ok(s.clone()),
        None => Err(String::from_str(missing)),
    }
}

/// The communication method the configuration selects, with the settings
/// it needs: Kafka needs brokers and a group, AMQP a connection string and a
/// consumer tag; a missing one is reported by name.
pub fn communication_config(config: &Config) -> (res: Result<CommunicationMethodConfig, String>)
    ensures
        same_outcome(
            res,
            selected_communication(
                config.communication_method,
                config.kafka_brokers,
                config.kafka_group_id,
                config.amqp_connection_string,
                config.amqp_consumer_tag,
            ),
        ),
{
    match config.communication_method {
        CommunicationMethodType::Kafka => {
            let brokers = match required(&config.kafka_brokers, "Missing kafka brokers") {
                Ok(b) => b,
                Err(e) => return Err(e),
            };
            let group_id = match required(&config.kafka_group_id, "Missing kafka group") {
                Ok(g) => g,
                Err(e) => return Err(e),
            };
            Ok(CommunicationMethodConfig::Kafka(KafkaConfig { brokers, group_id }))
        },
        CommunicationMethodType::Amqp => {
            let connection_string = match required(&config.amqp_connection_string, "Missing amqp connection string") {
                Ok(c) => c,
                Err(e) => return Err(e),
            };
            let consumer_tag = match required(&config.amqp_consumer_tag, "Missing amqp consumer tag") {
                Ok(t) => t,
                Err(e) => return Err(e),
            };
            Ok(CommunicationMethodConfig::Amqp(AmqpConfig { connection_string, consumer_tag }))
        },
        CommunicationMethodType::GRpc => Ok(CommunicationMethodConfig::Grpc),
    }
}

} // verus!
