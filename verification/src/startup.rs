//! The environment configuration the registry's program starts from, and
//! the communication and replication settings it derives.
use vstd::prelude::*;
use crate::config::{
    AmqpConfig, CommunicationMethodConfig, CommunicationMethodType as MethodType, KafkaConfig,
    required, same_outcome, selected_communication,
};
use crate::replication::{CommunicationMethod, ReplicationMethodConfig, ReplicationRole};
use crate::text::str_eq;

verus! {

/// The communication method named in the environment.
#[derive(Clone, Copy, Debug, PartialEq, Eq, Structural)]
pub enum CommunicationMethodType {
    Kafka,
    Amqp,
    Grpc,
}

/// The program's configuration, read from the environment. Paths are held
/// as text.
pub struct Config {
    pub input_port: u16,
    pub db_name: String,
    pub replication_role: ReplicationRole,
    pub communication_method: CommunicationMethodType,
    pub kafka_brokers: Option<String>,
    pub kafka_group_id: Option<String>,
    pub amqp_connection_string: Option<String>,
    pub amqp_consumer_tag: Option<String>,
    pub replication_source: String,
    pub replication_destination: String,
    pub pod_name: Option<String>,
    pub export_dir: Option<String>,
    pub import_file: Option<String>,
    pub metrics_port: Option<u16>,
}

/// The same method as the command line names it.
pub open spec fn as_method_type(t: CommunicationMethodType) -> MethodType {
    match t {
        CommunicationMethodType::Kafka => MethodType::Kafka,
        CommunicationMethodType::Amqp => MethodType::Amqp,
        CommunicationMethodType::Grpc => MethodType::GRpc,
    }
}

/// The text `s` in lower case, as `str::to_lowercase` gives it.
pub uninterp spec fn lowercased(s: Seq<char>) -> Seq<char>;

/// `str::to_lowercase`, which maps each character to its Unicode lower-case
/// mapping; the contract names the result and states nothing more of it.
#[verifier::external_body]
pub(crate) fn to_lowercase(s: &str) -> (res: String)
    ensures
        res@ == lowercased(s@),
{
    s.to_lowercase()
}

/// The method that a lower-case name names: `kafka`, `amqp` or `grpc`.
pub open spec fn method_of_lowercase(s: Seq<char>) -> Option<CommunicationMethodType> {
    if s == "kafka"@ {
        Some(CommunicationMethodType::Kafka)
    } else if s == "amqp"@ {
        Some(CommunicationMethodType::Amqp)
    } else if s == "grpc"@ {
        Some(CommunicationMethodType::Grpc)
    } else {
        None
    }
}

/// Reads a communication method from a name already in lower case; any
/// other name is refused with ``"Invalid message queue type: `name`"``.
pub fn method_from_lowercase(lower: &str) -> (res: Result<CommunicationMethodType, String>)
    ensures
        match method_of_lowercase(lower@) {
            Some(t) => res == Ok::<CommunicationMethodType, String>(t),
            None => res matches Err(m) && m@ == "Invalid message queue type: `"@ + lower@ + "`"@,
        },
{
    if str_eq(lower, "kafka") {
        Ok(CommunicationMethodType::Kafka)
    } else if str_eq(lower, "amqp") {
        Ok(CommunicationMethodType::Amqp)
    } else if str_eq(lower, "grpc") {
        Ok(CommunicationMethodType::Grpc)
    } else {
        let mut m = String::from_str("Invalid message queue type: `");
        m.append(lower);
        m.append("`");
        Err(m)
    }
}

/// Reads a communication method from its name in the environment, in any
/// case (the deserialization of `CommunicationMethodType`).
pub fn parse_communication_method(text: &str) -> (res: Result<CommunicationMethodType, String>)
    ensures
        match method_of_lowercase(lowercased(text@)) {
            Some(t) => res == Ok::<CommunicationMethodType, String>(t),
            None => res matches Err(m) && m@ == "Invalid message queue type: `"@ + lowercased(text@) + "`"@,
        },
{
    let lower = to_lowercase(text);
    method_from_lowercase(lower.as_str())
}

/// The communication method the configuration selects, with the settings
/// it needs; a missing setting is reported by name.
pub fn communication_config(config: &Config) -> (res: Result<CommunicationMethodConfig, String>)
    ensures
        same_outcome(
            res,
            selected_communication(
                as_method_type(config.communication_method),
                config.kafka_brokers,
                config.kafka_group_id,
                config.amqp_connection_string,
                config.amqp_consumer_tag,
            ),
        ),
{
    match config.communication_method {
        CommunicationMethodType::Kafka => {
            let brokers = match required(&config.kafka_brokers, "Missing kafka brokers") {
                Ok(b) => b,
                Err(e) => return Err(e),
            };
            let group_id = match required(&config.kafka_group_id, "Missing kafka group") {
                Ok(g) => g,
                Err(e) => return Err(e),
            };
            Ok(CommunicationMethodConfig::Kafka(KafkaConfig { brokers, group_id }))
        },
        CommunicationMethodType::Amqp => {
            let connection_string = match required(&config.amqp_connection_string, "Missing amqp connection string") {
                Ok(c) => c,
                Err(e) => return Err(e),
            };
            let consumer_tag = match required(&config.amqp_consumer_tag, "Missing amqp consumer tag") {
                Ok(t) => t,
                Err(e) => return Err(e),
            };
            Ok(CommunicationMethodConfig::Amqp(AmqpConfig { connection_string, consumer_tag }))
        },
        CommunicationMethodType::Grpc => Ok(CommunicationMethodConfig::Grpc),
    }
}

/// What the replication settings come to: none over gRPC; otherwise the
/// message queue with the replication source and destination, or the
/// message naming the first missing queue setting.
pub open spec fn selected_replication(config: Config) -> Result<Option<ReplicationMethodConfig>, Seq<char>> {
    match config.communication_method {
        CommunicationMethodType::Grpc => Ok(None),
        CommunicationMethodType::Kafka => match (config.kafka_brokers, config.kafka_group_id) {
            (None, _) => Err("Missing kafka brokers"@),
            (Some(_), None) => Err("Missing kafka group"@),
            (Some(b), Some(g)) => Ok(Some(ReplicationMethodConfig {
                queue: CommunicationMethod::Kafka(KafkaConfig { brokers: b, group_id: g }),
                source: config.replication_source,
                destination: config.replication_destination,
            })),
        },
        CommunicationMethodType::Amqp => match (config.amqp_connection_string, config.amqp_consumer_tag) {
            (None, _) => Err("Missing amqp connection string"@),
            (Some(_), None) => Err("Missing amqp consumer tag"@),
            (Some(c), Some(t)) => Ok(Some(ReplicationMethodConfig {
                queue: CommunicationMethod::Amqp(AmqpConfig { connection_string: c, consumer_tag: t }),
                source: config.replication_source,
                destination: config.replication_destination,
            })),
        },
    }
}

/// The replication settings of the configuration.
pub fn replication_config(config: &Config) -> (res: Result<Option<ReplicationMethodConfig>, String>)
    ensures
        same_outcome(res, selected_replication(*config)),
{
    let queue = match config.communication_method {
        CommunicationMethodType::Kafka => {
            let brokers = match required(&config.kafka_brokers, "Missing kafka brokers") {
                Ok(b) => b,
                Err(e) => return Err(e),
            };
            let group_id = match required(&config.kafka_group_id, "Missing kafka group") {
                Ok(g) => g,
                Err(e) => return Err(e),
            };
            CommunicationMethod::Kafka(KafkaConfig { brokers, group_id })
        },
        CommunicationMethodType::Amqp => {
            let connection_string = match required(&config.amqp_connection_string, "Missing amqp connection string") {
                Ok(c) => c,
                Err(e) => return Err(e),
            };
            let consumer_tag = match required(&config.amqp_consumer_tag, "Missing amqp consumer tag") {
                Ok(t) => t,
                Err(e) => return Err(e),
            };
            CommunicationMethod::Amqp(AmqpConfig { connection_string, consumer_tag })
        },
        CommunicationMethodType::Grpc => {
            return Ok(None);
        },
    };
    Ok(Some(ReplicationMethodConfig {
        queue,
        destination: config.replication_destination.clone(),
        source: config.replication_source.clone(),
    }))
}

/// The name of the folder that an export is saved in, newly created in the
/// export directory, given the time of the export as text: `export_` and
/// the time.
pub fn export_folder_name(timestamp: &str) -> (res: String)
    ensures
        res@ == "export_"@ + timestamp@,
{
    let mut name = String::from_str("export_");
    name.append(timestamp);
    name
}

/// The name of the file that an export is written to in its folder, given
/// the time of the export as text: `export_`, the time, `.json`.
pub fn export_file_name(timestamp: &str) -> (res: String)
    ensures
        res@ == "export_"@ + timestamp@ + ".json"@,
{
    let mut name = String::from_str("export_");
    name.append(timestamp);
    name.append(".json");
    name
}

} // verus!
