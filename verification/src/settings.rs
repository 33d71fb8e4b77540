//! The registry's settings file, and the message-queue metadata source it
//! selects.
use vstd::prelude::*;

verus! {

/// The communication method named in the settings.
#[derive(Clone, Copy, Debug, PartialEq, Eq, Structural)]
pub enum CommunicationMethod {
    Kafka,
    Amqp,
    GRpc,
}

/// The registry's settings. Paths are held as text.
pub struct Settings {
    pub communication_method: CommunicationMethod,
    pub input_port: u16,
    pub import_file: Option<String>,
    pub export_dir: Option<String>,
    pub services: ServicesSettings,
    pub postgres: PostgresSettings,
    pub kafka: Option<KafkaSettings>,
    pub amqp: Option<AmqpSettings>,
}

/// The services the registry calls.
pub struct ServicesSettings {
    pub edge_registry_url: String,
}

/// The Postgres database the registry keeps its state in.
pub struct PostgresSettings {
    pub username: String,
    pub password: String,
    pub host: String,
    pub port: u16,
    pub dbname: String,
    pub schema: String,
}

/// The Kafka brokers.
pub struct KafkaSettings {
    pub brokers: String,
}

/// The AMQP exchange.
pub struct AmqpSettings {
    pub exchange_url: String,
}

/// Where the registry learns which insert destinations exist: from the
/// Kafka brokers, from the AMQP exchange, or (over gRPC) nowhere.
pub enum MetadataSource {
    Kafka { brokers: String },
    Amqp { exchange_url: String },
    Grpc,
}

impl Settings {
    /// The metadata source the settings select (what `metadata_fetcher`
    /// connects to): Kafka when Kafka is the method and its settings are
    /// given, AMQP likewise, gRPC whenever it is the method; anything else
    /// is refused with `"Unsupported consumer specification"`.
    pub fn metadata_fetcher(&self) -> (res: Result<MetadataSource, String>)
        ensures
            match self.communication_method {
                CommunicationMethod::Kafka => match self.kafka {
                    Some(k) => res == Ok::<MetadataSource, String>(MetadataSource::Kafka { brokers: k.brokers }),
                    None => res matches Err(m) && m@ == "Unsupported consumer specification"@,
                },
                CommunicationMethod::Amqp => match self.amqp {
                    Some(a) => res == Ok::<MetadataSource, String>(MetadataSource::Amqp { exchange_url: a.exchange_url }),
                    None => res matches Err(m) && m@ == "Unsupported consumer specification"@,
                },
                CommunicationMethod::GRpc => res == Ok::<MetadataSource, String>(MetadataSource::Grpc),
            },
    {
        match (&self.kafka, &self.amqp, self.communication_method) {
            (Some(kafka), _, CommunicationMethod::Kafka) => Ok(MetadataSource::Kafka { brokers: kafka.brokers.clone() }),
            (_, Some(amqp), CommunicationMethod::Amqp) => Ok(MetadataSource::Amqp { exchange_url: amqp.exchange_url.clone() }),
            (_, _, CommunicationMethod::GRpc) => Ok(MetadataSource::Grpc),
            _ => Err(String::from_str("Unsupported consumer specification")),
        }
    }
}

/// The statement that makes a database connection use the configured SQL
/// schema.
pub fn set_schema_statement(db_schema: &str) -> (res: String)
    ensures
        res@ == "SET SCHEMA '"@ + db_schema@ + "'"@,
{
    let mut s = String::from_str("SET SCHEMA '");
    s.append(db_schema);
    s.append("'");
    s
}

} // verus!
