pub mod config;
pub mod db;
pub mod encoding;
pub mod error;
pub mod ids;
pub mod json;
pub mod replication;
pub mod rpc;
pub mod schemas;
pub mod seqs;
pub mod service;
pub mod settings;
pub mod startup;
pub mod text;
pub mod types;
pub mod utils;
pub mod validation;

pub use config::{AmqpConfig, CommunicationMethodConfig, KafkaConfig};
