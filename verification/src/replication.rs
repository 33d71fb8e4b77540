//! Replication of the registry between instances: the events a master
//! sends, how a replica applies them, and the role state that decides
//! whether events are sent or consumed.
use vstd::prelude::*;
use crate::config::{AmqpConfig, KafkaConfig};
use crate::json::JsonValue;
use crate::rpc::schema_registry_types::SchemaType;
use crate::text::str_eq;
use crate::types::schema::NewSchema;
use crate::types::storage::vertices::View as VertexView;
use crate::types::view::ViewUpdate;

verus! {

/// A new version of a schema: its version number and its definition.
pub struct NewSchemaVersion {
    pub version: String,
    pub definition: JsonValue,
}

/// A change to the registry, as the master sends it to its replicas.
pub enum ReplicationEvent {
    AddSchema { schema: NewSchema, id: u128 },
    AddSchemaVersion { id: u128, new_version: NewSchemaVersion },
    UpdateSchemaMetadata {
        id: u128,
        name: Option<String>,
        insert_destination: Option<String>,
        query_address: Option<String>,
        schema_type: Option<SchemaType>,
    },
    AddViewToSchema { schema_id: u128, view: VertexView, view_id: u128 },
    UpdateView { id: u128, view: ViewUpdate },
}

/// The role of an instance in replication.
#[derive(Clone, Copy, Debug, PartialEq, Eq, Structural)]
pub enum ReplicationRole {
    Master,
    Slave,
    Disabled,
}

/// The role that a configuration text names (`master`, `slave` or `none`).
pub open spec fn replication_role_of(text: Seq<char>) -> Option<ReplicationRole> {
    if text == "master"@ {
        Some(ReplicationRole::Master)
    } else if text == "slave"@ {
        Some(ReplicationRole::Slave)
    } else if text == "none"@ {
        Some(ReplicationRole::Disabled)
    } else {
        None
    }
}

impl ReplicationRole {
    /// Reads a role from its configuration text.
    pub fn from_config_text(text: &str) -> (res: Option<ReplicationRole>)
        ensures
            res == replication_role_of(text@),
    {
        if str_eq(text, "master") {
            Some(ReplicationRole::Master)
        } else if str_eq(text, "slave") {
            Some(ReplicationRole::Slave)
        } else if str_eq(text, "none") {
            Some(ReplicationRole::Disabled)
        } else {
            None
        }
    }
}

/// The message queue that replication events travel over, and the topics
/// (or queues) they are read from and written to.
pub struct ReplicationMethodConfig {
    pub queue: CommunicationMethod,
    pub source: String,
    pub destination: String,
}

/// A message queue: Kafka or AMQP.
pub enum CommunicationMethod {
    Kafka(KafkaConfig),
    Amqp(AmqpConfig),
}

impl CommunicationMethod {
    /// A copy of the queue settings.
    pub fn duplicate(&self) -> (res: CommunicationMethod)
        ensures
            res == *self,
    {
        match self {
            CommunicationMethod::Kafka(k) => CommunicationMethod::Kafka(k.duplicate()),
            CommunicationMethod::Amqp(a) => CommunicationMethod::Amqp(a.duplicate()),
        }
    }
}

impl ReplicationMethodConfig {
    /// A copy of the replication settings.
    pub fn duplicate(&self) -> (res: ReplicationMethodConfig)
        ensures
            res == *self,
    {
        ReplicationMethodConfig {
            queue: self.queue.duplicate(),
            source: self.source.clone(),
            destination: self.destination.clone(),
        }
    }
}

/// What a replica starts when it takes a role: sending events as master, or
/// consuming them as slave, with the replication settings to use.
pub enum ReplicationStart {
    Master(ReplicationMethodConfig),
    Slave(ReplicationMethodConfig),
}

/// What taking a new role asks of the runtime: whether to signal the
/// replication that runs now to stop, and what to start instead.
pub struct RoleChange {
    pub stop_previous: bool,
    pub start: Option<ReplicationStart>,
}

/// The replication state of an instance: its role, whether a replication
/// task runs (and can be told to stop), and whether the channel to the
/// master's sender is open. A task runs exactly when the role is not `None`;
/// the master channel is open only for a master.
pub struct ReplicationState {
    replication_role: ReplicationRole,
    replication_running: bool,
    master_channel_open: bool,
    message_queue_config: ReplicationMethodConfig,
}

impl ReplicationState {
    /// The state is consistent: a task runs exactly when there is a role, and
    /// only a master has an open channel.
    pub closed spec fn wf(self) -> bool {
        &&& self.replication_running == (self.replication_role != ReplicationRole::Disabled)
        &&& self.master_channel_open ==> self.replication_role == ReplicationRole::Master
    }

    /// The role.
    pub closed spec fn role(self) -> ReplicationRole {
        self.replication_role
    }

    /// Whether a replication task runs.
    pub closed spec fn running(self) -> bool {
        self.replication_running
    }

    /// Whether the channel to the master's sender is open.
    pub closed spec fn sends(self) -> bool {
        self.master_channel_open
    }

    /// The replication settings.
    pub closed spec fn settings(self) -> ReplicationMethodConfig {
        self.message_queue_config
    }

    /// A state with no role, no task and no channel.
    pub fn new(message_queue_config: ReplicationMethodConfig) -> (res: ReplicationState)
        ensures
            res.wf(),
            res.role() == ReplicationRole::Disabled,
            !res.running(),
            !res.sends(),
            res.settings() == message_queue_config,
    {
        ReplicationState {
            replication_role: ReplicationRole::Disabled,
            replication_running: false,
            master_channel_open: false,
            message_queue_config,
        }
    }

    /// The current role.
    pub fn replication_role(&self) -> (res: ReplicationRole)
        ensures
            res == self.role(),
    {
        self.replication_role
    }

    /// Takes a new role: the running replication, if any, is told to stop and
    /// the master channel is closed; then a master starts sending and a slave
    /// starts consuming, both with the replication settings, and `None`
    /// starts nothing.
    pub fn set_role(&mut self, role: ReplicationRole) -> (res: RoleChange)
        requires
            old(self).wf(),
        ensures
            final(self).wf(),
            final(self).role() == role,
            final(self).settings() == old(self).settings(),
            final(self).running() == (role != ReplicationRole::Disabled),
            final(self).sends() == (role == ReplicationRole::Master),
            res.stop_previous == old(self).running(),
            match role {
                ReplicationRole::Master => res.start == Some(ReplicationStart::Master(old(self).settings())),
                ReplicationRole::Slave => res.start == Some(ReplicationStart::Slave(old(self).settings())),
                ReplicationRole::Disabled => res.start is None,
            },
    {
        let stop_previous = self.replication_running;
        self.replication_running = false;
        self.master_channel_open = false;
        self.replication_role = role;
        let start = match role {
            ReplicationRole::Master => {
                self.replication_running = true;
                self.master_channel_open = true;
                Some(ReplicationStart::Master(self.message_queue_config.duplicate()))
            },
            ReplicationRole::Slave => {
                self.replication_running = true;
                Some(ReplicationStart::Slave(self.message_queue_config.duplicate()))
            },
            ReplicationRole::Disabled => None,
        };
        RoleChange { stop_previous, start }
    }

    /// Whether an event is sent to the replicas: only by a master whose
    /// channel is open.
    pub fn replicate_message(&self) -> (res: bool)
        ensures
            res == (self.role() == ReplicationRole::Master && self.sends()),
    {
        self.replication_role == ReplicationRole::Master && self.master_channel_open
    }
}

/// Only a master sends events, and after taking the master role an instance
/// sends every event until it takes another role; after taking any other
/// role it sends none.
pub proof fn only_a_master_replicates(s: ReplicationState)
    requires
        s.wf(),
    ensures
        s.sends() ==> s.role() == ReplicationRole::Master,
        !s.running() ==> !s.sends(),
{
}

/// A change that a replica makes to its database when it applies an event.
pub enum DbOperation {
    AddSchema { schema: NewSchema, id: Option<u128> },
    AddSchemaVersion { id: u128, new_version: NewSchemaVersion },
    AddViewToSchema { schema_id: u128, view: VertexView, view_id: Option<u128> },
    UpdateSchemaName { id: u128, name: String },
    UpdateSchemaInsertDestination { id: u128, insert_destination: String },
    UpdateSchemaQueryAddress { id: u128, query_address: String },
    UpdateSchemaType { id: u128, schema_type: SchemaType },
    UpdateView { id: u128, view: ViewUpdate },
}

/// The operations for the metadata fields that an update gives, in the
/// order name, insert destination, query address, schema type.
pub open spec fn metadata_operations(
    id: u128,
    name: Option<String>,
    insert_destination: Option<String>,
    query_address: Option<String>,
    schema_type: Option<SchemaType>,
) -> Seq<DbOperation> {
    (match name { Some(n) => seq![DbOperation::UpdateSchemaName { id, name: n }], None => Seq::empty() })
        + (match insert_destination {
        Some(d) => seq![DbOperation::UpdateSchemaInsertDestination { id, insert_destination: d }],
        None => Seq::empty(),
    }) + (match query_address {
        Some(a) => seq![DbOperation::UpdateSchemaQueryAddress { id, query_address: a }],
        None => Seq::empty(),
    }) + (match schema_type {
        Some(t) => seq![DbOperation::UpdateSchemaType { id, schema_type: t }],
        None => Seq::empty(),
    })
}

/// The operations that apply an event, in the order they are run; the
/// replica stops at the first that fails.
pub open spec fn event_operations(event: ReplicationEvent) -> Seq<DbOperation> {
    match event {
        ReplicationEvent::AddSchema { schema, id } => seq![DbOperation::AddSchema { schema, id: Some(id) }],
        ReplicationEvent::AddSchemaVersion { id, new_version } => seq![DbOperation::AddSchemaVersion { id, new_version }],
        ReplicationEvent::AddViewToSchema { schema_id, view, view_id } =>
            seq![DbOperation::AddViewToSchema { schema_id, view, view_id: Some(view_id) }],
        ReplicationEvent::UpdateSchemaMetadata { id, name, insert_destination, query_address, schema_type } =>
            metadata_operations(id, name, insert_destination, query_address, schema_type),
        ReplicationEvent::UpdateView { id, view } => seq![DbOperation::UpdateView { id, view }],
    }
}

/// The number of fields that a metadata update gives.
pub open spec fn given_count(
    name: Option<String>,
    insert_destination: Option<String>,
    query_address: Option<String>,
    schema_type: Option<SchemaType>,
) -> int {
    (if name is Some { 1int } else { 0int }) + (if insert_destination is Some { 1int } else { 0int })
        + (if query_address is Some { 1int } else { 0int }) + (if schema_type is Some { 1int } else { 0int })
}

/// A replica applies a metadata update by updating each field that the
/// update gives, with the value it gives, once each, and nothing else: a
/// field not given is not touched, and every operation is on the updated
/// schema.
pub proof fn metadata_update_applies_given_fields(
    id: u128,
    name: Option<String>,
    insert_destination: Option<String>,
    query_address: Option<String>,
    schema_type: Option<SchemaType>,
)
    ensures
        ({
            let ops = event_operations(
                ReplicationEvent::UpdateSchemaMetadata { id, name, insert_destination, query_address, schema_type },
            );
            &&& ops.len() == given_count(name, insert_destination, query_address, schema_type)
            &&& forall|k: int| 0 <= k < ops.len() ==> (match #[trigger] ops[k] {
                DbOperation::UpdateSchemaName { id: i, .. } => i == id && name is Some,
                DbOperation::UpdateSchemaInsertDestination { id: i, .. } => i == id && insert_destination is Some,
                DbOperation::UpdateSchemaQueryAddress { id: i, .. } => i == id && query_address is Some,
                DbOperation::UpdateSchemaType { id: i, .. } => i == id && schema_type is Some,
                _ => false,
            })
            &&& name matches Some(n) ==> exists|k: int|
                0 <= k < ops.len() && ops[k] == DbOperation::UpdateSchemaName { id, name: n }
            &&& insert_destination matches Some(d) ==> exists|k: int|
                0 <= k < ops.len() && ops[k] == DbOperation::UpdateSchemaInsertDestination { id, insert_destination: d }
            &&& query_address matches Some(a) ==> exists|k: int|
                0 <= k < ops.len() && ops[k] == DbOperation::UpdateSchemaQueryAddress { id, query_address: a }
            &&& schema_type matches Some(t) ==> exists|k: int|
                0 <= k < ops.len() && ops[k] == DbOperation::UpdateSchemaType { id, schema_type: t }
        }),
{
    let s1: Seq<DbOperation> = match name {
        Some(n) => seq![DbOperation::UpdateSchemaName { id, name: n }],
        None => Seq::empty(),
    };
    let s2: Seq<DbOperation> = match insert_destination {
        Some(d) => seq![DbOperation::UpdateSchemaInsertDestination { id, insert_destination: d }],
        None => Seq::empty(),
    };
    let s3: Seq<DbOperation> = match query_address {
        Some(a) => seq![DbOperation::UpdateSchemaQueryAddress { id, query_address: a }],
        None => Seq::empty(),
    };
    let s4: Seq<DbOperation> = match schema_type {
        Some(t) => seq![DbOperation::UpdateSchemaType { id, schema_type: t }],
        None => Seq::empty(),
    };
    let ops = event_operations(
        ReplicationEvent::UpdateSchemaMetadata { id, name, insert_destination, query_address, schema_type },
    );
    assert(ops == s1 + s2 + s3 + s4);
    let l1 = s1.len() as int;
    let l2 = s2.len() as int;
    let l3 = s3.len() as int;
    assert forall|k: int| 0 <= k < ops.len() implies (match #[trigger] ops[k] {
        DbOperation::UpdateSchemaName { id: i, .. } => i == id && name is Some,
        DbOperation::UpdateSchemaInsertDestination { id: i, .. } => i == id && insert_destination is Some,
        DbOperation::UpdateSchemaQueryAddress { id: i, .. } => i == id && query_address is Some,
        DbOperation::UpdateSchemaType { id: i, .. } => i == id && schema_type is Some,
        _ => false,
    }) by {
        if k < l1 {
            assert(ops[k] == s1[k]);
        } else if k < l1 + l2 {
            assert(ops[k] == s2[k - l1]);
        } else if k < l1 + l2 + l3 {
            assert(ops[k] == s3[k - l1 - l2]);
        } else {
            assert(ops[k] == s4[k - l1 - l2 - l3]);
        }
    }
    if let Some(n) = name {
        assert(ops[0] == s1[0]);
    }
    if let Some(d) = insert_destination {
        assert(ops[l1] == s2[0]);
    }
    if let Some(a) = query_address {
        assert(ops[l1 + l2] == s3[0]);
    }
    if let Some(t) = schema_type {
        assert(ops[l1 + l2 + l3] == s4[0]);
    }
}

/// How a replica applies an event it consumed (`consume_message`, once
/// the payload is read): the database operations to run, in order.
pub fn consume_event(event: ReplicationEvent) -> (res: Vec<DbOperation>)
    ensures
        res@ == event_operations(event),
{
    let ghost e = event;
    let mut ops: Vec<DbOperation> = Vec::new();
    match event {
        ReplicationEvent::AddSchema { schema, id } => {
            ops.push(DbOperation::AddSchema { schema, id: Some(id) });
        },
        ReplicationEvent::AddSchemaVersion { id, new_version } => {
            ops.push(DbOperation::AddSchemaVersion { id, new_version });
        },
        ReplicationEvent::AddViewToSchema { schema_id, view, view_id } => {
            ops.push(DbOperation::AddViewToSchema { schema_id, view, view_id: Some(view_id) });
        },
        ReplicationEvent::UpdateSchemaMetadata { id, name, insert_destination, query_address, schema_type } => {
            let ghost (n0, d0, a0, t0) = (name, insert_destination, query_address, schema_type);
            if let Some(name) = name {
                ops.push(DbOperation::UpdateSchemaName { id, name });
            }
            if let Some(insert_destination) = insert_destination {
                ops.push(DbOperation::UpdateSchemaInsertDestination { id, insert_destination });
            }
            if let Some(query_address) = query_address {
                ops.push(DbOperation::UpdateSchemaQueryAddress { id, query_address });
            }
            if let Some(schema_type) = schema_type {
                ops.push(DbOperation::UpdateSchemaType { id, schema_type });
            }
            assert(ops@ =~= metadata_operations(id, n0, d0, a0, t0));
        },
        ReplicationEvent::UpdateView { id, view } => {
            ops.push(DbOperation::UpdateView { id, view });
        },
    }
    assert(ops@ =~= event_operations(e));
    ops
}

/// What a replica's message handler answers: once the replica has been told
/// to stop it refuses the message with `"Slave replication disabled"`, which
/// ends consumption; otherwise it applies the message (an error in applying
/// it is logged, not returned) and accepts it.
pub fn handle_outcome(stop_requested: bool) -> (res: Result<(), String>)
    ensures
        stop_requested ==> (res matches Err(m) && m@ == "Slave replication disabled"@),
        !stop_requested ==> res is Ok,
{
    if stop_requested {
        Err(String::from_str("Slave replication disabled"))
    } else {
        Ok(())
    }
}

/// The consumer a replica reads events with.
pub enum ConsumerConfig {
    Kafka { group_id: String, brokers: String, topic: String },
    Amqp { connection_string: String, consumer_tag: String, queue_name: String },
}

/// The consumer that reads the replication source: on Kafka the source is
/// the topic, on AMQP the queue (with default options).
pub fn consumer_config(config: &ReplicationMethodConfig) -> (res: ConsumerConfig)
    ensures
        match config.queue {
            CommunicationMethod::Kafka(k) => res == (ConsumerConfig::Kafka {
                group_id: k.group_id,
                brokers: k.brokers,
                topic: config.source,
            }),
            CommunicationMethod::Amqp(a) => res == (ConsumerConfig::Amqp {
                connection_string: a.connection_string,
                consumer_tag: a.consumer_tag,
                queue_name: config.source,
            }),
        },
{
    match &config.queue {
        CommunicationMethod::Kafka(kafka) => ConsumerConfig::Kafka {
            group_id: kafka.group_id.clone(),
            brokers: kafka.brokers.clone(),
            topic: config.source.clone(),
        },
        CommunicationMethod::Amqp(amqp) => ConsumerConfig::Amqp {
            connection_string: amqp.connection_string.clone(),
            consumer_tag: amqp.consumer_tag.clone(),
            queue_name: config.source.clone(),
        },
    }
}

} // verus!
