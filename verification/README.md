# schema_registry

The schema registry of the Common Data Layer: it stores schemas and the
views built on them, checks data against a schema's field definitions,
answers the registry's gRPC requests, exports and imports its state, and
replicates changes between instances.

`src/` is the library, verified with Verus. JSON documents are held as
`json::JsonValue`; identifiers as the `u128` of their UUID.

- `validation`: checking data against field definitions, with the exact
  message of the first violation, and the proof that a check passes exactly
  when the data conforms.
- `service`: what the gRPC handlers decide (reading requests, refusing
  malformed ones with their status, building replies).
- `db`: grouping views under schemas, updates, export, and the import plan,
  with the proof that importing an export restores what was exported.
- `replication`: the role state of an instance and how a replica applies
  events.
- `utils`: resolving definitions that refer to other schemas.
- `config`, `startup`, `settings`: deriving connection settings.
- `rpc`: the wire enumerations, messages, request routing and client errors.
- `error`: the registry's errors, their messages and status codes.
- `encoding`: JSON text of documents (`serde_json`) and JSON Schema checks
  (`jsonschema`), behind trusted wrappers.

`app/` is the program around the library: it reads the environment,
converts between `serde_json` and the library's documents, runs the loops
that call other services, and reads and writes export files.
