# Aegis AI ingest worker — verified core

The ingest worker turns topology reports of agents into rows of the
ClickHouse `system_events` table and into a Neo4j graph, runs that as a
Temporal workflow, and batches the event stream into ClickHouse.

`src/` is the library, verified with Verus:

- `domain` — the reported data (hosts, containers, processes, ports, routes,
  database schemas, MinIO notifications).
- `telemetry` — the `system_events` rows of a payload (all stamped with the
  time of the write) and of stream events, and the deduplication token of a
  payload's insert (company, agent, workflow run and activity), so that a
  retried activity does not write twice.
- `graph`, `graph_laws` — the Neo4j graph of a payload, the Cypher statements
  of its transaction, built from the same property names as the rows they
  unwind, and what holds of them (nodes keyed by raw id, company and agent,
  so tenants never share a node; every relation joining two nodes of the
  graph; sizes and per-host counts; statements only for non-empty lists).
- `batch` — micro-batching of the event stream (about ten thousand events
  per write), with the law that no event is lost, duplicated or
  reordered.
- `workflow` — the ingestion workflow as a state machine, with the law of its
  runs.
- `responses` — what the answers of MinIO and Neo4j mean.
- `config` — endpoints, credentials, TLS settings, ClickHouse table set-up.
- `errors`, `text` — error messages and text rendering.

`app/` is the worker binary: serde formats, Temporal, tokio, ClickHouse,
MinIO and Neo4j I/O, all decisions delegated to the library.
