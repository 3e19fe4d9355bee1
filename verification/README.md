# datagen

Generates synthetic Kubernetes-style log records and ships each batch, as one
NDJSON body, to ClickHouse and to two OpenObserve instances (O2-Parquet and
O2-Vortex), for storage-engine benchmarks.

- `src/` is the library, verified with Verus: the vocabularies, the log-line
  templates, the record builder, the per-record seeding and batch schedule,
  request-body framing, delivery bookkeeping, the event-time range and
  argument checks.
- `app/` is the command-line driver: argument parsing, the Zipf sampler
  (floating point), JSON serialisation and the HTTP fan-out.
- `tests/` runs the library on concrete values.
