# openot_persistence

Durable persistence of OpenOT documents into one selected database, with the
decisions proved in Verus.

- `src/` is the verified library: the sink contract and its in-memory
  reference ledger, document identities, batch settlement and counting, the
  SQL Server statement planner and parameter binding, the InfluxDB 3 line
  protocol, spool splitting, reconciliation planning and delivery
  bookkeeping, catalog fingerprints, configuration selection, status
  projection, error redaction, the worker and supervisor state machines,
  and the carriage consumer's binding decisions. Public `law_*` proof
  functions state the properties that hold across calls.
- `tests/` exercises the library on concrete values.
- `app/` holds the database adapters (SQLite, PostgreSQL/TimescaleDB,
  MySQL/MariaDB, SQL Server, InfluxDB 3 with its SQLite spool) and the
  service thread; each performs the I/O and asks the library what to do.
