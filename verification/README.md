# contract_registry

The rules of a smart-contract registry, written and proved in Verus.

- `src/clock.rs`: points in time; the arithmetic on them is `chrono`'s.
- `src/health.rs`: the health report of a contract.
- `src/health_store.rs`: the statements of a health check.
- `src/monitor.rs`: the monitor that repeats the sweep.
- `src/sweep.rs`: the sweep over all contracts, as a state machine.
- `src/activity_feed.rs`: the statement behind the activity feed, and its pages.
- `src/sql.rs`: statements with numbered placeholders.
- `src/ids.rs`: identifiers.
- `app/`: the service around the library (HTTP, database, background task).

Each contract is stated over plain mathematical values. Properties that span
several functions are the proof functions whose names begin with `law_`. What is
taken on trust are the five wrappers at the end of `src/clock.rs`, and that
`uuid::Uuid` is a type.
