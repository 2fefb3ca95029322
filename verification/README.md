# sidekiq

Sidekiq-compatible jobs for Rust, verified with Verus.

The library in `src/` decides what is written to Redis for a job and what a worker gets of it. It
performs no I/O: pushing a job is a state machine that says which command comes next, and
scheduling, retrying and heartbeats return the commands to run.

- `opts`, `job`, `json`: options, jobs and their payloads, job arguments.
- `unit_of_work`: pushing, scheduling and retrying; unique jobs.
- `worker`: workers, their class names and what they get of a job's arguments.
- `stats`, `metrics`: counters, heartbeats for Redis and readings for OpenTelemetry.
- `telemetry`: how much is traced, and the events.
- `namespace`: prefixes of Redis keys.
- `clock`, `random`, `text`: the calendar, random identifiers, and the texts that are written.

Functions that read the clock or draw at random come in pairs: one takes the value and says exactly
what it returns, the other draws the value and says what holds of every outcome.

`app/` is the asynchronous runtime around the library: connection pool, serialization, `tracing` and
OpenTelemetry.
