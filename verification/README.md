# model_permits

Authority over model permits. A host gives a worker a permit for one exact
request policy; under it the worker reserves, claims and bills provider requests,
moves to new instructions at boundaries, controls its children, waits for them,
runs native jobs, exports output and looks things up on the web. The library
decides each of these; it does no I/O.

- `src/authority.rs`: permits, grants, leases; issuing, replacing, revoking.
- `src/dispatch.rs`, `src/ledger.rs`: reserving, claiming at most once, billing.
- `src/boundary.rs`: moving a permit to a new instruction revision.
- `src/session.rs`, `src/upload.rs`, `src/cpu_jobs.rs`: a worker's private channel.
- `src/control.rs`, `src/wait.rs`, `src/web.rs`: what a worker may ask for.
- `src/context.rs`: what is recorded of a model request.
- `src/launch.rs`, `src/events.rs`: launching a worker, and its output.
- `src/laws.rs`, `src/run_laws.rs`: what holds of all this as a whole.
- `src/outside.rs`: the calls into other crates, and what is believed of them.

The host reads its store, its clock and its processes, hands the readings to the
library as plain values, and performs what comes back. `app/` is such a host: its
records are in redb, its channels and processes on tokio.
