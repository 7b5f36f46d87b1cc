# whitepool

A lightweight, generic worker pool for tokio: a manager task owns a queue of
idle resources, hands them out on checkout, takes them back on checkin, opens
up to `max_overflow` extra resources while the pool is empty, and replaces
resources reported destroyed.

- `src/` is the verified library. `pool.rs` holds the manager: its state,
  the contract of every request it handles, and the invariant that each
  request keeps. `session.rs` turns channel outcomes into the results that a
  session returns. `laws.rs` proves properties that span several requests.
- `app/` holds the asynchronous side: the `Pool` task that creates resources
  and drives the manager, `Session`, `Resource` and the channel plumbing.
- `tests/` runs the library on concrete values.
