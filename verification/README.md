# caduceus

The core of a daemon that works GitHub issues and reviews pull requests,
written in Verus: its rules are executable Rust, each with a contract that the
verifier proves.

- `src/` is the library. It decides; it touches no file, clock or network. What
  the world looks like comes in as plain values, and what is to be done goes out
  as plain values.
  - `state` keeps the issue queue, the reviews, checkpoints, container runs,
    retention, and the versions of the database.
  - `scheduler` holds circuits, leases, leadership, exclusion and the worker
    pool.
  - `review` validates results, renders the sticky comment, and steps through
    publication.
  - `repo` places mirrors, worktrees and quarantined clones, and judges what git
    answered.
  - `meta`, `migrate`, `poll`, `verify`, `readiness`, `worker` and `runtime`
    hold the rules around a tick.
  - `text`, `path`, `time`, `json`, `yaml`, `link`, `digest` and `ordered` are
    what the rest is written in. The functions of outside crates that the
    library calls are declared here, each with what is believed of it.
- `tests/` runs the library on concrete values.
- `app/` is ordinary Rust around the library: files, locks, the database,
  processes and HTTP.
