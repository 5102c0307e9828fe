# easytier_ios

The core that an iOS network extension links to run EasyTier: it starts and stops a
network instance, attaches a tunnel device to it, tells its listeners of changes, and
hands out snapshots of its running info over a C interface.

What the core decides is verified with Verus; what it does to the outside world is
ordinary Rust around that.

- `src/json.rs`: JSON documents as mathematical values, and the calls into `serde_json`.
- `src/dense.rs`: what a snapshot is with every dropped field put back.
- `src/dropped.rs`: what the protobuf JSON writer leaves out, and that it comes back.
- `src/running_info.rs`: the functions that put dropped fields back.
- `src/session.rs`: the running instance and its latest snapshot.
- `src/events.rs`: the callbacks on events of the running instance.
- `src/config.rs`: the checks on a configuration, its keys among them.
- `src/logger.rs`: the steps of setting up and clearing the file logger.
- `src/fault.rs`: why a call fails, and how a failure is answered.
- `app/`: the C interface, the file logger and the calls into EasyTier.
- `tests/`: the tests of the library.
