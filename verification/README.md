# orchestrator

A home automation server: a GraphQL API over switches, lights, shutters and
voltage meters that speak MQTT (Tasmota-style topics), with the devices and
voltage readings kept in SQLite.

- `src/` is the library, verified with Verus: the registry of named devices
  (`device_registry`), the command and report topics and payloads of each kind
  of device (`devices`, `mqtt`), the decoding of status reports from JSON
  (`json` and the `model` modules), the routing of incoming publications to
  subscribers (`mqtt::client`), the outcomes of the database operations on
  stored devices (`devices::registry::service`), decimal text (`decimal`) and
  the configuration read at start (`config`).
- `app/` is the program around it: the database, the MQTT broker and client,
  the GraphQL schema and the web server.
- `tests/` runs the library on concrete values.
