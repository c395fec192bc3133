# rc_rover

Protocol and control logic of a remote-controlled rover, verified with Verus.

- `src/protocol.rs`: frame kinds and the 5-byte command frame sent to the car.
- `src/telemetry.rs`: the 5-byte telemetry frame sent by the car, and its reader.
- `src/dashboard.rs`: the messages exchanged with the dashboard as JSON.
- `src/drive.rs`: keyboard driving: held keys, the motor values they ask for.
- `src/query.rs`: motor values given as decimal text, and the reply to them.
- `src/text.rs`: decimal text of integers.
- `src/relay.rs`: the backend's decisions on what arrives over its websockets.
- `app/`: the backend server and a car-only logging server (axum), and the
  dashboard page (dioxus, meant for a browser build); they do the I/O and call
  the library for every decision.
