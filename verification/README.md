# executor

The verified core of a LayerZero executor.

- `src/executor.rs` decodes the two wire formats the executor listens for:
  the 100-byte packet header with its message, and the `PacketSent` payload.
- `src/executor_def.rs` holds a worker's decisions between events: an
  `ExecutorFeePaid` event naming the worker assigns it the newest pending
  packet, one naming another executor drops the pending packets, and a
  `PacketVerified` event executes the assigned packet; it also reads the guid
  and message passed to `lzReceive` from a raw packet.
- `src/types.rs` maps the endpoint's verification and execution states to the
  next step of the workflow.
- `src/config.rs` builds the command line the executor is launched with.
- `src/be.rs` reads big-endian integers; `src/primitives.rs` states what the
  library relies on of alloy's `Address`, `FixedBytes` and the `bytes` buffer.

`app/` holds the program around it (`executor <url>` listens for packets,
`executor worker <url> <endpoint> <send library> <address>` runs a worker): the websocket subscriptions, the contract
calls, the YAML configuration file and the serde forms of the payloads.
