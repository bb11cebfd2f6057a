# cyphal-node

A Cyphal/CAN node for RP2040 boards, with its logic verified by Verus.

`src/` is the verified library. It touches no hardware: its functions decide, and the firmware
performs what they ask for and reports how it went.

| Module | What it decides |
|---|---|
| `node_task` | initialisation, setup, the main loop and resets of a Cyphal node |
| `pnp` | plug-and-play node-ID allocation |
| `handler`, `execute_command`, `outbox` | transfers, commands, application extensions |
| `ota` | firmware download over `uavcan.file.Read` |
| `node_info` | the `uavcan.node.GetInfo` response |
| `driver`, `can_frame`, `clock` | the MCP25xx controller and timestamps |
| `isotp`, `can_updater` | ISO-TP transfers and firmware updates over them |
| `can`, `can_consumer`, `can_cli_commands`, `util` | CAN service, frame routing, its settings |
| `cli`, `text` | the command line |
| `shoulder`, `settings` | the shoulder sensor application |
| `template` | the template application |
| `wire`, `bytes`, `byte_buf`, `time` | data types, byte order, buffers, durations |

Functions whose names begin with `law_` state what holds of several functions together, such as
that a transfer arrives as it was sent, or that a download writes exactly the file.

What the library takes from other crates stands behind functions marked
`#[verifier::external_body]`; their comments say what is claimed of the crate.

`app/` is the firmware: peripherals, tasks and executors. `tests/` runs the library on a host.
