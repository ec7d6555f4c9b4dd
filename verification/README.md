# mesh-jawn

A Meshtastic bot and relay. The relay bridges a Meshtastic radio and NATS
JetStream: every mesh packet is published on `cbmesh.packet.<PORT>`, node
records go to the `cbmesh_nodes` key-value bucket, and messages published on
`cbmesh.outbound` are transmitted over the radio. The bot reads text packets
from the stream and answers commands (`.help`, `.ping`, `.welcome`,
`.whoami`, `.info`) sent to it as direct messages.

## Layout

- `src/` is the verified library (Verus): message truncation to the radio's
  200-byte limit, the command registry and replies, command parsing, the
  node tracker, packet subjects, NATS headers, and the decisions of the relay
  and bot loops, each with its contract and the laws that tie them together.
- `app/` is the program around it: command-line arguments, logging setup,
  the radio connection, NATS and HTTP I/O, and JSON (de)serialization.
- `tests/` runs the library on concrete values.
