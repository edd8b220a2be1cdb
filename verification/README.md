# FutureTerm

A terminal for serial ports that runs in a web browser, and the daemon that serves a
machine's ports to browsers without a serial interface.

`src/` is the verified library. What it decides and computes is stated in contracts and
proved by Verus; what it has from other crates stands behind a few trusted items, each
with its own statement of what is believed.

| Module | What it holds |
| --- | --- |
| `types` | frames, decoded events, and the traits of decoders |
| `framing` | cutting a byte stream into frames: lines, raw, COBS, SLIP |
| `decoders` | frames as text, hex dumps, MAVLink and NMEA events |
| `analysis` | how much a buffer looks like text or packets |
| `protocol` | connection states, commands, events, errors |
| `runtime` | messages between actors, where commands go, timeouts |
| `actors` | the actors as state machines: state, port, probe, reconnect |
| `bridge` | the daemon: requests and answers, ports, certificates |
| `browser` | the browser's serial ports and its connection to the daemon |
| `transport` | errors and settings of byte streams |
| `float`, `text`, `json`, `encoding` | numbers by their bit patterns, text, JSON fields, base64 |

An actor never sends, waits or opens anything itself: a handler returns a turn, which
lists the effects that are due and says how to go on. `app/` performs them and hands back
what came of them. It holds the daemon's `main`, the sockets and files, the browser's
objects, and the copies of types that are serialised.

`tests/` runs the library.
