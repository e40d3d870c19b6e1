# signalbroker_lin_transceiver_rp

A LIN-bus transceiver that bridges a LIN bus (over a serial port) and a UDP
signal broker. The protocol logic is a Verus-verified library under `src/`:

- `lib.rs`: message constants, node modes, counters, configuration hashes, ports.
- `record.rs`, `records.rs`: the table of LIN frames and their write caches.
- `lin_frame.rs`: protected identifiers and frame checksums (computed by `lin-bus`).
- `config.rs`: the device configuration the broker sends, heartbeats and
  requests for missing configuration items.
- `lin_udp_client.rs`: what a master or slave does on the bus, the UDP
  messages to the broker, and finding LIN headers in the serial byte stream.

`app/` is the program around it: the configuration file, sockets, the serial
port, timers and the tasks that run the loops.
