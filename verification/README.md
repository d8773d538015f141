# sof

Observation of a ledger from its network traffic and from outside providers, verified with Verus.

- `src/` is the library. Its functions carry contracts, and what holds across functions is stated
  as public proof functions next to the code that it is about. Of what a clock reads nothing is
  claimed; what is made of a reading is stated.
  - `ingest` collects UDP packets into batches and queues them.
  - `relay` frames packets for peers and keeps recent ones to be asked for again.
  - `reassembly` puts shreds together into data sets, into contiguous runs and into slots.
  - `provider_stream` follows Yellowstone gRPC, LaserStream and websocket providers: what to
    subscribe to, what an update means, when to reconnect, what to replay.
- `app/` is the runtime around it: sockets, tasks, timers, and the wire types of other crates.
- `tests/` runs the library.

What the library takes on trust of other crates stands in `src/` as functions marked
`external_body`, each with a comment that says what is claimed.
