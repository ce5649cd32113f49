# NetCanv core

The decision making of NetCanv, an online collaborative paint canvas, verified with Verus.

- `src/protocol.rs`: the values that the matchmaker and its peers exchange.
- `src/matchmaker/`: the matchmaker. `rooms.rs` and `peers.rs` keep track of who is where,
  `search.rs` says which of the IDs that are drawn is found free, `server.rs` decides what to do
  about each packet, `connection.rs` takes packets off a connection, and `laws.rs` states what the
  matchmaker can be relied on for.
- `src/paint/`: the paint screen. `state.rs` holds its state and decides what messages, ticks, input
  and clicks lead to. The other modules hold the parts of that state, where things go on
  the screen and what they consist of (`ui.rs`), and what the screen can be relied on for (`laws.rs`).
- `src/table.rs`: the hash table that the other modules store their entries in.
- `src/random.rs`, `src/paint/bus.rs`: random numbers and the message bus, which come from other
  crates and are trusted.
- `app/`: the matchmaker server itself, and the driver of the paint screen, which draws and sends
  what the library decides on.
