# bee_node

Pieces of a gossip node, verified with Verus.

- `src/message/`: the indexation feature block of an output with its binary
  form, and what a node notes of a message.
- `src/network/`: the list of the peers of a node, and the service that carries
  out commands and follows internal events, step by step. `laws.rs` states what
  holds of the service as a whole.
- `src/random/`: random message metadata.
- `app/`: the service run on tokio, with its channels, locks and timers.
