# rust-messenger

A peer-to-peer messaging client: candidate discovery and pairing, connection
offers, UDP hole punching, secure sessions, and encrypted chat messages with
delivery and read receipts.

- `src/` is the library, verified with Verus: the client's decisions (which
  pair to use, which ports to bind, how long to wait, what a received packet
  means, how a message is sealed and opened, how the stored sessions,
  handshakes and requests change) stand there with their contracts.
- `app/` is the command-line program around it: files under
  `~/.rust-messenger`, the registry's HTTP API, UDP sockets, STUN, and the loops
  that the library's decisions drive.
- `tests/` runs the library on concrete values.
