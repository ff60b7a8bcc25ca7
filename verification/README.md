# tokio-multicast

Helpers for UDP multicast, with the logic verified by Verus.

- `src/` is the verified library: the address model (`address.rs`), socket
  settings and their builder (`config.rs`, `builder.rs`), the setup sequence
  of a multicast socket (`raw.rs`), the traced socket2 calls (`trace.rs`)
  and the code that carries the setup out (`sys.rs`), membership
  bookkeeping and the joins, leaves and group sends on a running socket
  (`membership.rs`, `socket.rs`), received datagrams (`packet.rs`), error
  messages (`error.rs`) and the loopback diagnostics (`diagnostics.rs`).
- `app/` is the asynchronous layer: a Tokio `UdpSocket` registered from a
  socket that the library set up, with `join`, `leave`, `send_to_group`,
  `recv_datagram` and a receiver wrapper, and conversions to std's address
  types.
- Every call that the library makes on a socket goes through a
  `TracedSocket`, whose ghost trace records the call and its outcome; the
  contracts of the setup, of membership changes and of the diagnostics state
  which calls are made, with which arguments, and what each outcome leads to.
- The platform layer follows Winsock: port reuse is set with `SO_REUSEADDR`,
  and the IPv6 loopback interface index is not looked up.
- `tests/` runs the library.
