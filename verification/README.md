# async_kcp

Sessions of the KCP protocol over UDP, with their decisions verified in Verus.

- `src/header.rs`: the conversation and sequence number in a packet.
- `src/addr.rs`: addresses of peers as plain numbers.
- `src/manager.rs`: the sessions of a listener, at most one per peer.
- `src/session.rs`: one session: what goes into its KCP machine, when it is
  updated, expires and shuts down.
- `src/dispatcher.rs`, `src/dispatcher_laws.rs`: which session a datagram is for, when
  one is created or replaced, and what holds of all of that.
- `src/listener.rs`, `src/channel.rs`: how new sessions are accepted.
- `src/endpoint_laws.rs`: what holds of dispatcher, sessions and accepting together.
- `app/`: the tasks, channels and sockets around it, on async-std. The KCP machine
  and the stream on top of a session are parameters (`app/socket.rs`).

Each part of `src/` that waits for the outside is a state machine: it takes an event
and returns what has to be done next. The laws that hold of all runs are the public
proof functions beside them.
