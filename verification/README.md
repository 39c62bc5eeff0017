# cleverest

A desktop screencast: the client captures the screen and streams frames to
the server over QUIC; the server acknowledges them and shows them in a window.

- `src/` is the verified library (Verus):
  - `common/protocol.rs`: the messages of the protocol and the outcome of a
    stream read;
  - `common/util.rs`: timestamps and the conversion between RGBA frames and
    images of the `image` crate;
  - `common/network.rs`: the server's QUIC configuration;
  - `common/error.rs`: the error type;
  - `client.rs`: the client's handshake, its reaction to each server message
    and the frames it sends;
  - `server.rs`: the connection protocol as a state machine with its laws,
    the frame counters, the capture toggle and the BGRA to ARGB drawing of the
    display buffer.
- `app/` holds the programs: sockets, tasks, screen capture, the window, the
  bincode encoding of the messages and the command line.
- `tests/` runs the library on concrete values.
