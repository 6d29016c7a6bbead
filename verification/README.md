# punchr

A client that measures how often hole punching succeeds. In each round it registers with a server,
asks it for a remote peer, dials that peer through a relay, lets the direct connection upgrade
protocol punch a hole, and reports how that went.

- `src/` is the library. It decides what the client does and what it reports, and is verified with
  Verus. `session` holds the course of a client, `hole_punch` that of a single hole punch;
  `session_laws` and `hole_punch_laws` state what holds of every one of them.
- `tests/` are tests of the library.
- `app/` is the program around it: the network stack, the connection to the server, the command line
  and the log. `app/grpc.rs` takes in what `tonic-build` generates from the server's protocol
  buffers, and so needs `OUT_DIR` to be set.

The program takes `--url`, `--secret-key-seed` and, for a limited number of rounds, `--rounds`. The
key that the server knows the client by is read from the environment variable `API_KEY`.
