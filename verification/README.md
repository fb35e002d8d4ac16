# hickory_dns

The configuration and startup rules of the `hickory-dns` server, verified with Verus.

- `src/` is the library. It checks a configuration, turns a command line and a configuration into
  the steps of a start, says how each socket is made and which sockets each transport binds, loads
  the stores of zones and the TLS certificate step by step, and decides how privileges are dropped.
  The module `laws` states what holds of every start.
- `tests/` runs the library.
- `app/` is the server around it: it parses the command line and the configuration file, opens
  files and sockets, and carries out the steps with the DNS server of `hickory_server`.

The library performs no input or output. Where a start needs some, the library hands out a request
(a step, a path to read, a socket to make), and the server hands back what came of it.
