# udp_relay

A UDP relay node. A master asks the node, over a small HTTP interface, to
start relays; each relay joins a client (left) and a server (right) through
a UDP port of the node, reports its state to the master, and stops when it
receives `quit`. A monitor stops relays that have been idle too long.

- `src/` is the verified library (Verus): the master's API URLs and the
  data-centre id reading (`conf`), the registry of running relays and its
  expiry rule (`registry`), endpoints and their text (`net`), status reports
  (`report`), the relay's decisions (`udp_server`) and the HTTP routing and
  answers (`http_server`).
- `app/` is the unverified shell: environment, sockets, hyper, ureq and the
  JSON forms of the library's values.
- `tests/` runs the library on concrete values.
