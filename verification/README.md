# socketcan_hw

Linux SocketCAN as an adapter for vehicle diagnostics: a device per CAN network interface, a raw
CAN channel and an ISO-TP channel on it, and a scanner that finds the interfaces.

- `src/` is the library, verified with Verus. It decides everything and performs no I/O: an
  operation that needs a socket or the clock is a sequence of steps, each of which says what to do
  next and takes what came of it.
- `app/` performs the steps with the sockets of `socketcan` and `socketcan-isotp`, and shares a
  device among its channels behind a lock.
- `tests/` runs the library on concrete values.
