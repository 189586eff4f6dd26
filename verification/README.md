# tokio_libevent

A libevent-compatible event layer on top of tokio. C code calls the usual
libevent entry points (`event_base_new`, `event_add`, `bufferevent_write`,
`evconnlistener_new_bind`, ...); the work is done by tokio tasks.

- `src/` is the library, verified with Verus: the libevent flags
  (`flags`), timeouts and their `timeval` form (`util`), events and their
  admission and wake-ups (`event`), the loop-exit decision (`event_base`), the
  byte buffers kept in `bytes::BytesMut` (`buffer`), the switches of buffer
  events (`bufferevent`), listener setup and the enable/disable protocol
  (`listener`), the self-pipe outcomes (`waker`) and the check of a libevent
  base's descriptor (`base`).
- `app/` holds the C entry points, pointers, sockets, the tokio runtime and
  tasks, and the libevent base driven through `libevent-sys`.
- `tests/` runs the library on concrete values.
