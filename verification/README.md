# wineserver

A Windows NT "kernel" server core for running Windows processes on a Unix
host, written in Verus.

- `src/` is the verified library:
  - `protocol` — requests, replies, NT timeouts and socket paths;
  - `ptr` — pointers that carry a small datum in their low bits;
  - `clock` — the server clock and its sorted wall-clock and monotonic timer
    lists;
  - `net` — the kernel event queue bookkeeping: which changes to submit,
    what a failed submission means, and reading the reported events;
  - `process`, `thread` — the records of hosted Windows processes and
    threads and their reaction to poll events;
  - `loader` — the table of memory areas reserved before start-up.
- `app/` is the host side: sockets, descriptor passing, the event queue
  system calls, clock readings and the server loop.
- `tests/` exercises the library.
