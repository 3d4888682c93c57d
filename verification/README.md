# packet_sources

Keeps an operating system's traffic redirector running and connected: on Linux over Unix datagram
sockets, on Windows over a named pipe.

- `src/` is the library, verified with Verus. It decides and never performs I/O. A `LinuxTask`, a
  `WindowsTask` or a `Startup` holds the action that is under way; `step` takes in how that action
  went and decides on the next one.
  - `backoff`: delays between attempts, and when to give up
  - `linux`, `windows`: the two packet sources
  - `startup`: starting the Linux redirector with elevated privileges
  - `relay`: where the redirector's messages go, and how its end is reported
  - `text`: decimal numerals and UTF-16 strings
- `app/` performs the actions: processes, sockets, pipes, timers and the log.
- `tests/` runs the library on concrete values.

The one thing taken on trust is how the `log` crate reads the name of a level (`relay::parse_level`).
