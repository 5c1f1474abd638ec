# crossfs

Shared cockpits across flight simulators: one simulator (the master) reports
its aircraft through a server, and the others (followers) glide along.

- `src/` is the verified library: the session's timing and role decisions
  (`lib.rs`), the wire framing and the server's admission and relay rules
  (`net.rs`), the X-Plane link and plugin decisions (`xplane.rs`,
  `plugin.rs`), the MSFS freeze handling (`msfs.rs`) and the command-line
  rules (`cli.rs`). Aircraft reports are a type parameter: their fields are
  floating point and never read by the decisions.
- `app/` is the program around it: sockets, threads, channels, serde and
  postcard encoding, the simulator SDKs, and the floating-point blending of
  aircraft reports.
- `tests/` exercises the library on concrete values.
