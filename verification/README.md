# daemon_slayer

The verified core of a toolkit for writing system services, proved with Verus.

- `src/` is the library, verified by Verus. Its public functions carry contracts, and its laws are proof functions. It covers:
  - mDNS service and query names, with their parsers and printers and the round-trip laws between them;
  - picking the address on the default route's network;
  - the command tables and builders of the command line, and the decisions of the command providers;
  - the process status and run-time text;
  - the argument lines of notifications and dialogs;
  - socket-activation planning and grouping;
  - service exit codes and control events;
  - the tray menu's transitions.
- `app/` is ordinary Rust around the library. It reads interfaces and routes, talks to the mDNS daemon, reads the process table, shows notifications and dialogs, and opens sockets. It then hands plain values to the library.
- `tests/` runs the library on concrete values.

Calls into outside crates (ipnet, clap, sysinfo, mdns-sd, std's string functions) go through a few trusted items. Each has a doc comment that states what its contract claims.
