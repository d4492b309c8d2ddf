# voidns

The verified core of a desktop DNS client: a privileged service runs a local
DNS → DNS-over-HTTPS proxy and points the system resolver at it; clients drive
it over a local socket.

- `src/` — the library, verified with Verus:
  - `proto` — commands, events, status snapshots, upstream selection;
  - `controller` — the Connect/Disconnect state machine and its laws;
  - `ipc` — length-prefixed framing and command routing;
  - `cli` — the client's and the service's command lines, and reply handling;
  - `doh` — DoH endpoint selection and the extra-CA decision;
  - `redirect` — per-OS redirect records, restores and tool arguments;
  - `parse` — parsers for `/proc/net/route`, `netsh` and `networksetup` output;
  - `text`, `net` — the character model and address/number text.
- `app/` — the Linux service binary: sockets, hickory proxy, D-Bus, files.
- `tests/` — runtime tests of the library.
