# netif

Network interface control and virtual tun/tap interfaces, with the logic
verified by Verus.

- `src/` is the verified library. It holds the kernel request structures
  (`ifreq` and its relatives) with their name and flag fields, the flag
  sets, the routing socket dump parser, the interface list built from the
  system's address list, and the decisions of every operation that talks to
  the system: bringing an interface up or down, classifying its link,
  creating a tun/tap interface on Linux or through a `/dev` driver, opening
  a TAP-Windows device, and overlapped reads and writes on a Windows handle.
  Each of those operations is a state machine: the caller performs the
  action it returns and hands back what came of it. Proof functions state
  what the machines achieve when run against a model of the system.
- `app/` performs the system calls (ioctls, `getifaddrs`, sysctl, the
  registry, device files) and runs the library's machines.
- `tests/` exercise the library on concrete values.
