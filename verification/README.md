# p4net

Rules of a simulated P4 module network, verified with Verus.

A P4 is built from transmitters (basic, advanced, hub). Each transmitter has
system modules (PI, PV, HMI) on an internal bus and COM modules that talk to
neighbouring transmitters over an external bus. The COM modules find out who
their neighbours are, hand out IPv4 addresses to the system modules, and then
forward raw IPv4 packets between the buses.

Layout:

- `src/` — the verified library
  - `wire.rs`: IPv4 addresses and networks; the calls into smoltcp's IPv4
    wire code (header length checks, network membership, unicast test).
  - `discovery.rs`: hubs, transmitters, neighbour information and the
    address plan (`determine_ip`).
  - `codec.rs`: the discovery message, the JSON form of the neighbour
    information: written compactly, read as serde_json reads the enum
    (whitespace between tokens, `\u` escapes in names, `{"<name>":null}`
    for unit variants).
  - `com.rs`: the COM module's decisions: configuration from neighbour
    replies and the messages it sends in each step, address assignment,
    and the routing direction of packets.
  - `net.rs`: interface selection for sends, fan-out on the internal bus,
    the frame cache of a device, and the bus/socket marker types.
- `tests/` — tests of the library.
- `app/` — the simulation itself: tokio channels, smoltcp interfaces and
  sockets, the async modules and the P4 assemblies that drive the library.
