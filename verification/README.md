# cim_network

Network infrastructure domain of the Composable Information Machine:
device aggregates and their state machine, domain events and commands,
network topologies and their generation, router and switch
configuration, deployment workflows, the interactive topology builder,
and the adapters to UniFi controllers, NetBox and NATS JetStream.

- `src/` is the library. Its logic is proved by Verus against
  `requires`/`ensures` contracts. The calls into outside crates (fresh
  UUIDs, the clock, percent-encoding, HTTP status texts, case mapping,
  debug quoting) stand behind small trusted wrappers whose contracts are
  stated in their doc comments; those that give fresh identifiers or the
  time promise nothing about the value, and the constructors built on
  them (new identifiers, the identifier of a new device) say nothing
  of it either.
- `tests/` exercises the library on concrete values.
- `app/` holds the input and output around it: the NATS event store, the
  UniFi and NetBox HTTP clients, the terminal builder, the writing of
  generated Nix files, the deployment entry points, and the asynchronous
  network service that runs device lifecycles against the adapters.

Not part of this crate: the graph-based SDN builder and agent, the
context-graph template engine, the compute-resource bridge to the
infrastructure domain, and the workflow-engine runners. They are built on
the `cim_graph`, `cim_domain_nix`, `cim_domain_infrastructure` and
`cim_domain_workflow` crates, which are not dependencies here.
