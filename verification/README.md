# wasmcloud_hub

The core of a control plane hub for wasmCloud lattices, verified with Verus.

* `src/` is the library. It decides what the hub does: how a lattice is added, changed, listed,
  read, deleted and watched; how a new lattice gets its account and its keys; how a server's
  question for authorization is answered; how secrets are sealed; where messages are routed.
* `app/` is what runs around it: the message bus, the buckets, the registry, the WebAssembly engine,
  the command line. `generator_component.rs` and `authorizer_component.rs` are the roots of the two
  components that the hub runs.
* `tests/` runs the library on concrete values.

An operation that needs the outside world is a chain of values in the library. Each names an effect
to be performed, takes the outcome, and gives the next one, until there is a result. The laws about
what such an operation leaves behind stand in `lattice_store.rs` and `lattice_proto_store.rs`.
