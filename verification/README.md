# rust_playground

A small verified library and the program around it.

- `src/operations.rs`: the named operations (`add`, `mul`), the `Runner` that lists and
  runs them, and one function per operation.
- `src/fibonacci.rs`: the Fibonacci numbers, computed iteratively, and the proof that 93 is
  the largest input whose Fibonacci number fits in a `u64`.
- `src/proof_service.rs`: the proof service's answer to each request and its decisions on
  a request stream.
- `src/compute.rs`: the compute service (sum, product, power of `i64` operands).
- `src/proxy.rs`: the proxy's registry of workers and its decisions on a worker's stream.
- `src/stream.rs`: the items of an inbound request stream and the error statuses (kind and text) that the services send.
- `app/main.rs`: runs the operations and the services over in-process channels.

Every function in `src/` is verified with Verus against its contract.
