# Managed node pools

A Kubernetes operator that creates a node pool when there are pods assigned to it
and destroys it when none of them is left or all of them have finished. DigitalOcean is supported.

A pod asks for a pool by its node selector:

```yaml
nodeSelector:
  dgolubets.github.io/managed-node-pool: managed-pool-1.test
```

The value is the name of the `ManagedNodePool`, a dot and its namespace.

## Layout

- `src/` is the library, verified with Verus. It holds every decision and does no
  I/O.
  - `operator`: a pass over a managed pool, as a session that asks for one thing
    at a time and is resumed with the reply.
  - `pool`, `pods`: how pools and pods are named, matched and marked.
  - `digital_ocean`: requests to DigitalOcean and what its replies mean.
  - `timeout`: the idle timeout as it is written in a manifest. Its grammar is
    that of the `duration_str` crate, the only code that the proofs take on trust.
  - `model`, `labels`, `time`: the data, with views over mathematical values.
  - `laws`: what holds of the operator as a whole.
- `app/` is the program around it: the clients for Kubernetes and DigitalOcean, and
  the loop that performs what a session asks for. `app crd` prints the definition
  of the custom resource.
- `tests/` runs the library.
