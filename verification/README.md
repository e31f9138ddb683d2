# logos_dev

Verified configuration and decision logic of the Logos development node and
its runtime, written in Verus.

`src/` is the verified library:

- `runtime_config`: runtime version, time and currency units, storage
  deposits, block weight and length limits, pallet limits.
- `ratio`: parts-per-billion ratios and weights, with trusted wrappers over
  `sp_arithmetic` and `sp_weights`.
- `era`: mortal transaction eras, with trusted wrappers over
  `u32::checked_next_power_of_two` and `sp_runtime`'s `Era::mortal`.
- `keys`: development keys derived from seeds (`sp_core`), account identifiers
  (`sp_runtime`) and keyring accounts (`sp_keyring`).
- `chain_spec`: genesis configuration and the built-in chain specifications.
- `benchmarking`: the transactions built for the benchmark commands.
- `cli`: node identity, choice of chain specification, and what each command does.
- `service`: which node services are started and how they are configured.

`app/` is the node program around the library: command-line parsing, the
Substrate service, RPC, transaction signing and the runtime composition, all of
which rest on Substrate crates and macros.
