# agent_network

Node software of the DAC agent network: public nodes that execute agent
tasks with a language model, compute nodes that register with the network,
and validator nodes that approve nodes, agents and task results.

- `src/` is the verified library. Every function there carries a Verus
  contract: the addresses each instruction uses (program-derived addresses),
  the account filters that select nodes, agents, tasks and goals, the state
  machines that claim a node and wait for its activation, the context that a
  task hands the model, the checks a validator applies to a task result, the
  ed25519 instruction layout of a TEE signature, and the text parsing of
  system information. Calls into outside crates (solana-sdk, ed25519-dalek,
  sha2, base64, solana-ed25519-program) stand behind small trusted wrappers
  whose contracts are stated next to them.
- `tests/` runs the library against the outside crates on concrete values.
- `app/` holds what cannot be verified: the three node programs, RPC and
  IPFS transport, serde encodings of the published documents, and the model
  placement on GPUs, which works with fractional memory sizes.
