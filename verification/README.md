# balance_attestation

Zero-knowledge balance attestation for the Logos Execution Zone: a prover
shows that a shielded account's balance is at least a threshold, without
revealing the balance, the account or its nullifier secret key.

`src/` is the verified library:

- `circuit` — the statement the RISC Zero circuit proves: commitment
  recomputation, Merkle membership, threshold, and the context-bound nullifier.
- `gate`, `encoding`, `program` — the on-chain gating program: the
  single-use admission rule, the borsh encodings of its state and journal, and
  its two instructions.
- `offchain`, `gatekeeper` — receipt verification off-chain and the
  token-gated group gatekeeper that admits each nullifier once.
- `message` — the presenter-binding message and its Ed25519 signature.
- `hexcodec`, `membership`, `relay`, `bytes`, `crypto` — hex text, the
  sequencer's membership answer, relay payload selection, byte encodings, and
  the SHA-256 / Ed25519 primitives.

`app/` holds the command line (`prove`, `verify`, `send`, `gatekeeper`), the
network and file I/O, and the zkVM entry points.
