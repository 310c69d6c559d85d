# earnproof

Verified core of the Earnproof credential registries on Soroban.

- `src/` is the verified library. It holds the shared error catalog and
  storage-namespace inventory, TTL health reporting, strkey validation, the
  resumable migration checkpoint, configuration digests, the compatibility
  gates with the golden interface snapshots, and executable models of the
  issuer registry and the proof registry. Every entry point of a registry is a
  method whose contract relates the storage before and after the call to a
  spec function of the model; the laws that span entry points (index
  consistency, terminal revocation, immutable proof content, timelocked and
  single-use upgrades, what a read returns after a write) are proof functions
  in `issuer_laws.rs` and `proof_laws.rs`.
- The proof registry reads two other contracts while registering a proof.
  The library decides which read comes next and with which argument
  (`next_registration_read`) and takes the replies as arguments; a reply
  that failed or could not be decoded aborts the registration.
- `app/` wraps the models as Soroban contracts: each entry point loads the
  entries it may touch into the model, runs it under the host's
  authorization, writes the model back, extends TTLs and publishes events.
- `tests/` exercises the library on concrete values.
