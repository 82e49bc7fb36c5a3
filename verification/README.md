# stellar_sentinel_treasury

A multi-sig treasury: signers propose withdrawals of a bound asset, approve
them, and execute them once a threshold of approvals is reached; an admin
manages the signer set, the threshold and the admin role. The treasury's
logic is written in Verus and proved against a mathematical model.

Layout:

- `src/types.rs`: addresses, error codes, storage keys, proposals, the
  configuration, events, and the effects a call asks of the host.
- `src/model.rs`: the mathematical state (`TreasuryView`), its invariant, and
  one spec function per operation that says what the operation returns and
  what state follows.
- `src/invariants.rs`: every operation keeps the invariant.
- `src/contract.rs`: `TreasuryContract`, the executable treasury; each method
  is proved to behave as its spec function says.
- `src/laws.rs`: properties over calls and sequences of calls (balance
  accounting, executed proposals stay executed, policy changes invalidate
  pending proposals, revoke undoes approve, ...).
- `src/seqs.rs`: address-sequence helpers and their lemmas.
- `app/lib.rs`: the Soroban contract around the library. It loads the state
  from contract storage, asks the host for ledger time, access-control ranks
  and the asset balance held, calls the library, then performs the requested
  token transfers, code upgrade and events and writes the state back.
- `tests/`: scenarios run against the library.
