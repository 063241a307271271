# the_bridge

The core of THE-BRIDGE trading engine as a Verus library: every function in
`src/` carries a `requires`/`ensures` contract that Verus proves. A law
about one function stands in that function's `ensures`; a law about a run
of calls (round trips, what a run of pushes and claims leaves pending,
what a run of probes and queries leaves on the assistant) stands as a
public proof function (`lemma_*`) over the spec functions those contracts
use.

- `src/` is the verified library: the order vocabulary and its wire codes,
  the trade pipeline ring, counters and their exposition text, compliance
  (LEI validation, the sanctions screen, the AML monitor, the disclosure
  ladder), fee tiers, the enclave signer, the threshold encryption envelope,
  the assistant's command handling, onboarding workflows, the project
  registry, the policy compiler, the onion-routing layer, the in-memory
  secret store, identities sealed for a regulator, the object pool, and the
  rate limiter and audit log of the HTTP front door. Calls into outside
  crates (hashing, signatures, X25519, AES-GCM, JSON, clocks, randomness)
  go through small trusted wrappers whose contracts say what those crates
  document.
- `tests/` runs the library with the real outside crates linked.
- `app/` is the service around the library: the tokio tasks and loops,
  network calls, and the engines whose arithmetic is floating point.

The object pool keeps its free list in a `VecDeque` with the same
first-in first-out order as the lock-free `SegQueue` of the service it
comes from: the pool is generic over its objects, and a name for what a
queue of an outside crate holds cannot be generic, so the queue could not
be declared with a stated content.
