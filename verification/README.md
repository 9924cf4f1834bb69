# Hyperspace Light

The decisions of a relayer that carries IBC datagrams between Cosmos chains, verified with Verus.

- `src/` is the library. It makes no queries and sends nothing: each of its steps takes in what a
  chain answered and says what is to be asked or sent next.
  - `ibc` holds identifiers, heights, packets, channel ends, store paths and the encodings of
    messages.
  - `primitives` holds the search for a proof height, the search for undelivered packets and the
    bounds of timeouts.
  - `packets` holds the keys, proofs and messages of single packets.
  - `queue` and `relay` decide what is sent about a finality event, and in which batches.
  - `cosmos` reads the answers of a Cosmos chain and its events.
  - `testsuite` sets two chains up and sends tokens between them.
- `tests/` runs the library, and holds its encodings against those of `ibc-relayer-types`.
- `app/` talks to the chains.

Theorems about the library as a whole are the public proof functions whose names begin with `law_`.
