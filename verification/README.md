# openswap_maker

The maker of a coinswap market: the party that offers liquidity, swaps coins
with takers over hash and time locked contracts, and gets its funds back where
a swap breaks off.

`src/` is the library, written in Verus: every function states what it does and
Verus proves it.

- `chain`, `primitives`: transactions and keys as plain values, and the calls
  into the bitcoin, secp256k1, nostr and http crates. What those crates return
  is trusted; each such function says what is believed of it.
- `protocol/`: the messages, the contracts of both protocols, and two-party
  signatures.
- `maker/`: the handlers of the messages, the table of ongoing swaps, limits on
  connections, recovery, fidelity bonds, announcements, configuration and remote
  control.
- `market/`: the directory of makers.
- `relay_pool`, `settings`, `table`: what the above is built on.

Laws that span several functions are proof functions whose names begin with
`law_`.

`tests/` runs the library with the real crates. `app/` is the ordinary Rust
around it: sockets, files, threads, encodings, and the `Backend` trait that a
wallet and a node have to provide. How the maker starts, which connections and
messages it takes, whether a funding is deep enough in the chain, when a bond is
set up, renewed or announced, and how a swap is recovered are decided in `src/`,
by functions that take what came of the work outside; `app/` waits, reads and
sends as they say.
