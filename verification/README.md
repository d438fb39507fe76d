# collectible_pallets

Verified models of two FRAME pallets, written in Verus.

- `src/collectibles.rs`: accounts create collectibles (identified by a Blake2
  digest of the runtime's randomness, the extrinsic index and the block
  number), transfer them, price them and buy them. `PalletState` is the
  storage as mathematical values; each call's contract says which transition
  of `PalletState` it makes, and the `law_*` proof functions show that every
  transition keeps the storage consistent.
- `src/template.rs`: accounts create kitties registered under the Blake2 hash
  of their contents.
- `src/keymap.rs`: the maps that hold the storage.
- `src/hashing.rs`: SCALE encoding and Blake2 hashing, done by the Substrate
  crates behind trusted wrappers.
- `src/dispatch.rs`: origins, dispatch errors and `ensure_signed`.
- `app/lib.rs`: glue to a FRAME runtime (origins, randomness, block number,
  the runtime's currency).
