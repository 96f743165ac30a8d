# launchpad

A bonding-curve token launchpad that graduates into a DEX, verified with Verus.

- `src/` is the library. Every function states what it asks of the runtime,
  what it returns and what it leaves in the records; `src/laws/` states what
  holds of all calls together: where an escrow's funds can go, that the records
  account for them, that a launch only moves forward, and more.
- `tests/` runs the library against a ledger in memory.
- `app/` binds the library to a FRAME runtime: storage layout, dispatch in a
  storage layer, weights, and versioned migrations.

Balances are `u128`, asset ids and block numbers `u32`, accounts twenty bytes.

The library believes a handful of items of other crates, each with its contract
beside it: the 256-bit arithmetic of `sp_core::U256` (`src/u256.rs`), the account
derivation of `frame_support::PalletId` (`src/accounts.rs`), and the digest and
the encoding of `sp_runtime::traits::BlakeTwo256` and `parity_scale_codec`
(`src/codec.rs`). Of the runtime it believes nothing: contracts speak
of its answers through a record that nothing enters but calls that were made.
