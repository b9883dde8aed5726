# White Whale

Contracts of White Whale, an arbitrage and liquidation platform on the Terra blockchain:
flash-loan arbitrage between DEXes, liquidations on Mars, a WHALE war chest and vesting
contracts, an NFT minter that rewards liquidations, and the shared package of messages,
tax and asset helpers that they use.

The decisions of every contract are written in Verus and proved against their contracts,
and so is the reading of the protobuf-encoded result that the chain returns when a
contract instantiates another (`reply_data.rs`).

## Layout

- `src/` — the verified library.
  - `asset.rs`, `math.rs`, `cosmos.rs`, `error.rs`: assets and the Terra stability tax,
    fixed-point and 256-bit arithmetic with decimal notation, the messages and responses
    handed to the chain, and the reasons for refusing a request.
  - `white_whale/`: the shared package (Anchor, Prism, Terraswap, fees, the treasury's
    dApp base and vault assets, the memory contract's address book).
  - `liquidation_helpers/`: the messages of the liquidation helpers, router swaps, flash
    loans and NFT metadata.
  - `reply_data.rs`: the new contract's address in an instantiation result.
  - `contracts/`: each contract's state and entry-point decisions, taken on the state, the
    request, and what the chain answered to the contract's queries.
- `tests/` — tests of the library on concrete values.
- `app/` — the chain side: entry points, storage, queries, and the JSON forms of the
  messages.
