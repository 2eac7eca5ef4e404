# anone-launchpad

A fixed-price launchpad for an NFT collection of shoes on a CosmWasm chain. At
instantiation it fixes a supply of tokens (ids 1 to the supply), a per-address
mint limit and an admin, and asks the chain to instantiate the NFT contract
(`anone-cw721`) with the launchpad as its minter. Anyone may then mint for
themselves up to the limit (taking the smallest id left); the admin may mint
to others, choose ids, create shoe models, update the collection's details,
change the limit, hand over the admin role and withdraw the contract's balance.

Layout:

- `src/` — the library, verified with Verus.
  - `types.rs`, `msg.rs`: the state, messages, responses and errors, with the
    views that the contracts speak of.
  - `model.rs`: what every call does, as specification functions over the views.
  - `state.rs`: the stored state's well-formedness, lookups and updates.
  - `contract.rs`: the calls, each proved to compute exactly its model.
  - `encode.rs`: the messages to the NFT contract, encoded with the NFT crate's
    own types and `cosmwasm_std::to_binary`, and the decoding of the
    instantiation reply with `cw_utils`.
  - `decimal.rs`: decimal text of integers.
  - `laws.rs`: properties across calls (supply conservation, per-address limit,
    no token minted twice, admin-only messages, …).
- `app/` — the CosmWasm entry points: storage, host queries, JSON.
- `tests/` — tests of the library.
