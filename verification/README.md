# basilisk

Verified core of the Basilisk runtime pallets, written in Verus. Each module
takes what the pallet reads from storage as plain values, decides, and returns
what the pallet writes back and the currency movements it makes; its contract
states that result exactly.

- `fixed`: 18-decimal fixed point numbers, backed by `sp_arithmetic::FixedU128`.
- `types`: identifiers, asset pairs, class types and currency movements.
- `liquidity_mining`, `liquidity_mining_laws`, `liquidity_mining_migration`: farms,
  liquidity pools, deposits and their rewards.
- `nft`: class and instance creation, transfer, burning and destruction rights.
- `marketplace`, `marketplace_laws`, `marketplace_migration`: listing prices,
  offers, sales with royalties, and the royalty migration to basis points.
- `price_oracle`, `price_oracle_laws`: price entries, rings of the last ten
  periods and their averages.
- `redeemables`: a bonding curve pool for redeemable NFTs.
- `registry`: asset names, ids, metadata and locations.
- `benchmarking`, `stubs`: amounts and stand-in collaborators used by the
  benchmarks.

`tests/` exercises the library on concrete values.
