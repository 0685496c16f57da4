# echo_markets

The contract of a binary prediction market on Bitcoin (Charms protocol):
create a market, mint and burn complete YES/NO sets, resolve with a signed
attestation or an oracle proof, redeem winning shares, cancel, claim fees,
and transfer shares.

- `src/` is the library, verified with Verus. Each operation has a
  specification in `src/contract.rs` (`mint_valid`, `burn_valid`, ...) and a
  validator whose result equals it; `market_contract` routes on the app's tag
  and the decoded operation. `src/laws.rs` proves properties across
  operations (supplies of complete sets stay equal, a market is resolved at
  most once, a burn undoes a mint, minted sets are backed by the sats paid
  into the market's UTXO, a cancelled market refunds every share, fees are
  claimed once, ...). The market's UTXO must gain the collateral on a mint
  and lose exactly the payout on a redemption. Hashing,
  Schnorr verification, CBOR decoding of plain values and the text of a UTXO
  id are calls into `sha2`, `k256` and `charms-sdk`, behind the trusted
  functions of `src/crypto.rs` and `src/cbor.rs`.
- `app/` holds `app_contract`, the Charms entry point: it turns the
  `charms_sdk` transaction and inputs into the library's types (decoding
  market states and operations with serde) and calls the library.
- `tests/` runs the rules on concrete transactions, with real signatures.
