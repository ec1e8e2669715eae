# ergo-lib-jni

Wallet operations for the Ergo blockchain behind a JNI interface (`WalletLib`,
`WalletDev`): EIP-3 address derivation from a BIP-39 mnemonic, building ErgoPay
(EIP-20) reduced transactions, signing transactions and reduced transactions, and a
preview of a reduced transaction before it is signed. The logic is verified with
Verus; the cryptography, serialization and transaction machinery come from `ergo-lib`.

## Layout

- `src/` — the verified library.
  - `tx.rs` — reading a transaction request, building, reducing and signing; the order in
    which request errors are reported.
  - `ergopay.rs` — reading and signing reduced transactions given as base64.
  - `keys.rs` — EIP-3 paths and key derivation.
  - `inputs.rs`, `encoding.rs`, `text.rs` — JSON inputs, base64 variants, decimal text.
  - `error.rs` — the errors and the messages they report.
  - `outside.rs` — the `ergo-lib`, `serde_json` and `base64` calls, each with the contract
    that the library relies on.
- `tests/` — tests against the compiled library and the real outside crates.
- `app/` — the JNI entry points: they read Java strings, call the library, and return a
  Java string or throw a `RuntimeException`.
