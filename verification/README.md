# sky_core

The core of the Sky messenger, verified with Verus.

- `src/` is the library. It holds the rules of the messenger with their
  contracts: account keys and ids, invite tokens, signed message covers,
  delivery confirmations, which rows the store keeps, and where a relay
  packet goes. The wire records are framed as JSON text and base64 in
  verified code; the cryptography (SHA-256, Ed25519, X25519, HKDF), base64,
  JSON string escaping, randomness and the clock are reached through small
  trusted wrappers in `encoding.rs`, `crypto.rs` and `clock.rs`.
- `app/` is the command line program around it: the SQLite store, the HTTP
  relay, and serde for reading JSON records back into library values.
- `tests/` runs the library on concrete values.

Invite payloads carry the version, account id, signing key, date and token
type. A payload may also carry the inviter's encryption public key: it is
read where present and written only where set, and a contact added from a
payload takes it as it is. The tokens the library issues carry none.
