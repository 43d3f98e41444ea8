# keygen_rs

A client for the Keygen licensing API whose core is verified with Verus.

- `src/` is the verified library: offline verification of signed license
  keys and of license and machine files (signatures, decryption, validity
  periods), the planning of requests (URL segments, headers, and the
  attribute lists, relationships and queries of the resource types; the
  JSON envelopes around them, the metadata maps and a few fixed action
  bodies are written in `app/`),
  response-signature checks, rate-limit and API error mapping, API
  contract versions, and the codes of every enumeration the API uses.
  Each public function states its result in its `ensures`; the `law_*`
  proof functions state what holds across functions (codes read back,
  expiry is final, a license is created under its policy, ...). Calls into
  outside crates (ed25519-dalek, sha2, aes-gcm, base64, hex, subtle, url,
  chrono) go through a few trusted wrappers in `crypto.rs` and
  `certificate.rs`.
- `app/` is the unverified shell: the HTTP transport (reqwest), JSON wire
  forms (serde), the process-wide configuration, and the async calls that
  send what the library planned and hand back what came in.
- `tests/` exercises the library on concrete values.
