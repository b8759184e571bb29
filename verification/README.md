# wechat-pay-rust-sdk

A WeChat Pay v3 merchant client whose logic is verified with Verus.

- `src/` is the verified library: the request signing message and the
  `Authorization` header, the nonce and timestamp, the payment data that a
  client signs (`SignData`), the payment and refund request bodies, the
  checking of the platform's callback signatures, the decryption of callback
  resources, the PEM form and validity of platform certificates, the reading
  of the `weixin://` link out of an H5 page, and the plain data types of the
  API. RSA, SHA-256, Base64, AES-256-GCM, JSON, UUIDs, X.509 and the clock are
  the outside crates' work; each call stands behind one trusted item whose
  contract says what the library relies on.
- `src/blocking/pay.rs` prepares each API call as a `PayRequest` (method, URL,
  signed headers, body) without sending it.
- `app/` is the unverified client around the library: the serde forms of the
  types, the blocking and async HTTP transport, the reading of the merchant's
  settings from the environment, and the JSON decoding of a decrypted
  callback.
- `tests/` runs the library against the real outside crates.
