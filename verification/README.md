# aetherlink

Remote control of a Windows PC from a phone over a Noise XX channel
(`Noise_XX_25519_AESGCM_SHA256`): pairing by QR code with a one-time token,
trusted-device registries, Safe / Automation / Developer access modes, framing,
and the phone's request path with beacon discovery.

- `src/` — the library, verified with Verus. Each module states its contracts
  over spec functions; laws that relate several operations are public proof
  functions named `law_*`. The calls into `base64`, `rand`, `uuid`, `snow` and
  `str::trim` are the trusted items of `src/outside.rs`; standard base64 itself
  is specified in `src/b64.rs`.
- `tests/` — tests run against the compiled library with the real outside crates.
- `app/` — the servers and phone apps around the library: files, sockets,
  the UDP beacon, child processes and the JSON forms of the library's types.
