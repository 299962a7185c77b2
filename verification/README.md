# authenticator-helper

The local helper of a one-time-code authenticator. The authenticator's webview publishes snapshots
of its entries; the helper serves them to panels of the same desktop session over a private Unix
socket, one JSON line per request and per response.

- `src/` is the library: everything that the helper decides, with its contracts, verified by Verus.
  `laws.rs` holds what is true of the helper over every history of publications and requests.
- `app/` is the program around it: the socket, the clipboard, the windows, the clock and the file
  system.
- `tests/` runs the library on concrete values.

The library calls `serde_json` to build and write JSON. What the proofs take on trust about it is
stated in `src/json.rs`; the one function of the standard library that is taken on trust is in
`src/provenance.rs`.
