# nel

Classification of network failures into the error types of the Network
Error Logging report format (`dns.name_not_resolved`, `tcp.failed`,
`tls.cert.date_invalid`, ...), verified with Verus.

- `src/error.rs`: the `Error` type (class and subclass), its phase and its
  wire form.
- `src/text.rs`: case-insensitive wording matches and first-match wording
  tables.
- `src/io.rs`: I/O failures, by kind, by a TLS failure inside them, and by
  wording.
- `src/tls.rs`: the failures rustls reports and their NEL subclasses.
- `src/http.rs`: hyper and reqwest failures and the native TLS wordings.
- `src/laws.rs`: properties proved of the classification as a whole.
- `app/lib.rs`: walks of `dyn std::error::Error` chains, and the
  translation of rustls errors into `TlsFailure`, feeding the verified
  classifiers.
