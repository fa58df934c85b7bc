# gamlastan

A SAML 2.0 library whose logic is written in Verus and proved against its
contracts: metadata types, their extension accessors and their XML
serialization, the Web Browser SSO
and ECP profiles, single logout, artifact resolution, assertion query, name
identifier mapping and management, subject confirmation, IdP discovery,
PEFIM, sessions, and the Swedish eID (Sweden Connect) and SPID deployment
profiles.

Layout:

- `src/` — the verified library. Calls into `uppsala` (XML parsing and
  writing), `bergshamra-c14n` (C14N escaping), `base64` and `chrono` (the
  clock and instant formatting) go through small trusted wrappers whose contracts name or state what
  those crates return.
- `tests/` — tests run against the compiled library with the real outside
  crates.
- `app/` — host-side companions: error types implementing
  `std::error::Error` (through `thiserror` where the library's errors used
  it) with conversions to and from the library's own, and a mutex-guarded
  session store for use from several threads.

Instants are nanoseconds since the Unix epoch, carried as `i128`.
