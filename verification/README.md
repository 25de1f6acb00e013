# MirageSSD

MirageSSD exposes an application-owned folder of Google Drive as a writable drive.
This crate is the verified core of its command line: the rules, formats and
decisions, written in Rust and proved with Verus.

- `src/config/` is the service configuration: its model, its validation and the
  developer overrides.
- `src/crypto/` holds page encryption, signatures, protected key records and
  recovery envelopes.
- `src/cli/` holds the commands: dispatch, sign-in, device mounts, backups,
  volumes, offload, repositories, the Drive gate and diagnostics.
- `app/` is the program around it: arguments, files, processes and pipes.
- `tests/` runs the library on concrete values.

What the library has from outside crates and from std stands behind small
functions whose contracts are taken on trust. They are in `crypto/primitives.rs`
(the algorithms and the operating system's randomness), `cli/host.rs` (JSON
strings), `cli/backend_login.rs` (the parts of a URL), `cli/diagnostics.rs` (the
archive checksum), `config/validate.rs` (the platform's path separator) and
`text.rs` (putting a character behind a text).

Every refusal is stated in a contract with its kind and its message. What holds
of several operations together is stated in proof functions named `law_...`.
