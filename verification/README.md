# qrcode_agent_cli

A command-line tool that turns inline text into a QR code, rendered as
terminal text or written as a PNG image, with structured (YAML, JSON, TOML)
reports, structured help, and persisted default settings (the Active Context).

- `src/` is the library, written and proved in Verus: reading render modes and
  output formats, resolving a run's settings from flags, persisted defaults and
  built-in defaults, applying `context set`, determining the runtime
  directories, the structured help documents, the error reports, and QR
  generation through the `qrcode` crate. `src/laws.rs` states the properties
  that hold across these operations.
- `app/` is the program around it: argument parsing with `clap`, reading the
  environment and the file system, serialization with `serde`, writing PNG
  files, and printing.
- `tests/` exercises the library on concrete values.
