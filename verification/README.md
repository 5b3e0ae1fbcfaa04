# rustfmt_core

The configuration of a Rust source formatter and the layout decisions it
makes for patterns, written in Verus with their contracts proved.

- `src/options.rs`: option values, option descriptions, and the table of the
  formatter's options with their defaults.
- `src/config.rs`: the configuration (values, what a file set, what was read),
  reading and setting options, partial configurations.
- `src/output.rs`: writing a partial configuration as TOML.
- `src/docs.rs`: the documentation of the options.
- `src/reading.rs`: taking a configuration file's values.
- `src/loader.rs`: deciding where the configuration comes from.
- `src/patterns.rs`: layout decisions for patterns.
- `src/toml_text.rs`: the calls into the `toml` crate, with the contracts
  they are trusted to meet.
- `app/`: the file system, standard error, and serde decoding around the
  library.
