# starforge

Network configuration management for the StarForge command line, written in
Verus.

- `src/` is the verified library:
  - `text.rs`: Unicode whitespace, trimming, and endpoint URL normalisation.
  - `endpoint.rs`: URL parsing through `reqwest::Url` (the one trusted call)
    and the verdict on a parsed endpoint.
  - `config.rs`: the configured networks, their well-formedness, and adding,
    removing and renaming custom networks.
  - `network.rs`: the `network` subcommands (`validate_url`,
    `validate_passphrase`, `switch`, `add_network`, `remove_network`,
    `rename_network`, the listing behind `show`, and the plan behind `test`).
  - `laws.rs`: properties relating the operations (round trips, idempotence,
    refusals leaving the configuration unchanged).
- `tests/` runs the library on concrete values.
- `app/` is the program around it: argument parsing, the configuration file,
  terminal and JSON output, and the HTTP probes of `network test`.
