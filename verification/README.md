# solana_workshop

A small Solana client for token workshops, with its planning logic verified
in Verus.

- `src/` is the verified library. It decides which instructions each step
  sends (`plan`), encodes them through the SPL Token, System, Compute Budget,
  Associated Token Account and Metaplex crates behind contracts
  (`token`, `system`, `ata`, `metadata`), derives program addresses
  (`pda`), decodes base58 addresses (`ids`), reads token mints, token accounts,
  the clock and metadata back (`state`, `metadata`), computes fees and
  balance changes (`fees`), drives the walkthroughs step by step
  (`script`) and decides what each step sends and keeps (`walk`).
- `app/` talks to the cluster: it loads the configuration and keypairs,
  signs and sends the planned transactions, fetches accounts and prints
  them. Run it as `accounts`, `tokens <1|2|3>` or `transactions`.
- `tests/` checks the library against the real crates.

`app/` also uses `solana-client` (the RPC client) and `solana-cli-config`
(the CLI's configuration file), which `Cargo.toml` does not list: together
they bring several hundred further packages (networking, TLS and QUIC
stacks) into the build, and the verified library and its tests need neither.
Add both to `[dependencies]` to build the binary.
