# indexer

A Solana block indexer. The verified library (`src/`) decodes base64
transactions through the Solana crates, accounts for the SOL that
system-program transfers move, sums fees, pairs each transaction's accounts
with their balances, builds the rows that are stored, and decides each step
of the polling loop. `app/` holds the program around it: the JSON-RPC calls,
the PostgreSQL inserts and the loop that performs the library's decisions.

- `src/model.rs`: the transaction and system-instruction model, its views.
- `src/solana.rs`: the calls into `solana-sdk` and `solana-transaction-status`.
- `src/decode.rs`: decoding and the per-transaction transfer accounting.
- `src/block.rs`: block responses, fee and transfer totals, accounts.
- `src/records.rs`: the stored rows.
- `src/indexer.rs`: the polling loop's decisions.
- `src/sum.rs`, `src/laws.rs`: sums and the properties proved of the library.

`app/` names `diesel` (PostgreSQL) and `dotenv`, which `Cargo.toml` leaves
out to keep the dependency tree small; add them back to build `app/`
(`diesel = { version = "1.4", features = ["postgres"] }`, `dotenv = "0.15"`;
diesel also needs libpq).
