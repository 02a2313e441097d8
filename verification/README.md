# ticketdaddy

Verified core of the TicketDaddy escrow and NFT-receipt programs for Solana.

- `src/` — the library, verified with Verus. Each program instruction is a
  function from the accounts it reads and writes, plus the plain values the
  runtime supplies (signer keys, the clock, PDA bumps), to the new account
  contents and the emitted event, or to the error the instruction fails with.
  - `escrow/` — program state, business registry, escrow creation (fee split,
    release time), release, refund, pause/resume, rescheduling, admin
    settings, token whitelist, the admin gate, and proved laws (`laws.rs`).
  - `nft_receipt/` — receipt minting plans, batch minting, burning, admin
    settings, and proved laws.
  - `pubkey.rs`, `text.rs` — 32-byte addresses and UTF-8 byte lengths.
- `app/` — the Anchor programs around the library: account loading, clock,
  token and lamport transfers, metadata CPIs and events.
- `tests/` — executable tests of the library.
