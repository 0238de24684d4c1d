# zingo-http

An HTTP sidecar that exposes a Zcash light wallet. The library under `src/` holds
what the sidecar decides and computes, proved with Verus: reading the
configuration, letting requests in, answering them, sending payments and keeping
the wallet synced. The program under `app/` does the rest: it serves HTTP, talks to
the light client, and turns values into JSON.

## Configuration

- Required: `LIGHTWALLETD_ENDPOINT` and one credential (`ZCASH_MNEMONIC`,
  `ZCASH_SPENDING_KEY`, `ZCASH_USK`, or `ZCASH_UFVK`).
- Network: `ZCASH_NETWORK` (`testnet` default, `mainnet` supported).
- Optional: `ZCASH_LIGHT_CLIENT_API_KEY` (sent as `x-api-key`), `BIND_ADDR`/`PORT`
  (`127.0.0.1:8787` default), `ZCASH_DATA_DIR` (`.zingo-http` default),
  `ZCASH_SYNC_INTERVAL_SECS`, `ZCASH_MIN_CONFIRMATIONS`.

## API

- `GET /health`: wallet and network status, and the last sync error.
- `GET /address`: unified address of account 0.
- `GET /balance`: balances by pool, and the shielded total.
- `GET /sync-height`: wallet, fully scanned and latest heights, and the sync mode.
- `GET /transactions`: the three most recent transactions.
- `POST /send-shielded-tx`: sends from account 0; a wallet that can only
  view answers 403.

## What is trusted

The calls into other crates stand in `src/outside.rs`, and those into the standard
library in `src/text.rs`, each with the contract that is claimed of it.
