# market_sz

A feed handler for the Shenzhen stock exchange binary market-data protocol. It logs in to
the exchange gateway, decodes snapshots, index snapshots, volume statistics, realtime status
and stock reports, keeps a quote record per security, and pushes quote rows and market
date/time/status announcements to a T2 quote bus.

The decoding and bookkeeping are verified with Verus; the network, file, database and C
library plumbing around them is ordinary Rust.

## Layout

- `src/` — the verified library.
  - `wire.rs`: big-endian field access, frame checksums, heartbeat and log-in frames.
  - `market.rs`: message bodies and their effect on the feed context (`Context`), stated as
    spec functions over `ContextModel`.
  - `t2sdk.rs`: quote records (`StockRecord`) and the quote-bus messages built from them.
  - `interoper.rs`: T2 messages and the queue of messages waiting to be sent.
  - `table.rs`: the stock table (codes to records) and its laws.
  - `utils.rs`: line numbers, trading status, rounding, code classes, text encodings,
    number parsing, the trading-window check and the save schedule.
  - `xmlhelper.rs`: the securities of a static security file, read from its XML events.
  - `db.rs`: rows of the security master database applied to the table.
  - `dbf.rs`, `storage.rs`, `pubsub.rs`: DBF headers, storage keys, published frames.
- `tests/` — tests of the library on concrete values.
- `app/` — the programs: the feed loop, the T2 C library binding, JSON snapshots, logging,
  XML and database readers, and the nanomsg and leveldb demos.
