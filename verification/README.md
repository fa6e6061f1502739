# polymarket_sweeper

A mocked market-making sweeper for binary prediction markets, split in two.

- `src/` is the verified library (Verus). It holds the integer and text logic
  of the sweeper with its contracts and proofs:
  - `exchange::types` — sides, market states, tokens, and the mid price of an
    order book;
  - `exchange::clob_ws` — which trades of a polled batch are new, their
    delivery order, and the token's watermark afterwards;
  - `exchange::data_api` — the mock market catalogue, outcome tokens of a
    market, reading a market id back out of a token id, and the token ids of
    all markets without repeats;
  - `strategy::agent` — the discovery window of new markets, the event budget
    of an agent run, and ingest statistics;
  - `sim` — prices of a simulated feed step, the sweep side of a signal, and
    the number of simulated markets;
  - `util::time` — instants as chrono holds them, the time between two, and
    reading the system clock;
  - `telemetry` — the exported metrics and their registry.
- `app/` is the program around it: configuration, the command line, network
  and database clients, the metrics endpoint, and everything that computes in floating
  point (fair values, mispricing signals, quoting, risk limits, FIFO position
  accounting, the fill model).
- `tests/` runs the library on concrete values.
