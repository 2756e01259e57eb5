# Manual trading execution core

A keyboard-driven executor for prediction markets: for each configured match
it keeps the order books of a goal market and a match-result market, keeps a
pair of orders prepared from their best asks, and on a key press queues both
orders for immediate dispatch.

`src/` is the verified library (Verus):

- `float_bits` – binary64 values carried as bit patterns; IEEE-754
  comparisons computed on the bits.
- `orderbook` – price keys in IEEE order with every NaN last, book sides,
  best bid/ask, market-data types.
- `feed` – the fields of market-data feed messages and which messages carry
  an order-book snapshot.
- `prepared_orders` – orders prepared ahead of time, payload checks.
- `order_builder` – the goal/match order pair built from the best asks under
  a price limit.
- `executor` – latest prepared orders per match (a `DashMap`) and the
  bounded queue of execution requests.
- `match_engine` – matches (a `DashMap` by id), burst handling of market data,
  the manager.
- `dashboard` – key handling, the match list or its notice, row layout,
  status lines.
- `polymarket` – the API requests (method, URL, headers, body, the API key
  header) and the text of a failed request.
- `config`, `clock` – configuration entries, the default match list, clock
  and id sources.

`app/` is the program around it: HTTP and WebSocket transport, TOML and JSON
reading, the tokio tasks, and the terminal.
