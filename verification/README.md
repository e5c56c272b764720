# live_arb

Arbitrage between the perpetual futures of Binance and Bybit: prices are followed on
both exchanges, a coin is bought where it is cheap and sold where it is dear, and both
legs are closed when the spread has converged.

- `src/` is the library, verified with Verus. It holds the stores of prices and funding
  times, the rolling statistics and thresholds, the decisions to open and to close, the
  course of orders and trades, accounting, the journal's records and summary, and the
  text of requests, logs and the terminal table. Amounts, prices and percentages are
  integers that count hundred-millionths.
- `app/` is the program around it: connections, files, the terminal and the tasks.
- `tests/` runs the library.

What comes from other crates or from the clock stands behind small trusted functions.
Each says in its doc comment which function it calls and what it claims of it.
