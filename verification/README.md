# big_iron

The verified core of a small crypto-portfolio server: it follows exchange
price streams, keeps the account's daily balance snapshots in a local store,
serves a chart of them, and asks an R model for trading signals.

- `src/` is the library, verified with Verus:
  - `portfolio`: the account-history types, how a fetched history is written
    to the store (`plan_history_refresh`), how it is put back together from
    the stored rows (`assemble_account_history`), and the query windows.
  - `prediction_model`: the meaning of the model scripts' outcomes and output.
  - `book`: the price streams the server subscribes to.
  - `server_error`: error answers and error-page texts.
  - `cli`, `decimal`: status-line and terminal-control texts.
  - `dashboard`: the dashboard's clock text and chart address.
- `app/` is the server program around it: HTTP routes, the SQLite store, the
  exchange connections, the R process and the chart drawing.
- `tests/` exercise the library on concrete values.
