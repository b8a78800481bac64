# binance_bot

A Binance price-watching service whose deciding parts are verified with Verus.

- `src/` is the verified library:
  - `binance`: the API credential, the exchange handle (empty until a
    client is set; asking for the client before then is an error) and the
    requests sent to the exchange (market pair in upper case, one-minute
    candles by default, trade ids widened to `u64`).
  - `shared`: the messages and requests that client and server exchange.
  - `websocket`: reading client frames and deciding what a client message
    does to its connection.
  - `chart`: the browser chart of a subscription: which candles it takes in,
    its last update, its interval, with proved laws (appending keeps the
    shown candles and their order, appending a batch twice is appending it
    once, picking an interval twice is picking it once).
  - `server`, `service`: the web server's request and the error types.
- `app/` is the server program: tracing, key files, the exchange connection,
  JSON, the HTTP and websocket endpoints.
- `tests/` runs the library on concrete values.
