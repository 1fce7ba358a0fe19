# rust_server

A small HTTP/1.1 server. The library in `src/` holds everything the server
decides; each function there carries a contract that Verus proves:

- `text`: trimming, splitting, prefix tests, decimal numbers.
- `keyed`: an insertion-ordered map with unique text keys (headers, routes).
- `http`: methods, status codes, requests and responses.
- `request`: the status line, header lines and the announced body length.
- `server`: the server's configuration and its route lookup.
- `respond`: response heads, error replies, and what to do with a request.
- `files`: content types, byte ranges and the heads of file replies.
- `handlers`: the handlers of the demonstration routes.

`app/` is the program: it listens with tokio, runs a thread pool, reads and
writes the sockets and files, and calls the library for every decision.
