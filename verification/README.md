# logtura-cf-tail

Bridge between Cloudflare's Workers Tail API and Vector's `exec` source:
one tail session per Worker, each WebSocket message written to stdout as
newline-delimited compact JSON.

- `src/` is the verified library: configuration checks (`config`),
  `${VAR}` / `${VAR:-default}` expansion (`env`), the tail creation
  endpoint and the meaning of its answer (`api`, `encoding`), the renewal
  time and reconnect backoff of a worker (`tail`, `clock`), and what is done
  with each WebSocket event (`stream`, `json`).
- `app/` is the program around it: argument parsing, reading the file and
  the environment, TOML and HTTP-answer deserialisation, the HTTP client,
  the WebSocket loop and stdout.
- `tests/` exercises the library.
