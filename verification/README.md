# redis_client

An HTTP service for administering a Redis server: add to and read from lists
and hashes, rename and delete keys, change their time to live, report on the
server and on keys, and download or upload Redis dumps.

- `src/` is the verified library. Each endpoint is a state machine
  (`handlers::protocol`): step by step it asks for one Redis command or gives
  the HTTP reply, and its contract states which command comes next and what
  the reply is for every outcome. `dump` holds the file format that carries
  several keys' dumps and the proof that a written file reads back;
  `text` holds the character-level parsing of `INFO` replies and of numeric
  settings; `json` the JSON texts the service writes; `config` the settings;
  `models` the answers.
- `app/` is the server: settings from the environment, the Redis pool, the
  actix-web handlers that run each endpoint's state machine against Redis,
  Prometheus metrics, the Swagger page and the index page.
- `tests/` drive every endpoint against an in-memory stand-in for Redis.
