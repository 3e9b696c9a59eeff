# openworkers_runtime

The runtime of serverless workers: what goes on between a V8 engine that runs a worker's script
and the host that serves it.

The library under `src/` is written in Verus. Every function in it states what it returns and
changes, and Verus proves it. It holds the decisions of the runtime:

- `thread_pinned_pool`: isolates pooled per thread and kept apart by owner, with a queue
- `stream_manager`, `chunk_channel`: streams with backpressure
- `scheduler`, `worker_future`: the event loop with its timers, and when it ends
- `dispatch`, `callback_handlers`, `bindings`: calls of a script and the answers to them
- `worker`, `events`, `evaluation`, `env`, `task`: the life of a worker and its events
- `security`, `limits`: limits on memory, CPU time and wall-clock time
- `snapshot`: source packed together with compiled code
- `crypto`, `compression`, `text_encoding`, `url_parts`, `url_pattern`, `pattern_host`, `fetch`,
  `http_client`: the web interfaces of a script
- `operations`, `text`: shared data and text

Calls into other crates stand behind small functions marked `#[verifier::external_body]`, whose
contracts Verus takes on trust; the comment above each says what it claims.

`app/` is ordinary Rust around the library: the V8 engine, the scripts that give a worker its
interfaces, requests over the network, timers, signals and threads. It performs what the library
decides and tells it what has happened. `tests/` runs the library with the crates that it calls.
