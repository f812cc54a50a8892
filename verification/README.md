# sv2_custom_proxy

A Stratum V2 proxy that sits between two mining roles, relays their frames
and exports Prometheus metrics about what passes through it. The decisions
it takes are a Verus-verified library under `src/`; `app/` holds the
program around it (sockets, async tasks, HTTP, metric registration).

- `src/hex.rs` — lower-case hex of byte strings, and reading a hash back in
  reverse byte order.
- `src/text.rs` — string equality, decimal text of integers, `u64` parsing,
  lines and words of a text, lossy UTF-8 decoding.
- `src/json.rs` — JSON values as the library reads them, parsed by
  `serde_json`.
- `src/reward.rs` — mempool.space URLs, the steps of one attempt at a
  block reward (which request follows which reply), the reward from the two
  replies, and the retry loop of the lookup.
- `src/metric.rs` — Prometheus query URL and reply, and the scan of a
  metrics page for the submission time of a share.
- `src/channel.rs` — the two sides of the proxy and the routing rule of a
  message channel.
- `src/intercept.rs` — what each interceptor does with a received message.
- `src/setup.rs` — the proxy's role, the interceptors it installs, the
  connection retries, and what a receive loop counts over a run of
  messages.
- `src/lookup.rs` — the outside lookups a plan calls for (template value,
  block reward, share submission times), with their addresses and retry
  settings.

`tests/` runs the library on concrete values.
