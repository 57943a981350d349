# rule_relay

The domain-check relay that sits between a client-side rule script and AdGuard
Home: it authenticates callers, normalizes the requested hostname, serves
fresh decisions from an in-memory TTL cache and otherwise asks AdGuard Home,
mapping its answer onto a small, stable public schema.

- `src/` is the library, verified with Verus:
  - `text.rs`: character-level string helpers (trimming, ASCII lower-casing,
    prefixes) with their meaning as spec functions;
  - `domain.rs`: hostname normalization and validation;
  - `models.rs`: the public response schema and the AdGuard reason mapping;
  - `adguard.rs`: the AdGuard client configuration, the `check_host`
    request and the status check;
  - `http.rs`: the reqwest client and the outgoing GET request, each
    carrying as ghost state what was put into it;
  - `clock.rs`: the monotonic clock of the cache;
  - `cache.rs`: the TTL cache and its laws;
  - `config.rs`: settings from raw environment values;
  - `service.rs`: authorization, the cache-then-AdGuard pipeline and the
    errors that clients see.
- `app/` is the HTTP server (axum, tokio, reqwest I/O, serde, logging) that
  drives the library.
- `tests/` exercises the library on concrete values.
