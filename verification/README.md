# supahost

The control plane of a multi-tenant Supabase hosting platform, written in Verus: each
tenant gets its own Supabase stack, at most one running deployment, and lifecycle requests
(pause, resume, delete, reconcile) that are honoured in every phase.

## Layout

- `src/` — the verified library.
  - `billing/` — Stripe checkout sessions, webhook signatures (`t=...,v1=...` with
    HMAC-SHA256) and the webhook state machine. Once a webhook secret is configured,
    every webhook must be signed: a request without a `Stripe-Signature` header is
    refused (400 `invalid signature`) just like one with a wrong signature, rather than
    being processed unchecked. Without a configured secret, webhooks are not verified.
  - `platform_api/` — the tenant lifecycle rules, API errors, and the request flows
    (tenant creation, lifecycle requests) as state machines.
  - `component/` — the same API as a wasm component: configuration defaults, routing and
    request handling.
  - `provisioner/` — tenant records, naming, `.env` rendering, Kong and Traefik files, the
    Compose file adapted to a tenant, secrets, and the provisioning and teardown jobs as
    state machines.
  - `text`, `numbers`, `json` — strings specified over `Seq<char>`, decimal formatting and
    parsing, JSON string literals.
  - `clock`, `crypto`, `ids`, `jwt`, `random` — the calls into `time`, `hmac`/`sha2`,
    `uuid`, `jsonwebtoken`/`serde_json` and `rand`, each in a small unverified function
    whose contract says what the library relies on and whose doc comment says why.
  - `laws.rs` files and `law_*` proof functions state the properties that hold across
    calls: one deployment per tenant, the latest desired state wins, deleted tenants stay
    deleted, admin routes need the token, signed webhooks are accepted, and more.
- `tests/` — tests on concrete values.
- `app/` — the services around the library: HTTP (axum), NATS, Redis, Docker and the file
  system, JSON and YAML (de)serialisation, and the wasm component's host glue. They run
  the library's state machines and perform the actions these ask for.
