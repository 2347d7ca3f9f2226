# rainbow_blog

The decision logic of a blog backend (an agent API under `/agent/v1`, a
one-time install wizard, an admin console and self-service API keys),
written in Verus and proved against its contracts.

## Layout

- `src/` — the verified library.
  - `text.rs`: string equality, prefixes, trimming, hex and decimal
    rendering, integer parsing, each stated over `Seq<char>`.
  - `clock.rs`: the current instant and random UUID bytes (trusted calls into
    `chrono` and `uuid`), UUID rendering.
  - `response.rs`: the application's error kinds, the agent envelope, the
    agent error object of each error kind, the HTTP status of each envelope,
    request ids.
  - `auth.rs`: agent scopes, their legacy permissions, the scope check, the
    bearer-token steps of optional and required authentication.
  - `listing.rs`: article and publication list items: a stored article with
    its author, publication and tags (read from their rows), and the items
    made of search hits.
  - `token.rs`: agent JWT checking: the HS256 payload (`jsonwebtoken`), the
    agent claims it holds, and the expiry check with a 60-second leeway.
  - `handlers.rs`: health answer, query defaults, search permission and
    paging, search results, article listing filters, comment permission and
    paged comment listing.
  - `site.rs`: the site configuration row, installation (once), admin check
    and updates, the install wizard's checks, password hashing (`argon2`),
    session claims.
  - `account.rs`: signed-in user requirement, API key creation (`sha2`),
    record-id normalisation, admin listing pages and their queries.
  - `record_id.rs`: decoding of the record-id, timestamp and counter shapes
    that the database returns (`chrono` for RFC 3339).
  - `recommendation.rs`: recommendation strategies, scores, de-duplication
    and stable ranking, preference tallies, trending query filters.
- `tests/` — tests of the library on concrete values.
- `app/` — the HTTP layer (axum): routers, middlewares, handlers, JWT
  signing (`jsonwebtoken`), the serde forms of the library's
  types, and the database and content services the handlers call.

The laws that the library proves stand as `law_*` proof functions beside the
functions they speak of.
