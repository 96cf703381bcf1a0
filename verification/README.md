# kbr_api_rust

The verified core of the KBR API, a web backend for artists' campaigns,
events, news and mailing lists.

- `src/` is the library, written in Verus: roles and permissions, session
  tokens and request authentication, the error type and its HTTP answers,
  account rules (passwords, sign-up, password reset), request policies
  and the order in which each request is checked,
  image upload forms and storage keys, Shopify inventory counts, CORS
  configuration, migration bookkeeping, and the deploy webhook's decisions.
  Its public functions carry contracts, and Verus proves every function
  except the small trusted wrappers through which calls into other crates
  (`jsonwebtoken`, `bcrypt`, `hmac`/`sha2`, `hex`, `constant_time_eq`,
  `serde_json`, `chrono`, `rand`, `uuid`) go; their contracts are
  documented where they stand.
- `tests/` exercises the library with the real crates linked.
- `app/` is the server around it: a few HTTP handlers and the
  authentication extractor (`actix-web`), database access (`sqlx`), the
  CORS middleware, the deploy webhook listener and the `kbr-migrate`
  command line tool.
