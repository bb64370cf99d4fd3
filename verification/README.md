# api

The request logic of an NFT marketplace indexer API, verified with Verus.

`src/` is the verified library:

- `db/` — the rows the database returns (numbers as `Decimal`, instants as seconds, JSON as
  text), the enumerations of the contract states, and `queries`: the SQL text of the searches
  whose shape depends on the request (trait filters with their bound values, orderings, price
  ranges).
- `handlers/` — the requests of each endpoint and what the service makes of them: defaults,
  query plans, pages and the answers built from rows.
- `model` — the answers, and how rows become them.
- `paging` — pages that ask for one row more than they hold to tell whether another follows.
- `services/` — login by wallet signature (message, hashing, signature checks, expiry), the
  access tokens it issues, and the authorization header that brings them back.
- `token`, `usd_price` — the token list and the USD prices made from the exchange's quotes.
- `keyed`, `instants`, `strings` — items indexed by address, calendar-checked instants, and the
  text operations the rest uses.

Calls into `bigdecimal`, `chrono`, `hex`, `base64`, `sha2`, `ed25519-dalek`, `jsonwebtoken` and the standard
library's text functions stand behind small trusted wrappers whose contracts say what those
crates do.

`app/` is the HTTP service around it: configuration, the database client, the price feed, the
routes and JSON.
