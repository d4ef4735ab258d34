# polygon_client

Request construction for the [polygon.io](https://polygon.io) REST API,
verified with Verus.

- `src/rest.rs`: `RESTClient` (API key, base URL, timeout) and one method per
  endpoint, each returning the `Request` (URL, bearer token, query parameters)
  for that endpoint, with its exact URL stated in the contract; laws on the
  URLs (every request lies under the base URL, path segments and the
  aggregates multiplier can be read back from the URL).
- `src/text.rs`: decimal rendering of `u32` and ASCII lowercasing, with their
  laws (decimal round trip, lowercasing idempotent).
- `src/types.rs`: `TickType`.
- `app/`: the asynchronous client that reads `POLYGON_API_URL` and
  `POLYGON_AUTH_KEY`, sends the requests with `reqwest` and decodes the JSON
  replies with `serde`.
