# malibus_shopifyapi_tooling

A toolkit for Shopify's Admin and Storefront GraphQL APIs, in two parts.

`src/` is a library verified with Verus. It holds everything that decides
something: the GraphQL enum codecs (with their round-trip laws), money and
decimal values, address normalization, the JSON documents sent as request
variables (stated exactly over a mathematical model of JSON), the
interpretation of every answer (user errors, created ids, pages), the
pagination state, the retry policy with exponential backoff, and the token
bucket that spaces requests out.

`app/` sends the requests: it owns the `gql_client` client, the async retry
loop and rate limiter (driven by the library's decisions), the conversion
between `serde_json::Value` and the library's `JsonValue`, the reading of
the remaining typed answers out of `serde_json` documents, the mutation
inputs that carry floating-point or free-form JSON values, and the
floating-point money arithmetic.

`tests/` exercises the library on concrete values.
