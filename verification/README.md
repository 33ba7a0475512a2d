# cenyslovensko_api

A client library and JSON-RPC server for the cenyslovensko.sk price API,
written in Verus: the library's logic is stated in `requires` / `ensures`
contracts and proved.

- `src/` is the verified library: the web client configuration and its
  checks, the current-day price query with its builder and query parameters,
  the category tree conversion, the domain errors and their messages, the
  JSON-RPC protocol and request routing, the server settings, and the text
  helpers they rest on. Calls into `reqwest` and `serde_json` stand behind
  small trusted wrappers whose contracts say what those crates do.
- `app/` is the program around it: the stdio loop, the HTTP requests, the
  environment, the async gateways and the serde copies of the library types.
- `tests/` runs the library on concrete values.
