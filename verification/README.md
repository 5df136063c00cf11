# llm_providers

Bridges between one set of language-model types and the wire types of individual providers,
verified with Verus.

- `src/` is the library. It builds Anthropic requests, with the prompt-cache marks that request
  headers ask for; prepares OpenAI-style chat requests; and turns whole chat responses and stream
  events into provider-independent contents. Every public function states what it returns, over
  mathematical views of the types. The `laws` modules state what holds of several calls together.
- `app/` sends requests, receives responses and streams, and shares tools between owners.
- `tests/` runs the library on concrete values.

JSON values are those of `serde_json`. What the library relies on from `serde_json` and from the
standard library without proof is declared in `src/json.rs`, `src/text.rs` and
`src/providers/anthropic/headers.rs`, each item with a comment that says what it claims.
