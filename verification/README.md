# open_ai_sdk

A Rust SDK for the OpenAI API whose core is verified with Verus.

- `src/` is the verified library: the data model of requests and answers
  (Chat Completions, Responses, Embeddings, Files, Models), their builders,
  the configuration, the planning of HTTP requests (URL, headers, query,
  timeout), the forming of API errors, and the Server-Sent Events decoder.
  Each public function states what it returns in its contract. The laws of
  the decoder are proved: the events do not depend on how the decoded text
  is cut into chunks (a chunk that is not valid UTF-8 on its own, such as
  one that splits a multi-byte character, is handed out as an error, changes
  nothing, and decoding goes on). So are the laws of URL joining and of
  key-value entries: setting an entry acts as a map insertion, and entries
  that are sorted by key with one entry per key, as a `BTreeMap` keeps
  them, stay so.
- `app/` is the asynchronous client around it: it performs HTTP with
  `reqwest`, serializes with `serde` through copies of the data types,
  derives JSON Schemas with `schemars`, and reads the environment.
- `tests/` exercises the library on concrete values.
