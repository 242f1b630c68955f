# opengatellm

Client library for the OpenGateLLM gateway (an OpenAI-compatible API
gateway for self-hosted models), written in Verus.

- `src/` is the verified library: the request and response model, the
  builders, the client configuration, the URL of every endpoint (through the
  `url` crate), the classification of the gateway's answers, the multipart
  fields of a document upload, and the decisions of the streamed chat
  completion (what each server-sent event yields, and where the stream ends).
- `app/` sends the requests with `reqwest`, (de)serializes JSON with `serde`
  on wire copies of the library's types, reads the server-sent event stream
  with `eventsource-stream`, and holds the response types that carry
  floating-point numbers.
- `tests/` exercises the library on concrete values.
