# paper_api

The paper search service: clients search, fetch and insert scientific papers;
the service embeds text with a Triton model server (SPECTER) and keeps papers
and their embeddings in a Qdrant collection.

- `src/` is the verified library (Verus): the record of a paper and the
  messages clients exchange (`model`, `surface`, `fatcat`), the payload that the
  vector store keeps for each paper (`payload`), decimal corpus ids (`text`),
  instants of time through chrono (`time`), the model's input text and token
  ids (`embedding`), the inference request with its little-endian tensors
  (`inference`), and what each handler answers (`service`).
- `tests/` runs the library on concrete values.
- `app/` is the server: gRPC binding, calls to Triton and Qdrant, and the
  floating-point work on embeddings.
