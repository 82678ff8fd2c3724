# ares

Agent memory over RDF, verified with Verus.

- `src/graph.rs` — an in-memory quad store (oxigraph): Turtle and
  N-Triples loads into the default or a named graph, SPARQL queries and
  updates, quad counting, N-Quads dumps, and the promise update.
- `src/reasoner.rs` — the OWL 2 RL closure (reasonable) as an N-Triples
  document, and counting its non-blank lines.
- `src/validator.rs` — SHACL reports and how engine results become them.
- `src/pipeline.rs` — the full pipeline report.
- `app/` — the `ares` program: one module per chapter, file reading, the
  SHACL engine, and the Grafeo chapters.

Tests under `tests/` run against the real outside crates.
