# lenso_search

A rebuildable full-text index for Lenso plugins, with its rules verified in Verus.

Trusted indexers send documents; trusted callers search a scope and get `{source_kind, source_id}`
references and the revision of the index, never the indexed text.

- `src/` is the verified library. `query`, `upsert` and `delete` are sessions: each names the next
  statement to run and takes what came of it. `rules`, `config`, `schema` and `text` say which
  requests and configurations are accepted. `model` describes the index as a whole, and `laws`
  proves what holds of it. `agent_tools` is the one tool that an agent gets.
- `app/` runs the sessions against PostgreSQL and offers them to the kernel.
- `tests/` runs the library, with an index in memory in place of the database.
