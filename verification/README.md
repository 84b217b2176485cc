# tempus_engine

Deterministic rule execution for decision systems: JSON-Logic rules carried
with governance metadata (name, version, tags, required context keys),
executed singly, in batches, in chains that pipe each result into the next
rule's context as `"decision"`, or with a full explain trace; plus a named
rule store.

The library under `src/` is verified with Verus. Evaluation is delegated to
`jsonlogic-fast` and JSON handling to `serde_json`; their calls sit behind
small trusted items whose contracts name what they compute, and the engine's
own logic (context validation, chaining, batch reporting, the store's index)
is proved against those contracts. The evaluator panics where an arithmetic
result is not a finite number; the execute functions require, through the
evaluator's named outcome, that evaluation returns on their inputs.

- `src/metadata.rs`: `RuleDefinition`, builders, `validate_context`.
- `src/engine.rs`: `execute`, `execute_batch`, `execute_batch_detailed`,
  `execute_chain`, `execute_explain`, `get_engine_info`.
- `src/store.rs`: `RuleStore`, with laws on insertion and lookup.
- `src/evaluator.rs`, `src/json.rs`: the trusted items over `jsonlogic-fast`
  and `serde_json`.
- `src/error.rs`, `src/explain.rs`, `src/text.rs`: errors, traces, messages.

`app/` holds what stays outside the verified library: serde forms of the
types, loading stores from JSON/YAML text and files, numeric execution
(floating point), and the Python and WebAssembly bindings.
