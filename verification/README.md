# oviec

The core of the Ovie compiler, written in Verus: each public function
states what it does in its contract, and Verus proves the code against it.

## Layout

- `src/` — the verified library:
  - `lexer` — tokens of Ovie source, with their locations;
  - `ast`, `hir`, `hir_tree`, `hir_builder`, `hir_checks` — the syntax
    tree, the typed high-level representation built from it, its symbol
    table, and its checks and report;
  - `ir`, `ir_machine` — the intermediate representation, its builder, and
    the machine that runs it step by step;
  - `interpreter` — runtime values, the environment of nested scopes, and
    the operators on values;
  - `error`, `ai_feedback` — diagnostics, their reporter, and structured
    feedback on them;
  - `build_config` — reproducible build hashes and the compiler's settings;
  - `cli`, `cli_args` — the source formatter, exit codes, and the command
    line;
  - `codegen`, `cross_target`, `branding` — target configurations, calling
    conventions, cross-target consistency, and project templates;
  - `hardware`, `hardware_safety`, `device_state`, `device_ops` — devices
    modelled as mathematical objects, the safety rules that guard their
    operations, and the record that keeps their behaviour reproducible;
  - `text`, `text_map`, `case_names` — text building blocks and a sorted
    string map.
- `tests/` — tests of the library on concrete values.
- `app/` — the `oviec` program: file and process I/O, the loops that run
  the library's step functions, floating-point steps, and JSON output.

The laws of the library are public proof functions whose names begin
with `law_`.
