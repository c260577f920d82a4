# lib_conf

The verified core of the `LibConfig` derive: from a plain description of a
named struct and its `#[config(..)]` attributes it checks the attributes
against the attribute reference and writes the source of the generated
builder, override struct and config methods. The generated code merges
run-time overrides through the verified functions of `merge`.

- `src/` — the library, verified with Verus: attribute tables and
  validation (`attr`, `validate`, `field_attrs`), reading the struct
  (`meta`, `ty`, `origin`, `structure`), code generation (`doc`, `names`,
  `gen_override`, `gen_fields`, `gen_struct`, `lib_config`), the run-time
  merge rules (`merge`), value adapters (`adapter`), the proved laws
  (`laws`), and the calls into `syn`, `prettyplease` and std (`outside`).
- `app/` — the proc-macro front end that turns `syn` input into the
  library's description and its output back into tokens, the Postgres
  pool override, whose secret type the verifier cannot declare, and the
  tracing-level adapter, whose conversion panics on an unknown name.
- `tests/` — usage scenarios, written against hand-expanded output,
  and tests of the generated text.
