# tighterror_build

Specification processing for *tighterror*, a framework of compact error
types: errors are declared in a YAML or TOML specification file, and Rust code
is generated from it. An error kind is a small unsigned integer whose high bits
hold the error's category and whose low bits hold its variant within the
category.

The library in `src/` is verified with Verus:

- `parser` — the YAML and TOML specification parsers. Each document is
  modelled as a value (`YamlValue`, `TomlValue`), and the parsers are proved to
  accept exactly the documents that the specification functions
  `spec_yaml_value` and `spec_toml_value` describe, returning the
  specification they describe, and `BAD_SPEC` otherwise. Every accepted
  specification is proved well formed: it has modules, each module has
  categories, each category has errors, and names are unique ignoring case.
- `spec` — the specification model and its accessors, with the defaults of
  every attribute.
- `coder` — the options of a code generation run, the bit layout of error
  kinds (`Bits::calculate`, with the proof that a kind value identifies its
  category and variant), the layout of modules in output files, doc strings
  and the blank-line layout of generated code.
- `errors`, `location`, `traits`, `linter`, `args` — the library's own error
  kinds, source locations, the traits of generated error types, YAML linting
  and the command-line arguments.

`app/` holds the `cargo tighterror` program: argument parsing, file I/O,
`rustfmt`, and the `quote!` templates that render the generated code from the
values the library computes.

Variant error types (a type per error kind, under the `variant::types`
module) are not generated: the library computes an error's variant type name
and checks that it collides with no struct name, but no code is produced for
it.

Paths are handled as strings. The contracts of the path functions speak of
*plain* paths (no `\`, no `:`, not starting with `//`), which split into the
same components on every platform; what becomes of other paths depends on
the platform and is left to `std::path`.
